//! Typed, null-aware columns built from untyped host values, read back into
//! host values, and the series operations over them.
//!
//! - `value`: host values, stored values and the conversion between them.
//! - `column`: the column model and its invariant.
//! - `builder`: building a column under a strict or lenient policy, and
//!   reading it back.
//! - `laws`: what building and reading back guarantee together.
//! - `series`, `ops`, `compare`, `order`, `sort`, `cumulative`: the series
//!   handle and its operations.
//! - `eager`: concatenation of series.
use vstd::prelude::*;

pub mod dtype;
pub mod value;
pub mod column;
pub mod builder;
pub mod laws;
pub mod series;
pub mod ops;
pub mod compare;
pub mod eager;
pub mod order;
pub mod sort;
pub mod cumulative;

verus! {

} // verus!
