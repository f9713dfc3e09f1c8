use vstd::prelude::*;

use crate::builder::{build, build_fails, build_slots, is_first_failure, materialize, TypeConversionError};
use crate::column::{host_of_slot, lemma_chunk_sum_push, materialize_spec, Column, IsSorted};
use crate::dtype::DataTypeTag;
use crate::value::{HostValue, Scalar};

verus! {

/// Why a series operation was refused.
#[derive(Clone, Copy, PartialEq, Eq, Structural, Debug)]
pub enum RbError {
    /// An element could not be converted while building a series.
    Conversion(TypeConversionError),
    /// The operands' element types do not fit the operation.
    SchemaMismatch,
    /// The operands' lengths differ.
    LengthMismatch,
    /// The operation is not defined for the element type.
    InvalidOperation,
    /// An index lies outside the series.
    OutOfBounds,
}

pub type RbResult<T> = Result<T, RbError>;

/// The clamped `[start, stop)` range that `slice(offset, length)` selects from
/// a series of `len` elements; a negative offset counts from the end.
pub open spec fn slice_bounds(offset: int, length: int, len: int) -> (int, int) {
    let s = if offset < 0 { offset + len } else { offset };
    let e = s + length;
    (clamp(s, len), clamp(e, len))
}

pub open spec fn clamp(x: int, len: int) -> int {
    if x < 0 { 0 } else if x > len { len } else { x }
}

/// A copy of a sequence of slots.
pub fn copy_slots(v: &Vec<Option<Scalar>>, start: usize, stop: usize) -> (r: Vec<Option<Scalar>>)
    requires
        start <= stop <= v@.len(),
    ensures
        r@ == v@.subrange(start as int, stop as int),
{
    let mut out: Vec<Option<Scalar>> = Vec::with_capacity(stop - start);
    let mut i: usize = start;
    while i < stop
        invariant
            start <= i <= stop <= v@.len(),
            out@ == v@.subrange(start as int, i as int),
        decreases stop - i,
    {
        let s = match &v[i] {
            Some(x) => Some(x.duplicate()),
            None => None,
        };
        out.push(s);
        i = i + 1;
        assert(out@ =~= v@.subrange(start as int, i as int));
    }
    out
}

/// A copy of a sequence of chunk lengths.
fn copy_chunks(v: &Vec<usize>) -> (r: Vec<usize>)
    ensures
        r@ == v@,
{
    let mut out: Vec<usize> = Vec::with_capacity(v.len());
    let mut i: usize = 0;
    while i < v.len()
        invariant
            i <= v@.len(),
            out@ == v@.subrange(0, i as int),
        decreases v@.len() - i,
    {
        out.push(v[i]);
        i = i + 1;
        assert(out@ =~= v@.subrange(0, i as int));
    }
    assert(v@.subrange(0, i as int) =~= v@);
    out
}

impl Column {
    /// A copy of the column, chunks and sortedness flag included.
    pub fn duplicate(&self) -> (r: Column)
        ensures
            r.name@ == self.name@,
            r.dtype == self.dtype,
            r.values@ == self.values@,
            r.chunks@ == self.chunks@,
            r.sorted == self.sorted,
    {
        let values = copy_slots(&self.values, 0, self.values.len());
        assert(self.values@.subrange(0, self.values@.len() as int) =~= self.values@);
        Column {
            name: self.name.clone(),
            dtype: self.dtype,
            values,
            chunks: copy_chunks(&self.chunks),
            sorted: self.sorted,
        }
    }
}

/// A series handle: one column.
#[derive(Debug)]
pub struct RbSeries {
    pub series: Column,
}

/// The series a successful build of a `t` column yields.
pub open spec fn built_as(r: RbSeries, name: Seq<char>, s: Seq<HostValue>, t: DataTypeTag) -> bool {
    &&& r.wf()
    &&& r.series.name@ == name
    &&& r.series.dtype == t
    &&& r.series.values@ == build_slots(s, t)
    &&& r.series.chunks@ == seq![s.len() as usize]
    &&& r.series.sorted == IsSorted::Not
}

/// The outcome of building a `t` series from `s`, as the constructors state it.
pub open spec fn build_result(
    r: RbResult<RbSeries>,
    name: Seq<char>,
    s: Seq<HostValue>,
    t: DataTypeTag,
    strict: bool,
) -> bool {
    &&& r is Err <==> build_fails(s, t, strict)
    &&& r matches Ok(x) ==> built_as(x, name, s, t)
    &&& r matches Err(e) ==> (e matches RbError::Conversion(c) && c.expected == t
        && is_first_failure(s, t, c.position as int))
}

/// Builds a series of element type `t` from host values.
pub fn new_primitive(name: String, obj: &Vec<HostValue>, t: DataTypeTag, strict: bool) -> (r:
    RbResult<RbSeries>)
    ensures
        build_result(r, name@, obj@, t, strict),
{
    match build(name, obj, t, strict) {
        Ok(c) => Ok(RbSeries { series: c }),
        Err(e) => Err(RbError::Conversion(e)),
    }
}

impl RbSeries {
    pub open spec fn wf(&self) -> bool {
        self.series.wf()
    }

    pub open spec fn len_spec(&self) -> nat {
        self.series.values@.len()
    }

    pub fn new(series: Column) -> (r: Self)
        ensures
            r.series == series,
    {
        RbSeries { series }
    }

    /// Builds a boolean series; unconvertible elements are refused in strict
    /// mode and become null otherwise.
    pub fn new_opt_bool(name: String, obj: &Vec<HostValue>, strict: bool) -> (r: RbResult<Self>)
        ensures
            build_result(r, name@, obj@, DataTypeTag::Boolean, strict),
    {
        new_primitive(name, obj, DataTypeTag::Boolean, strict)
    }

    pub fn new_opt_u8(name: String, obj: &Vec<HostValue>, strict: bool) -> (r: RbResult<Self>)
        ensures
            build_result(r, name@, obj@, DataTypeTag::UInt8, strict),
    {
        new_primitive(name, obj, DataTypeTag::UInt8, strict)
    }

    pub fn new_opt_u16(name: String, obj: &Vec<HostValue>, strict: bool) -> (r: RbResult<Self>)
        ensures
            build_result(r, name@, obj@, DataTypeTag::UInt16, strict),
    {
        new_primitive(name, obj, DataTypeTag::UInt16, strict)
    }

    pub fn new_opt_u32(name: String, obj: &Vec<HostValue>, strict: bool) -> (r: RbResult<Self>)
        ensures
            build_result(r, name@, obj@, DataTypeTag::UInt32, strict),
    {
        new_primitive(name, obj, DataTypeTag::UInt32, strict)
    }

    pub fn new_opt_u64(name: String, obj: &Vec<HostValue>, strict: bool) -> (r: RbResult<Self>)
        ensures
            build_result(r, name@, obj@, DataTypeTag::UInt64, strict),
    {
        new_primitive(name, obj, DataTypeTag::UInt64, strict)
    }

    pub fn new_opt_i8(name: String, obj: &Vec<HostValue>, strict: bool) -> (r: RbResult<Self>)
        ensures
            build_result(r, name@, obj@, DataTypeTag::Int8, strict),
    {
        new_primitive(name, obj, DataTypeTag::Int8, strict)
    }

    pub fn new_opt_i16(name: String, obj: &Vec<HostValue>, strict: bool) -> (r: RbResult<Self>)
        ensures
            build_result(r, name@, obj@, DataTypeTag::Int16, strict),
    {
        new_primitive(name, obj, DataTypeTag::Int16, strict)
    }

    pub fn new_opt_i32(name: String, obj: &Vec<HostValue>, strict: bool) -> (r: RbResult<Self>)
        ensures
            build_result(r, name@, obj@, DataTypeTag::Int32, strict),
    {
        new_primitive(name, obj, DataTypeTag::Int32, strict)
    }

    pub fn new_opt_i64(name: String, obj: &Vec<HostValue>, strict: bool) -> (r: RbResult<Self>)
        ensures
            build_result(r, name@, obj@, DataTypeTag::Int64, strict),
    {
        new_primitive(name, obj, DataTypeTag::Int64, strict)
    }

    pub fn new_opt_f32(name: String, obj: &Vec<HostValue>, strict: bool) -> (r: RbResult<Self>)
        ensures
            build_result(r, name@, obj@, DataTypeTag::Float32, strict),
    {
        new_primitive(name, obj, DataTypeTag::Float32, strict)
    }

    pub fn new_opt_f64(name: String, obj: &Vec<HostValue>, strict: bool) -> (r: RbResult<Self>)
        ensures
            build_result(r, name@, obj@, DataTypeTag::Float64, strict),
    {
        new_primitive(name, obj, DataTypeTag::Float64, strict)
    }

    /// Builds a string series. An element that is neither a string nor nil is
    /// refused whatever `strict` says.
    pub fn new_str(name: String, val: &Vec<HostValue>, strict: bool) -> (r: RbResult<Self>)
        ensures
            build_result(r, name@, val@, DataTypeTag::Utf8, strict),
    {
        new_primitive(name, val, DataTypeTag::Utf8, strict)
    }

    pub fn is_sorted_flag(&self) -> (r: bool)
        ensures
            r == (self.series.sorted == IsSorted::Ascending),
    {
        match self.series.sorted {
            IsSorted::Ascending => true,
            _ => false,
        }
    }

    pub fn is_sorted_reverse_flag(&self) -> (r: bool)
        ensures
            r == (self.series.sorted == IsSorted::Descending),
    {
        match self.series.sorted {
            IsSorted::Descending => true,
            _ => false,
        }
    }

    /// Gathers the column into one chunk, in place or into a new series.
    pub fn rechunk(&mut self, in_place: bool) -> (r: Option<Self>)
        requires
            old(self).wf(),
        ensures
            in_place ==> r is None && final(self).series.chunks@ == seq![old(self).len_spec() as usize]
                && final(self).series.values@ == old(self).series.values@
                && final(self).series.name@ == old(self).series.name@
                && final(self).series.dtype == old(self).series.dtype
                && final(self).series.sorted == old(self).series.sorted,
            !in_place ==> *final(self) == *old(self) && r is Some,
            r matches Some(s) ==> s.wf()
                && s.series.chunks@ == seq![old(self).len_spec() as usize]
                && s.series.values@ == old(self).series.values@
                && s.series.name@ == old(self).series.name@
                && s.series.dtype == old(self).series.dtype
                && s.series.sorted == old(self).series.sorted,
            final(self).wf(),
    {
        let mut chunks: Vec<usize> = Vec::new();
        chunks.push(self.series.values.len());
        proof {
            lemma_chunk_sum_push(Seq::empty(), self.series.values@.len() as usize);
            assert(Seq::<usize>::empty().push(self.series.values@.len() as usize) =~= chunks@);
        }
        if in_place {
            self.series.chunks = chunks;
            None
        } else {
            let mut c = self.series.duplicate();
            c.chunks = chunks;
            Some(RbSeries { series: c })
        }
    }

    pub fn chunk_lengths(&self) -> (r: Vec<usize>)
        ensures
            r@ == self.series.chunks@,
    {
        copy_chunks(&self.series.chunks)
    }

    pub fn name(&self) -> (r: String)
        ensures
            r@ == self.series.name@,
    {
        self.series.name.clone()
    }

    pub fn rename(&mut self, name: String)
        ensures
            final(self).series.name@ == name@,
            final(self).series.dtype == old(self).series.dtype,
            final(self).series.values@ == old(self).series.values@,
            final(self).series.chunks@ == old(self).series.chunks@,
            final(self).series.sorted == old(self).series.sorted,
    {
        self.series.name = name;
    }

    /// The element type's display name.
    pub fn dtype(&self) -> (r: String)
        ensures
            r@ == self.series.dtype.name_spec(),
    {
        self.series.dtype.name()
    }

    /// The element type of a nested type; primitive types have none.
    pub fn inner_dtype(&self) -> (r: Option<String>)
        ensures
            r is None,
    {
        None
    }

    /// A copy flagged as sorted ascending, or descending where `reverse`.
    pub fn set_sorted(&self, reverse: bool) -> (r: Self)
        requires
            self.wf(),
        ensures
            r.wf(),
            r.series.sorted == (if reverse { IsSorted::Descending } else { IsSorted::Ascending }),
            r.series.name@ == self.series.name@,
            r.series.dtype == self.series.dtype,
            r.series.values@ == self.series.values@,
            r.series.chunks@ == self.series.chunks@,
    {
        let mut out = self.series.duplicate();
        if reverse {
            out.sorted = IsSorted::Descending;
        } else {
            out.sorted = IsSorted::Ascending;
        }
        RbSeries { series: out }
    }

    pub fn n_chunks(&self) -> (r: usize)
        ensures
            r == self.series.chunks@.len(),
    {
        self.series.chunks.len()
    }

    pub fn null_count(&self) -> (r: RbResult<usize>)
        ensures
            r == Ok::<usize, RbError>(self.series.null_count_spec() as usize),
    {
        Ok(self.series.null_count())
    }

    /// Whether the series holds a null slot.
    pub fn has_validity(&self) -> (r: bool)
        ensures
            r == (self.series.null_count_spec() > 0),
    {
        self.series.null_count() > 0
    }

    pub fn len(&self) -> (r: usize)
        ensures
            r == self.len_spec(),
    {
        self.series.values.len()
    }

    /// The element at `idx` as a host value, nil for a null slot.
    pub fn get_idx(&self, idx: usize) -> (r: HostValue)
        requires
            idx < self.len_spec(),
        ensures
            r == host_of_slot(self.series.values@[idx as int]),
    {
        match &self.series.values[idx] {
            Some(s) => s.to_host_exec(),
            None => HostValue::Nil,
        }
    }

    /// The series' values as host values, nil for each null slot.
    pub fn to_a(&self) -> (r: Vec<HostValue>)
        ensures
            r@ == materialize_spec(self.series.values@),
    {
        materialize(&self.series)
    }

    pub fn clone(&self) -> (r: Self)
        ensures
            r.series.name@ == self.series.name@,
            r.series.dtype == self.series.dtype,
            r.series.values@ == self.series.values@,
            r.series.chunks@ == self.series.chunks@,
            r.series.sorted == self.series.sorted,
    {
        RbSeries { series: self.series.duplicate() }
    }

    /// The elements in the range that `slice_bounds` selects, in one chunk.
    pub fn slice(&self, offset: i64, length: usize) -> (r: Self)
        requires
            self.wf(),
        ensures
            r.wf(),
            r.series.values@ == self.series.values@.subrange(
                slice_bounds(offset as int, length as int, self.len_spec() as int).0,
                slice_bounds(offset as int, length as int, self.len_spec() as int).1,
            ),
            r.series.name@ == self.series.name@,
            r.series.dtype == self.series.dtype,
            r.series.sorted == self.series.sorted,
    {
        let len = self.series.values.len();
        let s: i128 = if offset < 0 { offset as i128 + len as i128 } else { offset as i128 };
        let e: i128 = s + length as i128;
        let start: usize = if s < 0 { 0 } else if s > len as i128 { len } else { s as usize };
        let stop: usize = if e < 0 { 0 } else if e > len as i128 { len } else { e as usize };
        let values = copy_slots(&self.series.values, start, stop);
        let mut c = Column::from_slots(self.series.name.clone(), self.series.dtype, values);
        c.sorted = self.series.sorted;
        RbSeries { series: c }
    }

    /// A series of `length` copies of the element at `index`.
    pub fn new_from_index(&self, index: usize, length: usize) -> (r: RbResult<Self>)
        requires
            self.wf(),
        ensures
            r is Err <==> index >= self.len_spec(),
            r is Err ==> r == Err::<Self, RbError>(RbError::OutOfBounds),
            r matches Ok(s) ==> s.wf() && s.series.name@ == self.series.name@
                && s.series.dtype == self.series.dtype
                && s.series.values@ == Seq::new(length as nat, |i: int| self.series.values@[index as int]),
    {
        if index >= self.series.values.len() {
            return Err(RbError::OutOfBounds);
        }
        let mut out: Vec<Option<Scalar>> = Vec::with_capacity(length);
        let mut i: usize = 0;
        while i < length
            invariant
                i <= length,
                index < self.series.values@.len(),
                out@ == Seq::new(i as nat, |j: int| self.series.values@[index as int]),
            decreases length - i,
        {
            let s = match &self.series.values[index] {
                Some(x) => Some(x.duplicate()),
                None => None,
            };
            out.push(s);
            i = i + 1;
            assert(out@ =~= Seq::new(i as nat, |j: int| self.series.values@[index as int]));
        }
        Ok(RbSeries { series: Column::from_slots(self.series.name.clone(), self.series.dtype, out) })
    }
}

} // verus!
