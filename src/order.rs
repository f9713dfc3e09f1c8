use vstd::prelude::*;

use crate::compare::{chars_lt, float_is_nan, values_lt};
use crate::column::slots_typed;
use crate::compare::values_lt_exec;
use crate::dtype::DataTypeTag;
use crate::series::RbSeries;
use crate::value::Scalar;

verus! {

/// A value takes part in ordering: it is not a float NaN.
pub open spec fn orderable(a: Scalar) -> bool {
    match a {
        Scalar::Float32(x) => !float_is_nan(x),
        Scalar::Float64(x) => !float_is_nan(x),
        _ => true,
    }
}

pub proof fn lemma_chars_lt_trans(a: Seq<char>, b: Seq<char>, c: Seq<char>)
    requires
        chars_lt(a, b),
        chars_lt(b, c),
    ensures
        chars_lt(a, c),
    decreases a.len(),
{
    if a.len() > 0 && b.len() > 0 && c.len() > 0 && a[0] == b[0] && b[0] == c[0] {
        lemma_chars_lt_trans(a.drop_first(), b.drop_first(), c.drop_first());
    }
}

pub proof fn lemma_chars_lt_total(a: Seq<char>, b: Seq<char>)
    ensures
        chars_lt(a, b) || chars_lt(b, a) || a == b,
    decreases a.len(),
{
    if a.len() == 0 || b.len() == 0 {
        if a.len() == 0 && b.len() == 0 {
            assert(a =~= b);
        }
    } else if a[0] == b[0] {
        lemma_chars_lt_total(a.drop_first(), b.drop_first());
        if a.drop_first() == b.drop_first() {
            assert(a.len() == a.drop_first().len() + 1);
            assert(b.len() == b.drop_first().len() + 1);
            assert forall|i: int| 0 <= i < a.len() implies a[i] == b[i] by {
                if i > 0 {
                    assert(a[i] == a.drop_first()[i - 1]);
                    assert(b[i] == b.drop_first()[i - 1]);
                }
            }
            assert(a =~= b);
        }
    } else {
        assert(a[0] != b[0]);
    }
}

pub proof fn lemma_chars_lt_irrefl(a: Seq<char>)
    ensures
        !chars_lt(a, a),
    decreases a.len(),
{
    if a.len() > 0 {
        lemma_chars_lt_irrefl(a.drop_first());
    }
}

/// The order of values is transitive.
pub proof fn lemma_values_lt_trans(a: Scalar, b: Scalar, c: Scalar)
    requires
        a.tag() == b.tag(),
        b.tag() == c.tag(),
        values_lt(a, b),
        values_lt(b, c),
    ensures
        values_lt(a, c),
{
    if let (Scalar::Utf8(x), Scalar::Utf8(y), Scalar::Utf8(z)) = (a, b, c) {
        lemma_chars_lt_trans(x@, y@, z@);
    }
}

/// Of two orderable values where `c` is not below `b`, what is below `b` is
/// below `c`.
pub proof fn lemma_values_lt_below(a: Scalar, b: Scalar, c: Scalar)
    requires
        a.tag() == b.tag(),
        b.tag() == c.tag(),
        orderable(a),
        orderable(b),
        orderable(c),
        values_lt(a, b),
        !values_lt(c, b),
    ensures
        values_lt(a, c),
{
    if let (Scalar::Utf8(x), Scalar::Utf8(y), Scalar::Utf8(z)) = (a, b, c) {
        lemma_chars_lt_total(y@, z@);
        if y@ == z@ {
        } else {
            lemma_chars_lt_trans(x@, y@, z@);
        }
    }
}

pub proof fn lemma_values_lt_irrefl(a: Scalar)
    ensures
        !values_lt(a, a),
{
    if let Scalar::Utf8(x) = a {
        lemma_chars_lt_irrefl(x@);
    }
}

/// A slot holds a value that takes part in ordering: not null, not NaN.
pub open spec fn ranked(o: Option<Scalar>) -> bool {
    o is Some && orderable(o->0)
}

/// `a` is preferred to `b`: smaller when looking for a minimum, larger when
/// looking for a maximum.
pub open spec fn prefers(max: bool, a: Scalar, b: Scalar) -> bool {
    if max {
        values_lt(b, a)
    } else {
        values_lt(a, b)
    }
}

/// `i` is the first position of a most preferred ranked value of `v`.
pub open spec fn is_arg_best(v: Seq<Option<Scalar>>, i: int, max: bool) -> bool {
    &&& 0 <= i < v.len()
    &&& ranked(v[i])
    &&& forall|k: int| 0 <= k < v.len() && ranked(#[trigger] v[k]) ==> !prefers(max, v[k]->0, v[i]->0)
    &&& forall|k: int| 0 <= k < i && ranked(#[trigger] v[k]) ==> prefers(max, v[i]->0, v[k]->0)
}

/// What `arg_min` (`max` false) or `arg_max` (`max` true) returns: `None`
/// where no slot is ranked, else the first position of a best value.
pub open spec fn arg_best_result(v: Seq<Option<Scalar>>, max: bool, r: Option<usize>) -> bool {
    &&& r is None <==> forall|k: int| 0 <= k < v.len() ==> !ranked(#[trigger] v[k])
    &&& r matches Some(i) ==> is_arg_best(v, i as int, max)
}

pub proof fn lemma_prefers_trans(max: bool, a: Scalar, b: Scalar, c: Scalar)
    requires
        a.tag() == b.tag(),
        b.tag() == c.tag(),
        prefers(max, a, b),
        prefers(max, b, c),
    ensures
        prefers(max, a, c),
{
    if max {
        lemma_values_lt_trans(c, b, a);
    } else {
        lemma_values_lt_trans(a, b, c);
    }
}

pub proof fn lemma_prefers_below(max: bool, a: Scalar, b: Scalar, c: Scalar)
    requires
        a.tag() == b.tag(),
        b.tag() == c.tag(),
        orderable(a),
        orderable(b),
        orderable(c),
        prefers(max, a, b),
        !prefers(max, c, b),
    ensures
        prefers(max, a, c),
{
    if max {
        if let (Scalar::Utf8(x), Scalar::Utf8(y), Scalar::Utf8(z)) = (a, b, c) {
            lemma_chars_lt_total(y@, z@);
            if y@ != z@ {
                lemma_chars_lt_trans(z@, y@, x@);
            }
        }
    } else {
        lemma_values_lt_below(a, b, c);
    }
}

pub(crate) fn orderable_exec(a: &Scalar) -> (r: bool)
    ensures
        r == orderable(*a),
{
    match a {
        Scalar::Float32(x) | Scalar::Float64(x) => (*x & 0x7fff_ffff_ffff_ffffu64) <= 0x7ff0_0000_0000_0000u64,
        _ => true,
    }
}

pub(crate) fn prefers_exec(max: bool, a: &Scalar, b: &Scalar) -> (r: bool)
    requires
        a.tag() == b.tag(),
    ensures
        r == prefers(max, *a, *b),
{
    if max {
        values_lt_exec(b, a)
    } else {
        values_lt_exec(a, b)
    }
}

/// The first position of a most preferred value; nulls and NaNs are skipped.
fn arg_best(v: &Vec<Option<Scalar>>, max: bool) -> (r: Option<usize>)
    requires
        exists|t: DataTypeTag| slots_typed(v@, t),
    ensures
        arg_best_result(v@, max, r),
{
    let ghost t = choose|t: DataTypeTag| slots_typed(v@, t);
    let mut best: Option<usize> = None;
    let mut j: usize = 0;
    while j < v.len()
        invariant
            j <= v@.len(),
            slots_typed(v@, t),
            best is None ==> forall|k: int| 0 <= k < j ==> !ranked(#[trigger] v@[k]),
            best matches Some(b) ==> {
                &&& b < j
                &&& ranked(v@[b as int])
                &&& forall|k: int| 0 <= k < j && ranked(#[trigger] v@[k]) ==> !prefers(max, v@[k]->0, v@[b as int]->0)
                &&& forall|k: int| 0 <= k < b && ranked(#[trigger] v@[k]) ==> prefers(max, v@[b as int]->0, v@[k]->0)
            },
        decreases v@.len() - j,
    {
        if let Some(x) = &v[j] {
            if orderable_exec(x) {
                match best {
                    None => {
                        proof {
                            lemma_values_lt_irrefl(*x);
                        }
                        best = Some(j);
                    },
                    Some(b) => {
                        let y = v[b].as_ref().unwrap();
                        if prefers_exec(max, x, y) {
                            proof {
                                lemma_values_lt_irrefl(*x);
                                assert forall|k: int| 0 <= k <= j && ranked(#[trigger] v@[k]) implies !prefers(max, v@[k]->0, *x) by {
                                    if k < j && prefers(max, v@[k]->0, *x) {
                                        lemma_prefers_trans(max, v@[k]->0, *x, *y);
                                    }
                                }
                                assert forall|k: int| 0 <= k < j && ranked(#[trigger] v@[k]) implies prefers(max, *x, v@[k]->0) by {
                                    lemma_prefers_below(max, *x, *y, v@[k]->0);
                                }
                            }
                            best = Some(j);
                        }
                    },
                }
            }
        }
        j = j + 1;
    }
    best
}

impl RbSeries {
    /// The first position of the smallest value; nulls and NaNs are skipped,
    /// and `None` comes where no value is left.
    pub fn arg_min(&self) -> (r: Option<usize>)
        requires
            self.wf(),
        ensures
            arg_best_result(self.series.values@, false, r),
    {
        arg_best(&self.series.values, false)
    }

    /// The first position of the largest value; nulls and NaNs are skipped,
    /// and `None` comes where no value is left.
    pub fn arg_max(&self) -> (r: Option<usize>)
        requires
            self.wf(),
        ensures
            arg_best_result(self.series.values@, true, r),
    {
        arg_best(&self.series.values, true)
    }
}

} // verus!
