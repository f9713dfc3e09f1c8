use vstd::prelude::*;

use crate::column::{slots_typed, Column, IsSorted};
use crate::order::{
    lemma_prefers_trans, lemma_values_lt_irrefl, orderable, orderable_exec, prefers, prefers_exec,
};
use crate::dtype::DataTypeTag;
use crate::series::RbSeries;
use crate::value::Scalar;

verus! {

broadcast use vstd::seq_lib::group_to_multiset_ensures;

/// Slot `a` goes strictly before slot `b` in a sort, ascending or (`desc`)
/// descending: nulls come first, and a NaN counts as larger than every other
/// float.
pub open spec fn sorts_before(desc: bool, a: Option<Scalar>, b: Option<Scalar>) -> bool {
    match (a, b) {
        (None, Some(_)) => true,
        (Some(x), Some(y)) => if !orderable(x) {
            desc && orderable(y)
        } else if !orderable(y) {
            !desc
        } else {
            prefers(desc, x, y)
        },
        _ => false,
    }
}

/// No slot goes before an earlier one.
pub open spec fn sorted_by(desc: bool, s: Seq<Option<Scalar>>) -> bool {
    forall|i: int, j: int| 0 <= i < j < s.len() ==> !sorts_before(desc, #[trigger] s[j], #[trigger] s[i])
}

proof fn lemma_sorts_before_trans(desc: bool, a: Option<Scalar>, b: Option<Scalar>, c: Option<Scalar>)
    requires
        a is Some && b is Some ==> a->0.tag() == b->0.tag(),
        b is Some && c is Some ==> b->0.tag() == c->0.tag(),
        sorts_before(desc, a, b),
        sorts_before(desc, b, c),
    ensures
        sorts_before(desc, a, c),
{
    if let (Some(x), Some(y), Some(z)) = (a, b, c) {
        if orderable(x) && orderable(y) && orderable(z) {
            lemma_prefers_trans(desc, x, y, z);
        }
    }
}

proof fn lemma_sorts_before_irrefl(desc: bool, a: Option<Scalar>)
    ensures
        !sorts_before(desc, a, a),
{
    if let Some(x) = a {
        lemma_values_lt_irrefl(x);
    }
}

fn sorts_before_exec(desc: bool, a: &Option<Scalar>, b: &Option<Scalar>) -> (r: bool)
    requires
        a is Some && b is Some ==> a->0.tag() == b->0.tag(),
    ensures
        r == sorts_before(desc, *a, *b),
{
    match (a, b) {
        (None, Some(_)) => true,
        (Some(x), Some(y)) => {
            let ox = orderable_exec(x);
            let oy = orderable_exec(y);
            if !ox {
                desc && oy
            } else if !oy {
                !desc
            } else {
                prefers_exec(desc, x, y)
            }
        },
        _ => false,
    }
}

fn copy_slot(o: &Option<Scalar>) -> (r: Option<Scalar>)
    ensures
        r == *o,
{
    match o {
        Some(x) => Some(x.duplicate()),
        None => None,
    }
}

/// The slots in sorted order, by insertion.
fn sort_slots(v: &Vec<Option<Scalar>>, desc: bool, t: DataTypeTag) -> (r: Vec<Option<Scalar>>)
    requires
        slots_typed(v@, t),
    ensures
        sorted_by(desc, r@),
        r@.to_multiset() == v@.to_multiset(),
        slots_typed(r@, t),
{
    let mut out: Vec<Option<Scalar>> = Vec::with_capacity(v.len());
    let mut i: usize = 0;
    while i < v.len()
        invariant
            i <= v@.len(),
            slots_typed(v@, t),
            slots_typed(out@, t),
            sorted_by(desc, out@),
            out@.to_multiset() == v@.subrange(0, i as int).to_multiset(),
            out@.len() == i,
        decreases v@.len() - i,
    {
        let x = copy_slot(&v[i]);
        let mut p: usize = 0;
        let mut done = false;
        while !done && p < out.len()
            invariant
                p <= out@.len(),
                x == v@[i as int],
                i < v@.len(),
                slots_typed(v@, t),
                slots_typed(out@, t),
                forall|k: int| 0 <= k < p ==> !sorts_before(desc, x, #[trigger] out@[k]),
                done ==> p < out@.len() && sorts_before(desc, x, out@[p as int]),
            decreases out@.len() - p + (if done { 0int } else { 1int }),
        {
            if sorts_before_exec(desc, &x, &out[p]) {
                done = true;
            } else {
                p = p + 1;
            }
        }
        let ghost s = out@;
        out.insert(p, x);
        proof {
            let s2 = out@;
            assert forall|a: int, b: int| 0 <= a < b < s2.len() implies !sorts_before(
                desc,
                #[trigger] s2[b],
                #[trigger] s2[a],
            ) by {
                if a < p && b == p {
                } else if a == p && b > p {
                    if sorts_before(desc, s[b - 1], x) {
                        lemma_sorts_before_trans(desc, s[b - 1], x, s[p as int]);
                        if b - 1 == p {
                            lemma_sorts_before_irrefl(desc, s[p as int]);
                        }
                    }
                } else if a < p && b > p {
                    assert(s2[a] == s[a] && s2[b] == s[b - 1]);
                } else if a > p {
                    assert(s2[a] == s[a - 1] && s2[b] == s[b - 1]);
                }
            }
            assert(v@.subrange(0, i + 1) =~= v@.subrange(0, i as int).push(v@[i as int]));
        }
        i = i + 1;
    }
    assert(v@.subrange(0, i as int) =~= v@);
    out
}

impl RbSeries {
    /// The values sorted ascending, or descending where `reverse`; nulls come
    /// first, NaNs count as the largest floats. The result is flagged sorted.
    pub fn sort(&self, reverse: bool) -> (r: Self)
        requires
            self.wf(),
        ensures
            r.wf(),
            sorted_by(reverse, r.series.values@),
            r.series.values@.to_multiset() == self.series.values@.to_multiset(),
            r.series.name@ == self.series.name@,
            r.series.dtype == self.series.dtype,
            r.series.sorted == (if reverse { IsSorted::Descending } else { IsSorted::Ascending }),
    {
        let values = sort_slots(&self.series.values, reverse, self.series.dtype);
        let mut c = Column::from_slots(self.series.name.clone(), self.series.dtype, values);
        c.sorted = if reverse { IsSorted::Descending } else { IsSorted::Ascending };
        RbSeries { series: c }
    }
}

} // verus!
