use vstd::prelude::*;

use crate::column::{slots_typed, Column};
use crate::dtype::DataTypeTag;
use crate::order::{
    is_arg_best, lemma_prefers_below, lemma_prefers_trans, lemma_values_lt_irrefl, orderable_exec,
    prefers, prefers_exec, ranked,
};
use crate::series::RbSeries;
use crate::value::Scalar;

verus! {

/// The window a cumulative operation reads for position `i`: the elements up
/// to `i`, or (`reverse`) from `i` to the end.
pub open spec fn cum_window(v: Seq<Option<Scalar>>, i: int, reverse: bool) -> Seq<Option<Scalar>> {
    if reverse {
        v.subrange(i, v.len() as int)
    } else {
        v.subrange(0, i + 1)
    }
}

/// `o` is slot `i` of the running maximum (`max`) or minimum of `v`: null
/// where `v` is null, else the first best value of its window, nulls and
/// NaNs skipped (a NaN with nothing else in its window stays itself).
pub open spec fn cum_slot(v: Seq<Option<Scalar>>, i: int, max: bool, reverse: bool, o: Option<Scalar>) -> bool {
    let w = cum_window(v, i, reverse);
    if v[i] is None {
        o is None
    } else if exists|k: int| 0 <= k < w.len() && ranked(#[trigger] w[k]) {
        exists|k: int| is_arg_best(w, k, max) && o == w[k]
    } else {
        o == v[i]
    }
}

fn copy_slot(o: &Option<Scalar>) -> (r: Option<Scalar>)
    ensures
        r == *o,
{
    match o {
        Some(x) => Some(x.duplicate()),
        None => None,
    }
}

fn cum_forward(v: &Vec<Option<Scalar>>, max: bool, t: DataTypeTag) -> (r: Vec<Option<Scalar>>)
    requires
        slots_typed(v@, t),
    ensures
        r@.len() == v@.len(),
        forall|i: int| 0 <= i < v@.len() ==> cum_slot(v@, i, max, false, #[trigger] r@[i]),
        slots_typed(r@, t),
{
    let mut out: Vec<Option<Scalar>> = Vec::with_capacity(v.len());
    let mut best: Option<usize> = None;
    let mut j: usize = 0;
    while j < v.len()
        invariant
            j <= v@.len(),
            out@.len() == j,
            slots_typed(v@, t),
            slots_typed(out@, t),
            forall|i: int| 0 <= i < j ==> cum_slot(v@, i, max, false, #[trigger] out@[i]),
            best is None ==> forall|k: int| 0 <= k < j ==> !ranked(#[trigger] v@[k]),
            best matches Some(b) ==> {
                &&& b < j
                &&& ranked(v@[b as int])
                &&& forall|k: int| 0 <= k < j && ranked(#[trigger] v@[k]) ==> !prefers(max, v@[k]->0, v@[b as int]->0)
                &&& forall|k: int| 0 <= k < b && ranked(#[trigger] v@[k]) ==> prefers(max, v@[b as int]->0, v@[k]->0)
            },
        decreases v@.len() - j,
    {
        if let Some(x) = &v[j] {
            if orderable_exec(x) {
                match best {
                    None => {
                        proof {
                            lemma_values_lt_irrefl(*x);
                        }
                        best = Some(j);
                    },
                    Some(b) => {
                        let y = v[b].as_ref().unwrap();
                        if prefers_exec(max, x, y) {
                            proof {
                                lemma_values_lt_irrefl(*x);
                                assert forall|k: int| 0 <= k <= j && ranked(#[trigger] v@[k]) implies !prefers(max, v@[k]->0, *x) by {
                                    if k < j && prefers(max, v@[k]->0, *x) {
                                        lemma_prefers_trans(max, v@[k]->0, *x, *y);
                                    }
                                }
                                assert forall|k: int| 0 <= k < j && ranked(#[trigger] v@[k]) implies prefers(max, *x, v@[k]->0) by {
                                    lemma_prefers_below(max, *x, *y, v@[k]->0);
                                }
                            }
                            best = Some(j);
                        }
                    },
                }
            }
        }
        let ghost w = v@.subrange(0, j + 1);
        let slot = match &v[j] {
            None => None,
            Some(_) => match best {
                Some(b) => copy_slot(&v[b]),
                None => copy_slot(&v[j]),
            },
        };
        proof {
            if v@[j as int] is Some {
                if let Some(b) = best {
                    assert(w[b as int] == v@[b as int]);
                    assert(ranked(w[b as int]));
                    assert forall|k: int| 0 <= k < w.len() && ranked(#[trigger] w[k]) implies !prefers(max, w[k]->0, w[b as int]->0) by {
                        assert(w[k] == v@[k]);
                    }
                    assert forall|k: int| 0 <= k < b && ranked(#[trigger] w[k]) implies prefers(max, w[b as int]->0, w[k]->0) by {
                        assert(w[k] == v@[k]);
                    }
                    assert(is_arg_best(w, b as int, max));
                    assert(slot == w[b as int]);
                    assert(w == cum_window(v@, j as int, false));
                    assert(cum_slot(v@, j as int, max, false, slot));
                } else {
                    assert forall|k: int| 0 <= k < w.len() implies !ranked(#[trigger] w[k]) by {
                        assert(w[k] == v@[k]);
                    }
                    assert(w == cum_window(v@, j as int, false));
                    assert(cum_slot(v@, j as int, max, false, slot));
                }
            }
        }
        assert(cum_slot(v@, j as int, max, false, slot));
        let ghost old_out = out@;
        out.push(slot);
        proof {
            assert forall|i: int| 0 <= i <= j implies cum_slot(v@, i, max, false, #[trigger] out@[i]) by {
                if i < j {
                    assert(out@[i] == old_out[i]);
                }
            }
        }
        j = j + 1;
    }
    out
}

fn cum_backward(v: &Vec<Option<Scalar>>, max: bool, t: DataTypeTag) -> (r: Vec<Option<Scalar>>)
    requires
        slots_typed(v@, t),
    ensures
        r@.len() == v@.len(),
        forall|i: int| 0 <= i < v@.len() ==> cum_slot(v@, i, max, true, #[trigger] r@[i]),
        slots_typed(r@, t),
{
    let n = v.len();
    let mut out: Vec<Option<Scalar>> = Vec::with_capacity(n);
    let mut z: usize = 0;
    while z < n
        invariant
            z <= n,
            out@.len() == z,
            forall|i: int| 0 <= i < z ==> (#[trigger] out@[i]) is None,
        decreases n - z,
    {
        out.push(None);
        z = z + 1;
    }
    let mut best: Option<usize> = None;
    let mut j: usize = n;
    while j > 0
        invariant
            j <= n,
            n == v@.len(),
            out@.len() == n,
            slots_typed(v@, t),
            forall|i: int| 0 <= i < j ==> (#[trigger] out@[i]) is None,
            forall|i: int| j <= i < n ==> cum_slot(v@, i, max, true, #[trigger] out@[i]),
            forall|i: int| j <= i < n && (#[trigger] out@[i]) is Some ==> out@[i]->0.tag() == t,
            best is None ==> forall|k: int| j <= k < n ==> !ranked(#[trigger] v@[k]),
            best matches Some(b) ==> {
                &&& j <= b < n
                &&& ranked(v@[b as int])
                &&& forall|k: int| j <= k < n && ranked(#[trigger] v@[k]) ==> !prefers(max, v@[k]->0, v@[b as int]->0)
                &&& forall|k: int| j <= k < b && ranked(#[trigger] v@[k]) ==> prefers(max, v@[b as int]->0, v@[k]->0)
            },
        decreases j,
    {
        let i = j - 1;
        if let Some(x) = &v[i] {
            if orderable_exec(x) {
                match best {
                    None => {
                        proof {
                            lemma_values_lt_irrefl(*x);
                        }
                        best = Some(i);
                    },
                    Some(b) => {
                        let y = v[b].as_ref().unwrap();
                        if !prefers_exec(max, y, x) {
                            proof {
                                lemma_values_lt_irrefl(*x);
                                assert forall|k: int| i <= k < n && ranked(#[trigger] v@[k]) implies !prefers(max, v@[k]->0, *x) by {
                                    if k > i && prefers(max, v@[k]->0, *x) {
                                        lemma_prefers_below(max, v@[k]->0, *x, *y);
                                    }
                                }
                            }
                            best = Some(i);
                        } else {
                            proof {
                                if prefers(max, *x, *y) {
                                    lemma_prefers_trans(max, *x, *y, *x);
                                    lemma_values_lt_irrefl(*x);
                                }
                            }
                        }
                    },
                }
            }
        }
        let ghost w = v@.subrange(i as int, n as int);
        let slot = match &v[i] {
            None => None,
            Some(_) => match best {
                Some(b) => copy_slot(&v[b]),
                None => copy_slot(&v[i]),
            },
        };
        proof {
            if v@[i as int] is Some {
                if let Some(b) = best {
                    let kb = b - i;
                    assert(w[kb] == v@[b as int]);
                    assert forall|k: int| 0 <= k < w.len() && ranked(#[trigger] w[k]) implies !prefers(max, w[k]->0, w[kb]->0) by {
                        assert(w[k] == v@[i + k]);
                    }
                    assert forall|k: int| 0 <= k < kb && ranked(#[trigger] w[k]) implies prefers(max, w[kb]->0, w[k]->0) by {
                        assert(w[k] == v@[i + k]);
                    }
                    assert(is_arg_best(w, kb, max));
                } else {
                    assert forall|k: int| 0 <= k < w.len() implies !ranked(#[trigger] w[k]) by {
                        assert(w[k] == v@[i + k]);
                    }
                }
            }
        }
        out.set(i, slot);
        j = i;
    }
    out
}

impl RbSeries {
    /// The running maximum (`max`) or minimum, from the start or (`reverse`)
    /// from the end, as `cum_slot` states it.
    pub fn cumulative_best(&self, max: bool, reverse: bool) -> (r: Self)
        requires
            self.wf(),
        ensures
            r.wf(),
            r.series.name@ == self.series.name@,
            r.series.dtype == self.series.dtype,
            r.series.values@.len() == self.series.values@.len(),
            forall|i: int| 0 <= i < self.series.values@.len() ==> cum_slot(
                self.series.values@,
                i,
                max,
                reverse,
                #[trigger] r.series.values@[i],
            ),
    {
        let values = if reverse {
            cum_backward(&self.series.values, max, self.series.dtype)
        } else {
            cum_forward(&self.series.values, max, self.series.dtype)
        };
        RbSeries { series: Column::from_slots(self.series.name.clone(), self.series.dtype, values) }
    }

    /// The running maximum, from the start or (`reverse`) from the end.
    pub fn cummax(&self, reverse: bool) -> (r: Self)
        requires
            self.wf(),
        ensures
            r.wf(),
            r.series.name@ == self.series.name@,
            r.series.dtype == self.series.dtype,
            r.series.values@.len() == self.series.values@.len(),
            forall|i: int| 0 <= i < self.series.values@.len() ==> cum_slot(
                self.series.values@,
                i,
                true,
                reverse,
                #[trigger] r.series.values@[i],
            ),
    {
        self.cumulative_best(true, reverse)
    }

    /// The running minimum, from the start or (`reverse`) from the end.
    pub fn cummin(&self, reverse: bool) -> (r: Self)
        requires
            self.wf(),
        ensures
            r.wf(),
            r.series.name@ == self.series.name@,
            r.series.dtype == self.series.dtype,
            r.series.values@.len() == self.series.values@.len(),
            forall|i: int| 0 <= i < self.series.values@.len() ==> cum_slot(
                self.series.values@,
                i,
                false,
                reverse,
                #[trigger] r.series.values@[i],
            ),
    {
        self.cumulative_best(false, reverse)
    }
}

} // verus!
