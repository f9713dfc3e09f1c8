use vstd::prelude::*;

use crate::column::{chunk_sum, lemma_chunk_sum_push, slots_typed, Column, IsSorted};
use crate::dtype::DataTypeTag;
use crate::series::{RbError, RbResult, RbSeries};
use crate::value::Scalar;

verus! {

pub proof fn lemma_chunk_sum_concat(a: Seq<usize>, b: Seq<usize>)
    ensures
        chunk_sum(a + b) == chunk_sum(a) + chunk_sum(b),
    decreases b.len(),
{
    if b.len() == 0 {
        assert(a + b =~= a);
    } else {
        lemma_chunk_sum_concat(a, b.drop_last());
        assert((a + b).drop_last() =~= a + b.drop_last());
    }
}

/// The slots of `v` whose mask slot is `true`, in order; a null mask slot
/// drops its element.
pub open spec fn filter_spec(v: Seq<Option<Scalar>>, m: Seq<Option<Scalar>>) -> Seq<Option<Scalar>>
    decreases v.len(),
{
    if v.len() == 0 || m.len() == 0 {
        seq![]
    } else {
        let rest = filter_spec(v.drop_last(), m.drop_last());
        if m.last() == Some(Scalar::Boolean(true)) {
            rest.push(v.last())
        } else {
            rest
        }
    }
}

/// The slot that index slot `o` selects from `v`: null for a null index.
pub open spec fn take_slot(v: Seq<Option<Scalar>>, o: Option<Scalar>) -> Option<Scalar> {
    match o {
        Some(Scalar::UInt32(k)) => v[k as int],
        _ => None,
    }
}

/// The index slot is non-null and not below `len`.
pub open spec fn index_out(len: nat, o: Option<Scalar>) -> bool {
    match o {
        Some(Scalar::UInt32(k)) => k >= len,
        _ => false,
    }
}

/// Some non-null index lies outside a series of `len` elements.
pub open spec fn take_out_of_bounds(len: nat, idx: Seq<Option<Scalar>>) -> bool {
    exists|i: int| 0 <= i < idx.len() && index_out(len, #[trigger] idx[i])
}

/// Negates a boolean slot; null stays null.
pub open spec fn not_slot(o: Option<Scalar>) -> Option<Scalar> {
    match o {
        Some(Scalar::Boolean(b)) => Some(Scalar::Boolean(!b)),
        _ => None,
    }
}

/// Appends copies of `src`'s slots to `dst`.
fn push_slots(dst: &mut Vec<Option<Scalar>>, src: &Vec<Option<Scalar>>)
    ensures
        final(dst)@ == old(dst)@ + src@,
{
    let mut i: usize = 0;
    while i < src.len()
        invariant
            i <= src@.len(),
            dst@ == old(dst)@ + src@.subrange(0, i as int),
        decreases src@.len() - i,
    {
        let s = match &src[i] {
            Some(x) => Some(x.duplicate()),
            None => None,
        };
        dst.push(s);
        i = i + 1;
        assert(dst@ =~= old(dst)@ + src@.subrange(0, i as int));
    }
    assert(src@.subrange(0, i as int) =~= src@);
}

impl RbSeries {
    /// Appends `other`'s values to this series' memory, leaving one chunk.
    /// Series of different element types are refused, and this one is left
    /// as it was.
    pub fn extend(&mut self, other: &RbSeries) -> (r: RbResult<()>)
        requires
            old(self).wf(),
            other.wf(),
            old(self).len_spec() + other.len_spec() <= usize::MAX,
        ensures
            final(self).wf(),
            r is Err <==> old(self).series.dtype != other.series.dtype,
            r is Err ==> r == Err::<(), RbError>(RbError::SchemaMismatch) && *final(self) == *old(self),
            r is Ok ==> final(self).series.values@ == old(self).series.values@ + other.series.values@
                && final(self).series.chunks@ == seq![(old(self).len_spec() + other.len_spec()) as usize]
                && final(self).series.name@ == old(self).series.name@
                && final(self).series.dtype == old(self).series.dtype
                && final(self).series.sorted == IsSorted::Not,
    {
        if self.series.dtype != other.series.dtype {
            return Err(RbError::SchemaMismatch);
        }
        push_slots(&mut self.series.values, &other.series.values);
        let mut chunks: Vec<usize> = Vec::new();
        chunks.push(self.series.values.len());
        proof {
            lemma_chunk_sum_push(Seq::empty(), self.series.values@.len() as usize);
            assert(Seq::<usize>::empty().push(self.series.values@.len() as usize) =~= chunks@);
            let v = self.series.values@;
            assert forall|i: int| 0 <= i < v.len() && (#[trigger] v[i]) is Some implies v[i]->0.tag()
                == self.series.dtype by {
                if i >= old(self).len_spec() {
                    assert(v[i] == other.series.values@[i - old(self).len_spec()]);
                }
            }
        }
        self.series.chunks = chunks;
        self.series.sorted = IsSorted::Not;
        Ok(())
    }

    /// Appends `other`'s values as further chunks. Series of different
    /// element types are refused, and this one is left as it was.
    pub fn append(&mut self, other: &RbSeries) -> (r: RbResult<()>)
        requires
            old(self).wf(),
            other.wf(),
            old(self).len_spec() + other.len_spec() <= usize::MAX,
        ensures
            final(self).wf(),
            r is Err <==> old(self).series.dtype != other.series.dtype,
            r is Err ==> r == Err::<(), RbError>(RbError::SchemaMismatch) && *final(self) == *old(self),
            r is Ok ==> final(self).series.values@ == old(self).series.values@ + other.series.values@
                && final(self).series.chunks@ == old(self).series.chunks@ + other.series.chunks@
                && final(self).series.name@ == old(self).series.name@
                && final(self).series.dtype == old(self).series.dtype
                && final(self).series.sorted == IsSorted::Not,
    {
        if self.series.dtype != other.series.dtype {
            return Err(RbError::SchemaMismatch);
        }
        push_slots(&mut self.series.values, &other.series.values);
        let mut i: usize = 0;
        while i < other.series.chunks.len()
            invariant
                i <= other.series.chunks@.len(),
                self.series.values@ == old(self).series.values@ + other.series.values@,
                self.series.dtype == old(self).series.dtype,
                self.series.name == old(self).series.name,
                self.series.chunks@ == old(self).series.chunks@ + other.series.chunks@.subrange(0, i as int),
            decreases other.series.chunks@.len() - i,
        {
            self.series.chunks.push(other.series.chunks[i]);
            i = i + 1;
            assert(self.series.chunks@ =~= old(self).series.chunks@ + other.series.chunks@.subrange(0, i as int));
        }
        assert(other.series.chunks@.subrange(0, i as int) =~= other.series.chunks@);
        proof {
            lemma_chunk_sum_concat(old(self).series.chunks@, other.series.chunks@);
            let v = self.series.values@;
            assert forall|i: int| 0 <= i < v.len() && (#[trigger] v[i]) is Some implies v[i]->0.tag()
                == self.series.dtype by {
                if i >= old(self).len_spec() {
                    assert(v[i] == other.series.values@[i - old(self).len_spec()]);
                }
            }
        }
        self.series.sorted = IsSorted::Not;
        Ok(())
    }
}

impl RbSeries {
    /// The elements whose mask slot is `true`. A mask that is not boolean is
    /// refused.
    pub fn filter(&self, filter: &RbSeries) -> (r: RbResult<Self>)
        requires
            self.wf(),
            filter.wf(),
            filter.series.dtype == DataTypeTag::Boolean ==> filter.len_spec() == self.len_spec(),
        ensures
            r is Err <==> filter.series.dtype != DataTypeTag::Boolean,
            r is Err ==> r == Err::<Self, RbError>(RbError::InvalidOperation),
            r matches Ok(s) ==> s.wf() && s.series.values@ == filter_spec(
                self.series.values@,
                filter.series.values@,
            ) && s.series.name@ == self.series.name@ && s.series.dtype == self.series.dtype,
    {
        if filter.series.dtype != DataTypeTag::Boolean {
            return Err(RbError::InvalidOperation);
        }
        let v = &self.series.values;
        let m = &filter.series.values;
        let mut out: Vec<Option<Scalar>> = Vec::new();
        let mut i: usize = 0;
        while i < v.len()
            invariant
                i <= v@.len(),
                v@.len() == m@.len(),
                out@ == filter_spec(v@.subrange(0, i as int), m@.subrange(0, i as int)),
                slots_typed(out@, self.series.dtype),
                slots_typed(v@, self.series.dtype),
            decreases v@.len() - i,
        {
            let keep = match &m[i] {
                Some(Scalar::Boolean(b)) => *b,
                _ => false,
            };
            proof {
                assert(v@.subrange(0, i + 1).drop_last() =~= v@.subrange(0, i as int));
                assert(m@.subrange(0, i + 1).drop_last() =~= m@.subrange(0, i as int));
            }
            if keep {
                let s = match &v[i] {
                    Some(x) => Some(x.duplicate()),
                    None => None,
                };
                out.push(s);
            }
            i = i + 1;
        }
        assert(v@.subrange(0, i as int) =~= v@);
        assert(m@.subrange(0, i as int) =~= m@);
        Ok(RbSeries { series: Column::from_slots(self.series.name.clone(), self.series.dtype, out) })
    }

    /// Gathers the elements at the given indices; a null index gives a null
    /// slot. The indices must be a `u32` series and lie inside this one.
    pub fn take_with_series(&self, indices: &RbSeries) -> (r: RbResult<Self>)
        requires
            self.wf(),
            indices.wf(),
        ensures
            indices.series.dtype != DataTypeTag::UInt32 ==> r == Err::<Self, RbError>(
                RbError::SchemaMismatch,
            ),
            indices.series.dtype == DataTypeTag::UInt32 ==> (r is Err <==> take_out_of_bounds(
                self.len_spec(),
                indices.series.values@,
            )),
            indices.series.dtype == DataTypeTag::UInt32 && r is Err ==> r == Err::<Self, RbError>(
                RbError::OutOfBounds,
            ),
            r matches Ok(s) ==> s.wf() && s.series.values@ == indices.series.values@.map_values(
                |o: Option<Scalar>| take_slot(self.series.values@, o),
            ) && s.series.name@ == self.series.name@ && s.series.dtype == self.series.dtype,
    {
        if indices.series.dtype != DataTypeTag::UInt32 {
            return Err(RbError::SchemaMismatch);
        }
        let v = &self.series.values;
        let idx = &indices.series.values;
        let mut out: Vec<Option<Scalar>> = Vec::with_capacity(idx.len());
        let mut i: usize = 0;
        while i < idx.len()
            invariant
                i <= idx@.len(),
                indices.series.dtype == DataTypeTag::UInt32,
                v@ == self.series.values@,
                idx@ == indices.series.values@,
                slots_typed(idx@, DataTypeTag::UInt32),
                slots_typed(v@, self.series.dtype),
                out@ == idx@.subrange(0, i as int).map_values(|o: Option<Scalar>| take_slot(v@, o)),
                forall|j: int| 0 <= j < i ==> !index_out(v@.len(), #[trigger] idx@[j]),
                slots_typed(out@, self.series.dtype),
            decreases idx@.len() - i,
        {
            let s = match &idx[i] {
                Some(Scalar::UInt32(k)) => {
                    let k = *k as usize;
                    if k >= v.len() {
                        assert(index_out(v@.len(), idx@[i as int]));
                        assert(take_out_of_bounds(self.len_spec(), indices.series.values@));
                        return Err(RbError::OutOfBounds);
                    }
                    match &v[k] {
                        Some(x) => Some(x.duplicate()),
                        None => None,
                    }
                },
                _ => None,
            };
            out.push(s);
            i = i + 1;
            assert(out@ =~= idx@.subrange(0, i as int).map_values(|o: Option<Scalar>| take_slot(v@, o)));
        }
        assert(idx@.subrange(0, i as int) =~= idx@);
        Ok(RbSeries { series: Column::from_slots(self.series.name.clone(), self.series.dtype, out) })
    }

    /// Negates a boolean series; nulls stay null.
    pub fn not(&self) -> (r: RbResult<Self>)
        requires
            self.wf(),
        ensures
            r is Err <==> self.series.dtype != DataTypeTag::Boolean,
            r is Err ==> r == Err::<Self, RbError>(RbError::SchemaMismatch),
            r matches Ok(s) ==> s.wf() && s.series.values@ == self.series.values@.map_values(
                |o: Option<Scalar>| not_slot(o),
            ) && s.series.name@ == self.series.name@ && s.series.dtype == DataTypeTag::Boolean,
    {
        if self.series.dtype != DataTypeTag::Boolean {
            return Err(RbError::SchemaMismatch);
        }
        let v = &self.series.values;
        let mut out: Vec<Option<Scalar>> = Vec::with_capacity(v.len());
        let mut i: usize = 0;
        while i < v.len()
            invariant
                i <= v@.len(),
                out@ == v@.subrange(0, i as int).map_values(|o: Option<Scalar>| not_slot(o)),
                slots_typed(out@, DataTypeTag::Boolean),
            decreases v@.len() - i,
        {
            let s = match &v[i] {
                Some(Scalar::Boolean(b)) => Some(Scalar::Boolean(!*b)),
                _ => None,
            };
            out.push(s);
            i = i + 1;
            assert(out@ =~= v@.subrange(0, i as int).map_values(|o: Option<Scalar>| not_slot(o)));
        }
        assert(v@.subrange(0, i as int) =~= v@);
        Ok(RbSeries { series: Column::from_slots(self.series.name.clone(), DataTypeTag::Boolean, out) })
    }
}

} // verus!
