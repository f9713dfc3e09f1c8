use vstd::prelude::*;

use crate::series::{RbError, RbResult, RbSeries};
use crate::value::Scalar;

verus! {

/// The slots of all series, one after the other.
pub open spec fn concat_values(s: Seq<RbSeries>) -> Seq<Option<Scalar>>
    decreases s.len(),
{
    if s.len() == 0 {
        seq![]
    } else {
        concat_values(s.drop_last()) + s.last().series.values@
    }
}

/// The combined length of all series.
pub open spec fn total_len(s: Seq<RbSeries>) -> int
    decreases s.len(),
{
    if s.len() == 0 {
        0
    } else {
        total_len(s.drop_last()) + s.last().len_spec()
    }
}

/// All series share the first one's element type.
pub open spec fn same_dtype(s: Seq<RbSeries>) -> bool {
    forall|i: int| 0 <= i < s.len() ==> (#[trigger] s[i]).series.dtype == s[0].series.dtype
}

proof fn lemma_total_len_prefix(s: Seq<RbSeries>, i: int)
    requires
        0 <= i <= s.len(),
    ensures
        0 <= total_len(s.subrange(0, i)) <= total_len(s),
        concat_values(s.subrange(0, i)).len() == total_len(s.subrange(0, i)),
    decreases s.len() - i,
{
    if i < s.len() {
        lemma_total_len_prefix(s, i + 1);
        assert(s.subrange(0, i + 1).drop_last() =~= s.subrange(0, i));
    } else {
        assert(s.subrange(0, i) =~= s);
        lemma_total_len_nonneg(s);
    }
}

proof fn lemma_total_len_nonneg(s: Seq<RbSeries>)
    ensures
        0 <= total_len(s),
        concat_values(s).len() == total_len(s),
    decreases s.len(),
{
    if s.len() > 0 {
        lemma_total_len_nonneg(s.drop_last());
    }
}

/// Concatenates series of one element type into a series named as the first,
/// whose chunks are those of all of them. A series of another element type
/// is refused.
pub fn concat_series(seq: &Vec<RbSeries>) -> (r: RbResult<RbSeries>)
    requires
        seq@.len() > 0,
        forall|i: int| 0 <= i < seq@.len() ==> (#[trigger] seq@[i]).wf(),
        total_len(seq@) <= usize::MAX,
    ensures
        r is Err <==> !same_dtype(seq@),
        r is Err ==> r == Err::<RbSeries, RbError>(RbError::SchemaMismatch),
        r matches Ok(s) ==> s.wf() && s.series.values@ == concat_values(seq@) && s.series.name@
            == seq@[0].series.name@ && s.series.dtype == seq@[0].series.dtype,
{
    let mut acc = seq[0].clone();
    proof {
        assert(seq@.subrange(0, 1).drop_last() =~= Seq::<RbSeries>::empty());
        lemma_chunk_wf_clone(seq@[0], acc);
        assert(concat_values(Seq::<RbSeries>::empty()) =~= Seq::<Option<Scalar>>::empty());
        assert(concat_values(seq@.subrange(0, 1)) =~= seq@[0].series.values@);
    }
    let mut i: usize = 1;
    while i < seq.len()
        invariant
            1 <= i <= seq@.len(),
            forall|k: int| 0 <= k < seq@.len() ==> (#[trigger] seq@[k]).wf(),
            total_len(seq@) <= usize::MAX,
            acc.wf(),
            acc.series.values@ == concat_values(seq@.subrange(0, i as int)),
            acc.series.name@ == seq@[0].series.name@,
            acc.series.dtype == seq@[0].series.dtype,
            forall|k: int| 0 <= k < i ==> (#[trigger] seq@[k]).series.dtype == seq@[0].series.dtype,
        decreases seq@.len() - i,
    {
        proof {
            lemma_total_len_prefix(seq@, i + 1);
            assert(seq@.subrange(0, i + 1).drop_last() =~= seq@.subrange(0, i as int));
        }
        let res = acc.append(&seq[i]);
        if res.is_err() {
            assert(!same_dtype(seq@));
            return Err(RbError::SchemaMismatch);
        }
        i = i + 1;
    }
    assert(seq@.subrange(0, i as int) =~= seq@);
    Ok(acc)
}

proof fn lemma_chunk_wf_clone(a: RbSeries, b: RbSeries)
    requires
        a.wf(),
        b.series.dtype == a.series.dtype,
        b.series.values@ == a.series.values@,
        b.series.chunks@ == a.series.chunks@,
    ensures
        b.wf(),
{
}

} // verus!
