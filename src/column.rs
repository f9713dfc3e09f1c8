use vstd::prelude::*;

use crate::dtype::DataTypeTag;
use crate::value::{HostValue, Scalar};

verus! {

/// The sortedness a column is flagged with.
#[derive(Clone, Copy, PartialEq, Eq, Structural, Debug)]
pub enum IsSorted {
    Ascending,
    Descending,
    Not,
}

/// A named, typed, null-aware column of values.
///
/// `values` holds one slot per element (`None` is a null slot); `chunks` holds
/// the lengths of the memory chunks the values are stored in, which add up to
/// the number of slots.
#[derive(Debug)]
pub struct Column {
    pub name: String,
    pub dtype: DataTypeTag,
    pub values: Vec<Option<Scalar>>,
    pub chunks: Vec<usize>,
    pub sorted: IsSorted,
}

/// Every non-null slot holds a value of type `t`.
pub open spec fn slots_typed(s: Seq<Option<Scalar>>, t: DataTypeTag) -> bool {
    forall|i: int| 0 <= i < s.len() && (#[trigger] s[i]) is Some ==> s[i]->0.tag() == t
}

/// The sum of a sequence of chunk lengths.
pub open spec fn chunk_sum(c: Seq<usize>) -> int
    decreases c.len(),
{
    if c.len() == 0 {
        0
    } else {
        chunk_sum(c.drop_last()) + c.last()
    }
}

/// The number of null slots.
pub open spec fn count_nulls(s: Seq<Option<Scalar>>) -> nat
    decreases s.len(),
{
    if s.len() == 0 {
        0
    } else {
        count_nulls(s.drop_last()) + if s.last() is None { 1nat } else { 0nat }
    }
}

/// The host value a slot reads back as: its value, or nil for a null slot.
pub open spec fn host_of_slot(o: Option<Scalar>) -> HostValue {
    match o {
        Some(s) => s.to_host(),
        None => HostValue::Nil,
    }
}

/// The host sequence a column's slots read back as, in order.
pub open spec fn materialize_spec(s: Seq<Option<Scalar>>) -> Seq<HostValue> {
    s.map_values(|o: Option<Scalar>| host_of_slot(o))
}

/// The number of nil values in a host sequence.
pub open spec fn count_nil(s: Seq<HostValue>) -> nat
    decreases s.len(),
{
    if s.len() == 0 {
        0
    } else {
        count_nil(s.drop_last()) + if s.last() is Nil { 1nat } else { 0nat }
    }
}

pub proof fn lemma_chunk_sum_push(c: Seq<usize>, x: usize)
    ensures
        chunk_sum(c.push(x)) == chunk_sum(c) + x,
{
    assert(c.push(x).drop_last() =~= c);
}

pub proof fn lemma_count_nulls_push(s: Seq<Option<Scalar>>, o: Option<Scalar>)
    ensures
        count_nulls(s.push(o)) == count_nulls(s) + if o is None { 1nat } else { 0nat },
{
    assert(s.push(o).drop_last() =~= s);
}

impl Column {
    /// The column's invariant: its slots match its type and its chunks cover
    /// exactly its slots.
    pub open spec fn wf(&self) -> bool {
        &&& slots_typed(self.values@, self.dtype)
        &&& chunk_sum(self.chunks@) == self.values@.len()
    }

    pub open spec fn len_spec(&self) -> nat {
        self.values@.len()
    }

    pub open spec fn null_count_spec(&self) -> nat {
        count_nulls(self.values@)
    }

    /// A single-chunk column holding the given slots, not flagged as sorted.
    pub fn from_slots(name: String, dtype: DataTypeTag, values: Vec<Option<Scalar>>) -> (r: Column)
        requires
            slots_typed(values@, dtype),
        ensures
            r.wf(),
            r.name@ == name@,
            r.dtype == dtype,
            r.values@ == values@,
            r.chunks@ == seq![values@.len() as usize],
            r.sorted == IsSorted::Not,
    {
        let mut chunks: Vec<usize> = Vec::new();
        chunks.push(values.len());
        proof {
            lemma_chunk_sum_push(Seq::empty(), values@.len() as usize);
            assert(Seq::<usize>::empty().push(values@.len() as usize) =~= chunks@);
        }
        Column { name, dtype, values, chunks, sorted: IsSorted::Not }
    }

    /// Number of slots.
    pub fn len(&self) -> (r: usize)
        ensures
            r == self.len_spec(),
    {
        self.values.len()
    }

    /// Number of null slots.
    pub fn null_count(&self) -> (r: usize)
        ensures
            r == self.null_count_spec(),
    {
        let mut n: usize = 0;
        let mut i: usize = 0;
        while i < self.values.len()
            invariant
                i <= self.values@.len(),
                n == count_nulls(self.values@.subrange(0, i as int)),
                n <= i,
            decreases self.values@.len() - i,
        {
            proof {
                assert(self.values@.subrange(0, i as int + 1) =~= self.values@.subrange(
                    0,
                    i as int,
                ).push(self.values@[i as int]));
                lemma_count_nulls_push(self.values@.subrange(0, i as int), self.values@[i as int]);
            }
            if self.values[i].is_none() {
                n = n + 1;
            }
            i = i + 1;
        }
        assert(self.values@.subrange(0, i as int) =~= self.values@);
        n
    }
}

} // verus!
