use vstd::prelude::*;

use crate::builder::{any_fails, build_fails, build_slots, fails};
use crate::column::{count_nil, count_nulls, host_of_slot, materialize_spec, Column};
use crate::dtype::DataTypeTag;
use crate::value::{convert, HostValue, Scalar};

verus! {

/// A nil element always becomes a null slot, in strict and lenient mode alike.
pub proof fn lemma_nil_gives_null(s: Seq<HostValue>, t: DataTypeTag, i: int)
    requires
        0 <= i < s.len(),
        s[i] is Nil,
    ensures
        build_slots(s, t)[i] is None,
{
}

/// In strict mode, a sequence with an element that is neither nil nor
/// convertible fails to build.
pub proof fn lemma_strict_rejects(s: Seq<HostValue>, t: DataTypeTag, i: int)
    requires
        0 <= i < s.len(),
        fails(s[i], t),
    ensures
        build_fails(s, t, true),
{
}

/// In lenient mode a column of any type but strings always builds, and each
/// unconvertible element gives a null slot.
pub proof fn lemma_lenient_builds(s: Seq<HostValue>, t: DataTypeTag)
    requires
        !(t is Utf8),
    ensures
        !build_fails(s, t, false),
        forall|i: int| 0 <= i < s.len() && fails(#[trigger] s[i], t) ==> build_slots(s, t)[i] is None,
{
}

/// A string column fails to build exactly when an element fails to convert,
/// whatever the strictness.
pub proof fn lemma_string_failure_fatal(s: Seq<HostValue>, strict: bool)
    ensures
        build_fails(s, DataTypeTag::Utf8, strict) == any_fails(s, DataTypeTag::Utf8),
        build_fails(s, DataTypeTag::Utf8, strict) == build_fails(s, DataTypeTag::Utf8, !strict),
{
}

/// A value that converts reads back as the host value it came from.
pub proof fn lemma_convert_round_trip(v: HostValue, t: DataTypeTag)
    requires
        convert(v, t) is Some,
    ensures
        convert(v, t)->0.to_host() == v,
{
}

/// A sequence without conversion failures builds in strict mode, and reading
/// back the slots built from it gives the sequence itself, nils at the same
/// positions.
pub proof fn lemma_round_trip(s: Seq<HostValue>, t: DataTypeTag)
    requires
        !any_fails(s, t),
    ensures
        !build_fails(s, t, true),
        materialize_spec(build_slots(s, t)) == s,
{
    assert forall|i: int| 0 <= i < s.len() implies materialize_spec(build_slots(s, t))[i] == s[i] by {
        assert(!fails(s[i], t));
        if !(s[i] is Nil) {
            lemma_convert_round_trip(s[i], t);
        }
    }
    assert(materialize_spec(build_slots(s, t)) =~= s);
}

/// Reading a column back gives one host value per slot.
pub proof fn lemma_materialize_len(c: Column)
    ensures
        materialize_spec(c.values@).len() == c.len_spec(),
{
}

/// The nils read back from a column are exactly its null slots.
pub proof fn lemma_materialize_nulls(v: Seq<Option<Scalar>>)
    ensures
        count_nil(materialize_spec(v)) == count_nulls(v),
    decreases v.len(),
{
    if v.len() > 0 {
        lemma_materialize_nulls(v.drop_last());
        assert(materialize_spec(v).drop_last() =~= materialize_spec(v.drop_last()));
        let last = v.last();
        if last is Some {
            assert(!(host_of_slot(last) is Nil));
        }
    }
}

/// The nils read back from a column count its null slots.
pub proof fn lemma_materialize_null_count(c: Column)
    ensures
        count_nil(materialize_spec(c.values@)) == c.null_count_spec(),
{
    lemma_materialize_nulls(c.values@);
}

} // verus!
