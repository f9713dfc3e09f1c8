use vstd::prelude::*;

use crate::column::{materialize_spec, Column, IsSorted};
use crate::dtype::DataTypeTag;
use crate::value::{convert, try_convert, HostValue, Scalar};

verus! {

/// A host value that could not be converted to a column's element type.
#[derive(Clone, Copy, PartialEq, Eq, Structural, Debug)]
pub struct TypeConversionError {
    /// Index of the offending element.
    pub position: usize,
    /// The element type it was to be converted to.
    pub expected: DataTypeTag,
}

/// The element is neither nil nor convertible to `t`.
pub open spec fn fails(v: HostValue, t: DataTypeTag) -> bool {
    !(v is Nil) && convert(v, t) is None
}

/// Some element of `s` fails to convert to `t`.
pub open spec fn any_fails(s: Seq<HostValue>, t: DataTypeTag) -> bool {
    exists|i: int| 0 <= i < s.len() && fails(#[trigger] s[i], t)
}

/// A conversion failure aborts the build: always for strings, otherwise only
/// in strict mode.
pub open spec fn failure_is_fatal(t: DataTypeTag, strict: bool) -> bool {
    strict || t is Utf8
}

/// Whether building a column of type `t` from `s` fails.
pub open spec fn build_fails(s: Seq<HostValue>, t: DataTypeTag, strict: bool) -> bool {
    failure_is_fatal(t, strict) && any_fails(s, t)
}

/// `p` is the position of the first element of `s` that fails to convert.
pub open spec fn is_first_failure(s: Seq<HostValue>, t: DataTypeTag, p: int) -> bool {
    &&& 0 <= p < s.len()
    &&& fails(s[p], t)
    &&& forall|j: int| 0 <= j < p ==> !fails(#[trigger] s[j], t)
}

/// The slot an element becomes: nil and unconvertible elements become null.
pub open spec fn slot_of(v: HostValue, t: DataTypeTag) -> Option<Scalar> {
    if v is Nil {
        None
    } else {
        convert(v, t)
    }
}

/// The slots a successful build produces, one per element, in order.
pub open spec fn build_slots(s: Seq<HostValue>, t: DataTypeTag) -> Seq<Option<Scalar>> {
    s.map_values(|v: HostValue| slot_of(v, t))
}

pub proof fn lemma_convert_tag(v: HostValue, t: DataTypeTag)
    ensures
        convert(v, t) is Some ==> convert(v, t)->0.tag() == t,
{
}

/// Builds a column named `name` of element type `t` from host values.
///
/// A nil element gives a null slot. An element that cannot be converted aborts
/// the build with the position of the first such element where the failure
/// is fatal (strict mode, or a string column), and gives a null slot
/// otherwise.
pub fn build(name: String, elements: &Vec<HostValue>, t: DataTypeTag, strict: bool) -> (r: Result<
    Column,
    TypeConversionError,
>)
    ensures
        r is Err <==> build_fails(elements@, t, strict),
        r matches Ok(c) ==> {
            &&& c.wf()
            &&& c.name@ == name@
            &&& c.dtype == t
            &&& c.values@ == build_slots(elements@, t)
            &&& c.chunks@ == seq![elements@.len() as usize]
            &&& c.sorted == IsSorted::Not
        },
        r matches Err(e) ==> e.expected == t && is_first_failure(elements@, t, e.position as int),
{
    let fatal = strict || match t {
        DataTypeTag::Utf8 => true,
        _ => false,
    };
    let mut values: Vec<Option<Scalar>> = Vec::with_capacity(elements.len());
    let mut i: usize = 0;
    while i < elements.len()
        invariant
            i <= elements@.len(),
            fatal == failure_is_fatal(t, strict),
            values@ == build_slots(elements@.subrange(0, i as int), t),
            fatal ==> forall|j: int| 0 <= j < i ==> !fails(#[trigger] elements@[j], t),
        decreases elements@.len() - i,
    {
        let e = &elements[i];
        let slot = match e {
            HostValue::Nil => None,
            _ => {
                let c = try_convert(e, t);
                if c.is_none() && fatal {
                    return Err(TypeConversionError { position: i, expected: t });
                }
                c
            },
        };
        values.push(slot);
        i = i + 1;
        assert(values@ =~= build_slots(elements@.subrange(0, i as int), t));
    }
    assert(elements@.subrange(0, i as int) =~= elements@);
    proof {
        assert forall|j: int| 0 <= j < values@.len() && (#[trigger] values@[j]) is Some implies values@[j]->0.tag() == t by {
            lemma_convert_tag(elements@[j], t);
        }
    }
    Ok(Column::from_slots(name, t, values))
}

/// Reads a column back as host values: each slot becomes its value, and each
/// null slot becomes nil, in order.
///
/// The element types form a closed set and every one of them reads back, so
/// no column is refused.
pub fn materialize(c: &Column) -> (r: Vec<HostValue>)
    ensures
        r@ == materialize_spec(c.values@),
        r@.len() == c.values@.len(),
{
    let mut out: Vec<HostValue> = Vec::with_capacity(c.values.len());
    let mut i: usize = 0;
    while i < c.values.len()
        invariant
            i <= c.values@.len(),
            out@ == materialize_spec(c.values@.subrange(0, i as int)),
        decreases c.values@.len() - i,
    {
        let v = match &c.values[i] {
            Some(s) => s.to_host_exec(),
            None => HostValue::Nil,
        };
        out.push(v);
        i = i + 1;
        assert(out@ =~= materialize_spec(c.values@.subrange(0, i as int)));
    }
    assert(c.values@.subrange(0, i as int) =~= c.values@);
    out
}

} // verus!
