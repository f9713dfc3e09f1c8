use vstd::prelude::*;

use crate::column::{count_nulls, host_of_slot, slots_typed, Column};
use crate::dtype::DataTypeTag;
use crate::series::{RbError, RbResult, RbSeries};
use crate::value::{HostValue, Scalar};

verus! {

/// An elementwise comparison.
#[derive(Clone, Copy, PartialEq, Eq, Structural, Debug)]
pub enum CmpOp {
    Eq,
    Neq,
    Gt,
    GtEq,
    Lt,
    LtEq,
}

/// An elementwise bitwise (for booleans: logical) operation.
#[derive(Clone, Copy, PartialEq, Eq, Structural, Debug)]
pub enum BitOp {
    And,
    Or,
    Xor,
}

/// The magnitude bits of a double (all but the sign bit).
pub open spec fn float_magnitude(b: u64) -> u64 {
    b & 0x7fff_ffff_ffff_ffffu64
}

/// A double's bit pattern is a NaN: all exponent bits set and a non-zero
/// fraction.
pub open spec fn float_is_nan(b: u64) -> bool {
    float_magnitude(b) > 0x7ff0_0000_0000_0000u64
}

/// An integer that orders non-NaN doubles by value; both zeros map to 0.
pub open spec fn float_key(b: u64) -> int {
    if b >> 63u64 == 1u64 {
        -(float_magnitude(b) as int)
    } else {
        float_magnitude(b) as int
    }
}

/// `a` comes before `b` in the lexicographic order of characters.
pub open spec fn chars_lt(a: Seq<char>, b: Seq<char>) -> bool
    decreases a.len(),
{
    if a.len() == 0 {
        b.len() > 0
    } else if b.len() == 0 {
        false
    } else if a[0] != b[0] {
        a[0] < b[0]
    } else {
        chars_lt(a.drop_first(), b.drop_first())
    }
}

/// Two values of one type are equal: floats as IEEE numbers (a NaN equals
/// nothing), strings by their characters, the rest by value.
pub open spec fn values_eq(a: Scalar, b: Scalar) -> bool {
    match (a, b) {
        (Scalar::Utf8(x), Scalar::Utf8(y)) => x@ == y@,
        (Scalar::Float32(x), Scalar::Float32(y)) => !float_is_nan(x) && !float_is_nan(y)
            && float_key(x) == float_key(y),
        (Scalar::Float64(x), Scalar::Float64(y)) => !float_is_nan(x) && !float_is_nan(y)
            && float_key(x) == float_key(y),
        _ => a.ordinal() == b.ordinal(),
    }
}

/// `a` is less than `b`, both of one type: floats as IEEE numbers (a NaN is
/// unordered), strings lexicographically by character, the rest by value.
pub open spec fn values_lt(a: Scalar, b: Scalar) -> bool {
    match (a, b) {
        (Scalar::Utf8(x), Scalar::Utf8(y)) => chars_lt(x@, y@),
        (Scalar::Float32(x), Scalar::Float32(y)) => !float_is_nan(x) && !float_is_nan(y)
            && float_key(x) < float_key(y),
        (Scalar::Float64(x), Scalar::Float64(y)) => !float_is_nan(x) && !float_is_nan(y)
            && float_key(x) < float_key(y),
        _ => a.ordinal() < b.ordinal(),
    }
}

/// Whether `op` holds between two values of one type.
pub open spec fn cmp_holds(op: CmpOp, a: Scalar, b: Scalar) -> bool {
    match op {
        CmpOp::Eq => values_eq(a, b),
        CmpOp::Neq => !values_eq(a, b),
        CmpOp::Gt => values_lt(b, a),
        CmpOp::GtEq => values_lt(b, a) || values_eq(a, b),
        CmpOp::Lt => values_lt(a, b),
        CmpOp::LtEq => values_lt(a, b) || values_eq(a, b),
    }
}

/// The result slot of comparing two slots: null where either is null.
pub open spec fn cmp_slot(op: CmpOp, a: Option<Scalar>, b: Option<Scalar>) -> Option<Scalar> {
    match (a, b) {
        (Some(x), Some(y)) => Some(Scalar::Boolean(cmp_holds(op, x, y))),
        _ => None,
    }
}

/// The error, if any, that an elementwise operation on two series gives:
/// differing types first, then an unsupported type, then differing lengths.
pub open spec fn binary_error(a: RbSeries, b: RbSeries, supported: bool) -> Option<RbError> {
    if a.series.dtype != b.series.dtype {
        Some(RbError::SchemaMismatch)
    } else if !supported {
        Some(RbError::InvalidOperation)
    } else if a.len_spec() != b.len_spec() {
        Some(RbError::LengthMismatch)
    } else {
        None
    }
}

/// What comparing `a` with `b` by `op` returns.
pub open spec fn compare_result(a: RbSeries, b: RbSeries, op: CmpOp, r: RbResult<RbSeries>) -> bool {
    match binary_error(a, b, true) {
        Some(e) => r == Err::<RbSeries, RbError>(e),
        None => r matches Ok(s) && s.wf() && s.series.name@ == a.series.name@
            && s.series.dtype == DataTypeTag::Boolean && s.series.values@ == Seq::new(
            a.len_spec(),
            |i: int| cmp_slot(op, a.series.values@[i], b.series.values@[i]),
        ),
    }
}

/// The value `op` gives on two values of one boolean or integer type.
pub open spec fn bit_scalar(op: BitOp, a: Scalar, b: Scalar) -> Scalar {
    match (a, b) {
        (Scalar::Boolean(x), Scalar::Boolean(y)) => Scalar::Boolean(
            match op {
                BitOp::And => x && y,
                BitOp::Or => x || y,
                BitOp::Xor => x != y,
            },
        ),
        (Scalar::Int8(x), Scalar::Int8(y)) => Scalar::Int8(
            match op {
                BitOp::And => x & y,
                BitOp::Or => x | y,
                BitOp::Xor => x ^ y,
            },
        ),
        (Scalar::Int16(x), Scalar::Int16(y)) => Scalar::Int16(
            match op {
                BitOp::And => x & y,
                BitOp::Or => x | y,
                BitOp::Xor => x ^ y,
            },
        ),
        (Scalar::Int32(x), Scalar::Int32(y)) => Scalar::Int32(
            match op {
                BitOp::And => x & y,
                BitOp::Or => x | y,
                BitOp::Xor => x ^ y,
            },
        ),
        (Scalar::Int64(x), Scalar::Int64(y)) => Scalar::Int64(
            match op {
                BitOp::And => x & y,
                BitOp::Or => x | y,
                BitOp::Xor => x ^ y,
            },
        ),
        (Scalar::UInt8(x), Scalar::UInt8(y)) => Scalar::UInt8(
            match op {
                BitOp::And => x & y,
                BitOp::Or => x | y,
                BitOp::Xor => x ^ y,
            },
        ),
        (Scalar::UInt16(x), Scalar::UInt16(y)) => Scalar::UInt16(
            match op {
                BitOp::And => x & y,
                BitOp::Or => x | y,
                BitOp::Xor => x ^ y,
            },
        ),
        (Scalar::UInt32(x), Scalar::UInt32(y)) => Scalar::UInt32(
            match op {
                BitOp::And => x & y,
                BitOp::Or => x | y,
                BitOp::Xor => x ^ y,
            },
        ),
        (Scalar::UInt64(x), Scalar::UInt64(y)) => Scalar::UInt64(
            match op {
                BitOp::And => x & y,
                BitOp::Or => x | y,
                BitOp::Xor => x ^ y,
            },
        ),
        _ => a,
    }
}

/// The result slot of a bitwise operation: null where either is null.
pub open spec fn bit_slot(op: BitOp, a: Option<Scalar>, b: Option<Scalar>) -> Option<Scalar> {
    match (a, b) {
        (Some(x), Some(y)) => Some(bit_scalar(op, x, y)),
        _ => None,
    }
}

/// What applying `op` to `a` and `b` returns.
pub open spec fn bitwise_result(a: RbSeries, b: RbSeries, op: BitOp, r: RbResult<RbSeries>) -> bool {
    match binary_error(a, b, a.series.dtype.is_ordinal()) {
        Some(e) => r == Err::<RbSeries, RbError>(e),
        None => r matches Ok(s) && s.wf() && s.series.name@ == a.series.name@
            && s.series.dtype == a.series.dtype && s.series.values@ == Seq::new(
            a.len_spec(),
            |i: int| bit_slot(op, a.series.values@[i], b.series.values@[i]),
        ),
    }
}

fn float_key_exec(b: u64) -> (r: i128)
    ensures
        r == float_key(b),
{
    let m = b & 0x7fff_ffff_ffff_ffffu64;
    if b >> 63u64 == 1u64 {
        -(m as i128)
    } else {
        m as i128
    }
}

fn chars_lt_exec(a: &String, b: &String) -> (r: bool)
    ensures
        r == chars_lt(a@, b@),
{
    let n = a.as_str().unicode_len();
    let m = b.as_str().unicode_len();
    let mut i: usize = 0;
    assert(a@.subrange(0, n as int) =~= a@);
    assert(b@.subrange(0, m as int) =~= b@);
    while i < n && i < m
        invariant
            i <= n,
            i <= m,
            n == a@.len(),
            m == b@.len(),
            chars_lt(a@, b@) == chars_lt(a@.subrange(i as int, n as int), b@.subrange(i as int, m as int)),
        decreases n - i,
    {
        let x = a.as_str().get_char(i);
        let y = b.as_str().get_char(i);
        if x != y {
            return x < y;
        }
        proof {
            assert(a@.subrange(i as int, n as int).drop_first() =~= a@.subrange(i + 1, n as int));
            assert(b@.subrange(i as int, m as int).drop_first() =~= b@.subrange(i + 1, m as int));
        }
        i = i + 1;
    }
    i == n && i < m
}

fn values_eq_exec(a: &Scalar, b: &Scalar) -> (r: bool)
    requires
        a.tag() == b.tag(),
    ensures
        r == values_eq(*a, *b),
{
    match (a, b) {
        (Scalar::Utf8(x), Scalar::Utf8(y)) => *x == *y,
        (Scalar::Float32(x), Scalar::Float32(y)) | (Scalar::Float64(x), Scalar::Float64(y)) => {
            let nan = 0x7ff0_0000_0000_0000u64;
            let mask = 0x7fff_ffff_ffff_ffffu64;
            (*x & mask) <= nan && (*y & mask) <= nan && float_key_exec(*x) == float_key_exec(*y)
        },
        _ => a.ordinal_exec() == b.ordinal_exec(),
    }
}

pub(crate) fn values_lt_exec(a: &Scalar, b: &Scalar) -> (r: bool)
    requires
        a.tag() == b.tag(),
    ensures
        r == values_lt(*a, *b),
{
    match (a, b) {
        (Scalar::Utf8(x), Scalar::Utf8(y)) => chars_lt_exec(x, y),
        (Scalar::Float32(x), Scalar::Float32(y)) | (Scalar::Float64(x), Scalar::Float64(y)) => {
            let nan = 0x7ff0_0000_0000_0000u64;
            let mask = 0x7fff_ffff_ffff_ffffu64;
            (*x & mask) <= nan && (*y & mask) <= nan && float_key_exec(*x) < float_key_exec(*y)
        },
        _ => a.ordinal_exec() < b.ordinal_exec(),
    }
}

fn cmp_scalars(op: CmpOp, a: &Scalar, b: &Scalar) -> (r: bool)
    requires
        a.tag() == b.tag(),
    ensures
        r == cmp_holds(op, *a, *b),
{
    match op {
        CmpOp::Eq => values_eq_exec(a, b),
        CmpOp::Neq => !values_eq_exec(a, b),
        CmpOp::Gt => values_lt_exec(b, a),
        CmpOp::GtEq => values_lt_exec(b, a) || values_eq_exec(a, b),
        CmpOp::Lt => values_lt_exec(a, b),
        CmpOp::LtEq => values_lt_exec(a, b) || values_eq_exec(a, b),
    }
}

fn bit_scalars(op: BitOp, a: &Scalar, b: &Scalar) -> (r: Scalar)
    ensures
        r == bit_scalar(op, *a, *b),
{
    match (a, b) {
        (Scalar::Boolean(x), Scalar::Boolean(y)) => Scalar::Boolean(
            match op {
                BitOp::And => *x && *y,
                BitOp::Or => *x || *y,
                BitOp::Xor => *x != *y,
            },
        ),
        (Scalar::Int8(x), Scalar::Int8(y)) => Scalar::Int8(
            match op {
                BitOp::And => *x & *y,
                BitOp::Or => *x | *y,
                BitOp::Xor => *x ^ *y,
            },
        ),
        (Scalar::Int16(x), Scalar::Int16(y)) => Scalar::Int16(
            match op {
                BitOp::And => *x & *y,
                BitOp::Or => *x | *y,
                BitOp::Xor => *x ^ *y,
            },
        ),
        (Scalar::Int32(x), Scalar::Int32(y)) => Scalar::Int32(
            match op {
                BitOp::And => *x & *y,
                BitOp::Or => *x | *y,
                BitOp::Xor => *x ^ *y,
            },
        ),
        (Scalar::Int64(x), Scalar::Int64(y)) => Scalar::Int64(
            match op {
                BitOp::And => *x & *y,
                BitOp::Or => *x | *y,
                BitOp::Xor => *x ^ *y,
            },
        ),
        (Scalar::UInt8(x), Scalar::UInt8(y)) => Scalar::UInt8(
            match op {
                BitOp::And => *x & *y,
                BitOp::Or => *x | *y,
                BitOp::Xor => *x ^ *y,
            },
        ),
        (Scalar::UInt16(x), Scalar::UInt16(y)) => Scalar::UInt16(
            match op {
                BitOp::And => *x & *y,
                BitOp::Or => *x | *y,
                BitOp::Xor => *x ^ *y,
            },
        ),
        (Scalar::UInt32(x), Scalar::UInt32(y)) => Scalar::UInt32(
            match op {
                BitOp::And => *x & *y,
                BitOp::Or => *x | *y,
                BitOp::Xor => *x ^ *y,
            },
        ),
        (Scalar::UInt64(x), Scalar::UInt64(y)) => Scalar::UInt64(
            match op {
                BitOp::And => *x & *y,
                BitOp::Or => *x | *y,
                BitOp::Xor => *x ^ *y,
            },
        ),
        _ => a.duplicate(),
    }
}

impl RbSeries {
    /// Compares two series element by element.
    pub fn compare(&self, rhs: &RbSeries, op: CmpOp) -> (r: RbResult<Self>)
        requires
            self.wf(),
            rhs.wf(),
        ensures
            compare_result(*self, *rhs, op, r),
    {
        let t = self.series.dtype;
        if t != rhs.series.dtype {
            return Err(RbError::SchemaMismatch);
        }
        if self.series.values.len() != rhs.series.values.len() {
            return Err(RbError::LengthMismatch);
        }
        let a = &self.series.values;
        let b = &rhs.series.values;
        let mut out: Vec<Option<Scalar>> = Vec::with_capacity(a.len());
        let mut i: usize = 0;
        while i < a.len()
            invariant
                i <= a@.len(),
                a@.len() == b@.len(),
                a@ == self.series.values@,
                b@ == rhs.series.values@,
                slots_typed(a@, t),
                slots_typed(b@, t),
                out@ == Seq::new(i as nat, |j: int| cmp_slot(op, a@[j], b@[j])),
                slots_typed(out@, DataTypeTag::Boolean),
            decreases a@.len() - i,
        {
            let s = match (&a[i], &b[i]) {
                (Some(x), Some(y)) => Some(Scalar::Boolean(cmp_scalars(op, x, y))),
                _ => None,
            };
            out.push(s);
            i = i + 1;
            assert(out@ =~= Seq::new(i as nat, |j: int| cmp_slot(op, a@[j], b@[j])));
        }
        Ok(RbSeries { series: Column::from_slots(self.series.name.clone(), DataTypeTag::Boolean, out) })
    }

    /// Applies a bitwise (for booleans: logical) operation element by element.
    pub fn bitwise(&self, other: &RbSeries, op: BitOp) -> (r: RbResult<Self>)
        requires
            self.wf(),
            other.wf(),
        ensures
            bitwise_result(*self, *other, op, r),
    {
        let t = self.series.dtype;
        if t != other.series.dtype {
            return Err(RbError::SchemaMismatch);
        }
        if !t.is_ordinal_exec() {
            return Err(RbError::InvalidOperation);
        }
        if self.series.values.len() != other.series.values.len() {
            return Err(RbError::LengthMismatch);
        }
        let a = &self.series.values;
        let b = &other.series.values;
        let mut out: Vec<Option<Scalar>> = Vec::with_capacity(a.len());
        let mut i: usize = 0;
        while i < a.len()
            invariant
                i <= a@.len(),
                a@.len() == b@.len(),
                a@ == self.series.values@,
                b@ == other.series.values@,
                slots_typed(a@, t),
                slots_typed(b@, t),
                out@ == Seq::new(i as nat, |j: int| bit_slot(op, a@[j], b@[j])),
                slots_typed(out@, t),
            decreases a@.len() - i,
        {
            let s = match (&a[i], &b[i]) {
                (Some(x), Some(y)) => Some(bit_scalars(op, x, y)),
                _ => None,
            };
            out.push(s);
            i = i + 1;
            assert(out@ =~= Seq::new(i as nat, |j: int| bit_slot(op, a@[j], b@[j])));
        }
        Ok(RbSeries { series: Column::from_slots(self.series.name.clone(), t, out) })
    }

    pub fn eq(&self, rhs: &RbSeries) -> (r: RbResult<Self>)
        requires
            self.wf(),
            rhs.wf(),
        ensures
            compare_result(*self, *rhs, CmpOp::Eq, r),
    {
        self.compare(rhs, CmpOp::Eq)
    }

    pub fn neq(&self, rhs: &RbSeries) -> (r: RbResult<Self>)
        requires
            self.wf(),
            rhs.wf(),
        ensures
            compare_result(*self, *rhs, CmpOp::Neq, r),
    {
        self.compare(rhs, CmpOp::Neq)
    }

    pub fn gt(&self, rhs: &RbSeries) -> (r: RbResult<Self>)
        requires
            self.wf(),
            rhs.wf(),
        ensures
            compare_result(*self, *rhs, CmpOp::Gt, r),
    {
        self.compare(rhs, CmpOp::Gt)
    }

    pub fn gt_eq(&self, rhs: &RbSeries) -> (r: RbResult<Self>)
        requires
            self.wf(),
            rhs.wf(),
        ensures
            compare_result(*self, *rhs, CmpOp::GtEq, r),
    {
        self.compare(rhs, CmpOp::GtEq)
    }

    pub fn lt(&self, rhs: &RbSeries) -> (r: RbResult<Self>)
        requires
            self.wf(),
            rhs.wf(),
        ensures
            compare_result(*self, *rhs, CmpOp::Lt, r),
    {
        self.compare(rhs, CmpOp::Lt)
    }

    pub fn lt_eq(&self, rhs: &RbSeries) -> (r: RbResult<Self>)
        requires
            self.wf(),
            rhs.wf(),
        ensures
            compare_result(*self, *rhs, CmpOp::LtEq, r),
    {
        self.compare(rhs, CmpOp::LtEq)
    }

    pub fn bitand(&self, other: &RbSeries) -> (r: RbResult<Self>)
        requires
            self.wf(),
            other.wf(),
        ensures
            bitwise_result(*self, *other, BitOp::And, r),
    {
        self.bitwise(other, BitOp::And)
    }

    pub fn bitor(&self, other: &RbSeries) -> (r: RbResult<Self>)
        requires
            self.wf(),
            other.wf(),
        ensures
            bitwise_result(*self, *other, BitOp::Or, r),
    {
        self.bitwise(other, BitOp::Or)
    }

    pub fn bitxor(&self, other: &RbSeries) -> (r: RbResult<Self>)
        requires
            self.wf(),
            other.wf(),
        ensures
            bitwise_result(*self, *other, BitOp::Xor, r),
    {
        self.bitwise(other, BitOp::Xor)
    }
}

/// Two host values are equal (strings by their characters).
pub open spec fn host_eq(a: HostValue, b: HostValue) -> bool {
    match (a, b) {
        (HostValue::Str(x), HostValue::Str(y)) => x@ == y@,
        (HostValue::Str(_), _) => false,
        (_, HostValue::Str(_)) => false,
        _ => a == b,
    }
}

/// Two slot sequences have equal length and read back as equal host values
/// slot by slot, nulls at the same positions. Floats compare by bit pattern.
pub open spec fn slots_match(a: Seq<Option<Scalar>>, b: Seq<Option<Scalar>>) -> bool {
    &&& a.len() == b.len()
    &&& forall|i: int| 0 <= i < a.len() ==> host_eq(host_of_slot(#[trigger] a[i]), host_of_slot(b[i]))
}

/// Whether two series are equal: in strict mode their types must agree too;
/// without `null_equal` a series with a null slot equals nothing.
pub open spec fn series_equal_spec(a: Column, b: Column, null_equal: bool, strict: bool) -> bool {
    if strict {
        a.dtype == b.dtype && slots_match(a.values@, b.values@)
    } else if null_equal {
        slots_match(a.values@, b.values@)
    } else {
        count_nulls(a.values@) == 0 && count_nulls(b.values@) == 0 && slots_match(a.values@, b.values@)
    }
}

fn host_eq_exec(a: &HostValue, b: &HostValue) -> (r: bool)
    ensures
        r == host_eq(*a, *b),
{
    match (a, b) {
        (HostValue::Str(x), HostValue::Str(y)) => *x == *y,
        (HostValue::Nil, HostValue::Nil) => true,
        (HostValue::Other, HostValue::Other) => true,
        (HostValue::Bool(x), HostValue::Bool(y)) => *x == *y,
        (HostValue::Int(x), HostValue::Int(y)) => *x == *y,
        (HostValue::Float(x), HostValue::Float(y)) => *x == *y,
        _ => false,
    }
}

fn slots_match_exec(a: &Vec<Option<Scalar>>, b: &Vec<Option<Scalar>>) -> (r: bool)
    ensures
        r == slots_match(a@, b@),
{
    if a.len() != b.len() {
        return false;
    }
    let mut i: usize = 0;
    while i < a.len()
        invariant
            i <= a@.len(),
            a@.len() == b@.len(),
            forall|j: int| 0 <= j < i ==> host_eq(host_of_slot(#[trigger] a@[j]), host_of_slot(b@[j])),
        decreases a@.len() - i,
    {
        let x = match &a[i] {
            Some(s) => s.to_host_exec(),
            None => HostValue::Nil,
        };
        let y = match &b[i] {
            Some(s) => s.to_host_exec(),
            None => HostValue::Nil,
        };
        if !host_eq_exec(&x, &y) {
            return false;
        }
        i = i + 1;
    }
    true
}

impl RbSeries {
    /// Whether this series equals `other`, as `series_equal_spec` states.
    pub fn series_equal(&self, other: &RbSeries, null_equal: bool, strict: bool) -> (r: bool)
        ensures
            r == series_equal_spec(self.series, other.series, null_equal, strict),
    {
        if strict {
            self.series.dtype == other.series.dtype && slots_match_exec(
                &self.series.values,
                &other.series.values,
            )
        } else if null_equal {
            slots_match_exec(&self.series.values, &other.series.values)
        } else {
            self.series.null_count() == 0 && other.series.null_count() == 0 && slots_match_exec(
                &self.series.values,
                &other.series.values,
            )
        }
    }
}

} // verus!
