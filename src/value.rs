use vstd::prelude::*;

use crate::dtype::DataTypeTag;

verus! {

/// A value of the host language as the binding receives it.
///
/// Integers are held as `i128`; a float is held as the bit pattern of a
/// double. A float meant for a single-precision column is rounded by the
/// host side before it arrives, so its bit pattern is exact in both widths.
#[derive(Clone, Debug, PartialEq, Eq)]
pub enum HostValue {
    Nil,
    Bool(bool),
    Int(i128),
    Float(u64),
    Str(String),
    /// Any other host object (a symbol, an array, a big integer, ...).
    Other,
}

/// A typed value stored in a non-null slot of a column.
///
/// Both float variants hold the bit pattern of the value as a double.
#[derive(Clone, Debug, PartialEq, Eq)]
pub enum Scalar {
    Boolean(bool),
    Int8(i8),
    Int16(i16),
    Int32(i32),
    Int64(i64),
    UInt8(u8),
    UInt16(u16),
    UInt32(u32),
    UInt64(u64),
    Float32(u64),
    Float64(u64),
    Utf8(String),
}

impl Scalar {
    /// The element type a value belongs to.
    pub open spec fn tag(self) -> DataTypeTag {
        match self {
            Scalar::Boolean(_) => DataTypeTag::Boolean,
            Scalar::Int8(_) => DataTypeTag::Int8,
            Scalar::Int16(_) => DataTypeTag::Int16,
            Scalar::Int32(_) => DataTypeTag::Int32,
            Scalar::Int64(_) => DataTypeTag::Int64,
            Scalar::UInt8(_) => DataTypeTag::UInt8,
            Scalar::UInt16(_) => DataTypeTag::UInt16,
            Scalar::UInt32(_) => DataTypeTag::UInt32,
            Scalar::UInt64(_) => DataTypeTag::UInt64,
            Scalar::Float32(_) => DataTypeTag::Float32,
            Scalar::Float64(_) => DataTypeTag::Float64,
            Scalar::Utf8(_) => DataTypeTag::Utf8,
        }
    }

    /// The integer a value of an ordinal type stands for (`false` is 0,
    /// `true` is 1).
    pub open spec fn ordinal(self) -> int {
        match self {
            Scalar::Boolean(b) => if b { 1 } else { 0 },
            Scalar::Int8(v) => v as int,
            Scalar::Int16(v) => v as int,
            Scalar::Int32(v) => v as int,
            Scalar::Int64(v) => v as int,
            Scalar::UInt8(v) => v as int,
            Scalar::UInt16(v) => v as int,
            Scalar::UInt32(v) => v as int,
            Scalar::UInt64(v) => v as int,
            _ => 0,
        }
    }

    /// The host value that a stored value reads back as.
    pub open spec fn to_host(self) -> HostValue {
        match self {
            Scalar::Boolean(b) => HostValue::Bool(b),
            Scalar::Float32(b) => HostValue::Float(b),
            Scalar::Float64(b) => HostValue::Float(b),
            Scalar::Utf8(s) => HostValue::Str(s),
            _ => HostValue::Int(self.ordinal() as i128),
        }
    }

    pub fn tag_exec(&self) -> (r: DataTypeTag)
        ensures
            r == self.tag(),
    {
        match self {
            Scalar::Boolean(_) => DataTypeTag::Boolean,
            Scalar::Int8(_) => DataTypeTag::Int8,
            Scalar::Int16(_) => DataTypeTag::Int16,
            Scalar::Int32(_) => DataTypeTag::Int32,
            Scalar::Int64(_) => DataTypeTag::Int64,
            Scalar::UInt8(_) => DataTypeTag::UInt8,
            Scalar::UInt16(_) => DataTypeTag::UInt16,
            Scalar::UInt32(_) => DataTypeTag::UInt32,
            Scalar::UInt64(_) => DataTypeTag::UInt64,
            Scalar::Float32(_) => DataTypeTag::Float32,
            Scalar::Float64(_) => DataTypeTag::Float64,
            Scalar::Utf8(_) => DataTypeTag::Utf8,
        }
    }

    /// A copy of the value.
    pub fn duplicate(&self) -> (r: Scalar)
        ensures
            r == *self,
    {
        match self {
            Scalar::Boolean(v) => Scalar::Boolean(*v),
            Scalar::Int8(v) => Scalar::Int8(*v),
            Scalar::Int16(v) => Scalar::Int16(*v),
            Scalar::Int32(v) => Scalar::Int32(*v),
            Scalar::Int64(v) => Scalar::Int64(*v),
            Scalar::UInt8(v) => Scalar::UInt8(*v),
            Scalar::UInt16(v) => Scalar::UInt16(*v),
            Scalar::UInt32(v) => Scalar::UInt32(*v),
            Scalar::UInt64(v) => Scalar::UInt64(*v),
            Scalar::Float32(v) => Scalar::Float32(*v),
            Scalar::Float64(v) => Scalar::Float64(*v),
            Scalar::Utf8(s) => Scalar::Utf8(s.clone()),
        }
    }

    /// The ordinal of a value of an ordinal type.
    pub fn ordinal_exec(&self) -> (r: i128)
        requires
            self.tag().is_ordinal(),
        ensures
            r as int == self.ordinal(),
    {
        match self {
            Scalar::Boolean(b) => if *b { 1 } else { 0 },
            Scalar::Int8(v) => *v as i128,
            Scalar::Int16(v) => *v as i128,
            Scalar::Int32(v) => *v as i128,
            Scalar::Int64(v) => *v as i128,
            Scalar::UInt8(v) => *v as i128,
            Scalar::UInt16(v) => *v as i128,
            Scalar::UInt32(v) => *v as i128,
            Scalar::UInt64(v) => *v as i128,
            _ => 0,
        }
    }

    /// The host value this stored value reads back as.
    pub fn to_host_exec(&self) -> (r: HostValue)
        ensures
            r == self.to_host(),
    {
        match self {
            Scalar::Boolean(b) => HostValue::Bool(*b),
            Scalar::Float32(b) => HostValue::Float(*b),
            Scalar::Float64(b) => HostValue::Float(*b),
            Scalar::Utf8(s) => HostValue::Str(s.clone()),
            Scalar::Int8(v) => HostValue::Int(*v as i128),
            Scalar::Int16(v) => HostValue::Int(*v as i128),
            Scalar::Int32(v) => HostValue::Int(*v as i128),
            Scalar::Int64(v) => HostValue::Int(*v as i128),
            Scalar::UInt8(v) => HostValue::Int(*v as i128),
            Scalar::UInt16(v) => HostValue::Int(*v as i128),
            Scalar::UInt32(v) => HostValue::Int(*v as i128),
            Scalar::UInt64(v) => HostValue::Int(*v as i128),
        }
    }
}

/// Whether an integer lies in a closed range.
pub open spec fn in_range(i: int, lo: int, hi: int) -> bool {
    lo <= i <= hi
}

/// What a non-nil host value converts to for a target element type, or
/// `None` where it cannot be converted. A boolean column takes only booleans,
/// an integer column only integers within the type's range, a float column
/// only floats, and a string column only strings.
pub open spec fn convert(v: HostValue, t: DataTypeTag) -> Option<Scalar> {
    match v {
        HostValue::Bool(b) => if t is Boolean { Some(Scalar::Boolean(b)) } else { None },
        HostValue::Int(i) => match t {
            DataTypeTag::Int8 => if in_range(i as int, i8::MIN as int, i8::MAX as int) {
                Some(Scalar::Int8(i as i8))
            } else {
                None
            },
            DataTypeTag::Int16 => if in_range(i as int, i16::MIN as int, i16::MAX as int) {
                Some(Scalar::Int16(i as i16))
            } else {
                None
            },
            DataTypeTag::Int32 => if in_range(i as int, i32::MIN as int, i32::MAX as int) {
                Some(Scalar::Int32(i as i32))
            } else {
                None
            },
            DataTypeTag::Int64 => if in_range(i as int, i64::MIN as int, i64::MAX as int) {
                Some(Scalar::Int64(i as i64))
            } else {
                None
            },
            DataTypeTag::UInt8 => if in_range(i as int, 0, u8::MAX as int) {
                Some(Scalar::UInt8(i as u8))
            } else {
                None
            },
            DataTypeTag::UInt16 => if in_range(i as int, 0, u16::MAX as int) {
                Some(Scalar::UInt16(i as u16))
            } else {
                None
            },
            DataTypeTag::UInt32 => if in_range(i as int, 0, u32::MAX as int) {
                Some(Scalar::UInt32(i as u32))
            } else {
                None
            },
            DataTypeTag::UInt64 => if in_range(i as int, 0, u64::MAX as int) {
                Some(Scalar::UInt64(i as u64))
            } else {
                None
            },
            _ => None,
        },
        HostValue::Float(b) => match t {
            DataTypeTag::Float32 => Some(Scalar::Float32(b)),
            DataTypeTag::Float64 => Some(Scalar::Float64(b)),
            _ => None,
        },
        HostValue::Str(s) => if t is Utf8 { Some(Scalar::Utf8(s)) } else { None },
        _ => None,
    }
}

/// Converts a non-nil host value to the target element type.
pub fn try_convert(v: &HostValue, t: DataTypeTag) -> (r: Option<Scalar>)
    ensures
        r == convert(*v, t),
{
    match v {
        HostValue::Bool(b) => match t {
            DataTypeTag::Boolean => Some(Scalar::Boolean(*b)),
            _ => None,
        },
        HostValue::Int(i) => {
            let i = *i;
            match t {
                DataTypeTag::Int8 => if -128 <= i && i <= 127 {
                    Some(Scalar::Int8(i as i8))
                } else {
                    None
                },
                DataTypeTag::Int16 => if -32768 <= i && i <= 32767 {
                    Some(Scalar::Int16(i as i16))
                } else {
                    None
                },
                DataTypeTag::Int32 => if i32::MIN as i128 <= i && i <= i32::MAX as i128 {
                    Some(Scalar::Int32(i as i32))
                } else {
                    None
                },
                DataTypeTag::Int64 => if i64::MIN as i128 <= i && i <= i64::MAX as i128 {
                    Some(Scalar::Int64(i as i64))
                } else {
                    None
                },
                DataTypeTag::UInt8 => if 0 <= i && i <= 255 {
                    Some(Scalar::UInt8(i as u8))
                } else {
                    None
                },
                DataTypeTag::UInt16 => if 0 <= i && i <= 65535 {
                    Some(Scalar::UInt16(i as u16))
                } else {
                    None
                },
                DataTypeTag::UInt32 => if 0 <= i && i <= u32::MAX as i128 {
                    Some(Scalar::UInt32(i as u32))
                } else {
                    None
                },
                DataTypeTag::UInt64 => if 0 <= i && i <= u64::MAX as i128 {
                    Some(Scalar::UInt64(i as u64))
                } else {
                    None
                },
                _ => None,
            }
        },
        HostValue::Float(b) => match t {
            DataTypeTag::Float32 => Some(Scalar::Float32(*b)),
            DataTypeTag::Float64 => Some(Scalar::Float64(*b)),
            _ => None,
        },
        HostValue::Str(s) => match t {
            DataTypeTag::Utf8 => Some(Scalar::Utf8(s.clone())),
            _ => None,
        },
        _ => None,
    }
}

} // verus!
