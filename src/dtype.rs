use vstd::prelude::*;

verus! {

/// The primitive element types a column can be declared with.
#[derive(Clone, Copy, PartialEq, Eq, Structural, Debug)]
pub enum DataTypeTag {
    Boolean,
    Int8,
    Int16,
    Int32,
    Int64,
    UInt8,
    UInt16,
    UInt32,
    UInt64,
    Float32,
    Float64,
    Utf8,
}

impl DataTypeTag {
    /// Integer element types (signed or unsigned).
    pub open spec fn is_integer(self) -> bool {
        !(self is Boolean || self is Float32 || self is Float64 || self is Utf8)
    }

    /// Element types whose values are ordered and compared as integers
    /// (`false < true` for booleans).
    pub open spec fn is_ordinal(self) -> bool {
        self.is_integer() || self is Boolean
    }

    /// The name under which the engine displays the type.
    pub open spec fn name_spec(self) -> Seq<char> {
        match self {
            DataTypeTag::Boolean => "bool"@,
            DataTypeTag::Int8 => "i8"@,
            DataTypeTag::Int16 => "i16"@,
            DataTypeTag::Int32 => "i32"@,
            DataTypeTag::Int64 => "i64"@,
            DataTypeTag::UInt8 => "u8"@,
            DataTypeTag::UInt16 => "u16"@,
            DataTypeTag::UInt32 => "u32"@,
            DataTypeTag::UInt64 => "u64"@,
            DataTypeTag::Float32 => "f32"@,
            DataTypeTag::Float64 => "f64"@,
            DataTypeTag::Utf8 => "str"@,
        }
    }

    pub fn is_ordinal_exec(&self) -> (r: bool)
        ensures
            r == self.is_ordinal(),
    {
        match self {
            DataTypeTag::Float32 | DataTypeTag::Float64 | DataTypeTag::Utf8 => false,
            _ => true,
        }
    }

    /// The type's display name.
    pub fn name(&self) -> (r: String)
        ensures
            r@ == self.name_spec(),
    {
        let s = match self {
            DataTypeTag::Boolean => "bool",
            DataTypeTag::Int8 => "i8",
            DataTypeTag::Int16 => "i16",
            DataTypeTag::Int32 => "i32",
            DataTypeTag::Int64 => "i64",
            DataTypeTag::UInt8 => "u8",
            DataTypeTag::UInt16 => "u16",
            DataTypeTag::UInt32 => "u32",
            DataTypeTag::UInt64 => "u64",
            DataTypeTag::Float32 => "f32",
            DataTypeTag::Float64 => "f64",
            DataTypeTag::Utf8 => "str",
        };
        s.to_string()
    }
}

} // verus!
