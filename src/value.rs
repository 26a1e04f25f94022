use vstd::prelude::*;

verus! {

/// The shape of a composite value: how its sub-values are addressed.
#[derive(Clone, Copy, Debug, PartialEq, Eq, Structural)]
pub enum PropertiesType {
    /// Struct-like: sub-values are fields looked up by name.
    Named,
    /// Sequence-like: sub-values are elements looked up by position.
    Sequence,
    /// An opaque scalar with no sub-values.
    Value,
}

/// Why applying one value onto another was refused. Either one is a defect in
/// the caller's data or schema, not a condition to recover from.
#[derive(Clone, Copy, Debug, PartialEq, Eq)]
pub enum PropertyError {
    /// A scalar target received a value outside its coercion table.
    TypeMismatch { expected: &'static str, actual: &'static str },
    /// A composite target received a value that is not composite.
    NotProperties { actual: &'static str },
}

/// A type-erased value: any supported scalar, or a sequence of erased values.
pub enum Value {
    Usize(usize),
    U64(u64),
    U32(u32),
    U16(u16),
    U8(u8),
    Isize(isize),
    I64(i64),
    I32(i32),
    I16(i16),
    I8(i8),
    Bool(bool),
    Str(String),
    List(Vec<Value>),
}

impl Value {
    /// True of the integer variants, whatever their width or sign.
    pub open spec fn is_integer(self) -> bool {
        self is Usize || self is U64 || self is U32 || self is U16 || self is U8
            || self is Isize || self is I64 || self is I32 || self is I16 || self is I8
    }

    /// The mathematical value held by an integer variant.
    pub open spec fn int_value(self) -> int {
        match self {
            Value::Usize(x) => x as int,
            Value::U64(x) => x as int,
            Value::U32(x) => x as int,
            Value::U16(x) => x as int,
            Value::U8(x) => x as int,
            Value::Isize(x) => x as int,
            Value::I64(x) => x as int,
            Value::I32(x) => x as int,
            Value::I16(x) => x as int,
            Value::I8(x) => x as int,
            _ => 0,
        }
    }

    /// The name of the concrete type held, for diagnostics.
    pub open spec fn label_spec(self) -> &'static str {
        match self {
            Value::Usize(_) => "usize",
            Value::U64(_) => "u64",
            Value::U32(_) => "u32",
            Value::U16(_) => "u16",
            Value::U8(_) => "u8",
            Value::Isize(_) => "isize",
            Value::I64(_) => "i64",
            Value::I32(_) => "i32",
            Value::I16(_) => "i16",
            Value::I8(_) => "i8",
            Value::Bool(_) => "bool",
            Value::Str(_) => "alloc::string::String",
            Value::List(_) => "alloc::vec::Vec",
        }
    }

    /// The name of the concrete type held, for diagnostics.
    pub fn type_label(&self) -> (r: &'static str)
        ensures
            r == self.label_spec(),
    {
        match self {
            Value::Usize(_) => "usize",
            Value::U64(_) => "u64",
            Value::U32(_) => "u32",
            Value::U16(_) => "u16",
            Value::U8(_) => "u8",
            Value::Isize(_) => "isize",
            Value::I64(_) => "i64",
            Value::I32(_) => "i32",
            Value::I16(_) => "i16",
            Value::I8(_) => "i8",
            Value::Bool(_) => "bool",
            Value::Str(_) => "alloc::string::String",
            Value::List(_) => "alloc::vec::Vec",
        }
    }

    /// The elements, when the value is composite; absent for a scalar.
    pub fn as_properties(&self) -> (r: Option<&Vec<Value>>)
        ensures
            r is Some <==> *self is List,
            r matches Some(vs) ==> *self == Value::List(*vs),
    {
        match self {
            Value::List(vs) => Some(vs),
            _ => None,
        }
    }

    /// Whether the value is sequence-shaped.
    pub fn is_sequence(&self) -> (r: bool)
        ensures
            r == (*self is List),
    {
        match self {
            Value::List(_) => true,
            _ => false,
        }
    }
}

} // verus!
