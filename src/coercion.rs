use vstd::prelude::*;
use crate::property::Property;
use crate::value::Value;

verus! {

/// The concrete type of a scalar, or the sequence shape.
#[derive(Clone, Copy, Debug, PartialEq, Eq, Structural)]
pub enum ValueKind {
    Usize,
    U64,
    U32,
    U16,
    U8,
    Isize,
    I64,
    I32,
    I16,
    I8,
    F32,
    F64,
    Bool,
    Str,
    List,
}

impl ValueKind {
    pub open spec fn is_integer(self) -> bool {
        self is Usize || self is U64 || self is U32 || self is U16 || self is U8 || self is Isize
            || self is I64 || self is I32 || self is I16 || self is I8
    }

    pub open spec fn is_float(self) -> bool {
        self is F32 || self is F64
    }
}

/// How a value of one kind is applied onto a target of another.
#[derive(Clone, Copy, Debug, PartialEq, Eq, Structural)]
pub enum Coercion {
    /// Same type: the value is copied.
    Direct,
    /// Same numeric domain, other width or sign: a numeric cast, with
    /// truncation or sign reinterpretation and no range check.
    Cast,
    /// Not in the table: applying it is a defect.
    Refused,
}

/// The coercion table: integers take any integer, floats take any float,
/// every other kind takes only itself.
pub open spec fn coercion_spec(target: ValueKind, source: ValueKind) -> Coercion {
    if target == source {
        Coercion::Direct
    } else if target.is_integer() && source.is_integer() {
        Coercion::Cast
    } else if target.is_float() && source.is_float() {
        Coercion::Cast
    } else {
        Coercion::Refused
    }
}

/// Looks up the coercion table.
pub fn coercion(target: ValueKind, source: ValueKind) -> (r: Coercion)
    ensures
        r == coercion_spec(target, source),
{
    if target == source {
        Coercion::Direct
    } else if is_integer_kind(target) && is_integer_kind(source) {
        Coercion::Cast
    } else if is_float_kind(target) && is_float_kind(source) {
        Coercion::Cast
    } else {
        Coercion::Refused
    }
}

fn is_integer_kind(k: ValueKind) -> (r: bool)
    ensures
        r == k.is_integer(),
{
    match k {
        ValueKind::Usize | ValueKind::U64 | ValueKind::U32 | ValueKind::U16 | ValueKind::U8
        | ValueKind::Isize | ValueKind::I64 | ValueKind::I32 | ValueKind::I16 | ValueKind::I8 => true,
        _ => false,
    }
}

fn is_float_kind(k: ValueKind) -> (r: bool)
    ensures
        r == k.is_float(),
{
    match k {
        ValueKind::F32 | ValueKind::F64 => true,
        _ => false,
    }
}

impl Value {
    /// The kind of the value held.
    pub open spec fn kind_spec(self) -> ValueKind {
        match self {
            Value::Usize(_) => ValueKind::Usize,
            Value::U64(_) => ValueKind::U64,
            Value::U32(_) => ValueKind::U32,
            Value::U16(_) => ValueKind::U16,
            Value::U8(_) => ValueKind::U8,
            Value::Isize(_) => ValueKind::Isize,
            Value::I64(_) => ValueKind::I64,
            Value::I32(_) => ValueKind::I32,
            Value::I16(_) => ValueKind::I16,
            Value::I8(_) => ValueKind::I8,
            Value::Bool(_) => ValueKind::Bool,
            Value::Str(_) => ValueKind::Str,
            Value::List(_) => ValueKind::List,
        }
    }

    /// The kind of the value held.
    pub fn kind(&self) -> (r: ValueKind)
        ensures
            r == self.kind_spec(),
    {
        match self {
            Value::Usize(_) => ValueKind::Usize,
            Value::U64(_) => ValueKind::U64,
            Value::U32(_) => ValueKind::U32,
            Value::U16(_) => ValueKind::U16,
            Value::U8(_) => ValueKind::U8,
            Value::Isize(_) => ValueKind::Isize,
            Value::I64(_) => ValueKind::I64,
            Value::I32(_) => ValueKind::I32,
            Value::I16(_) => ValueKind::I16,
            Value::I8(_) => ValueKind::I8,
            Value::Bool(_) => ValueKind::Bool,
            Value::Str(_) => ValueKind::Str,
            Value::List(_) => ValueKind::List,
        }
    }
}

/// Any integer type takes a value of any integer type, of any width or sign.
pub proof fn lemma_integer_coercion_closed(target: ValueKind, source: ValueKind)
    requires
        target.is_integer(),
        source.is_integer(),
    ensures
        coercion_spec(target, source) != Coercion::Refused,
{
}

/// An integer is never applied onto a float, nor a float onto an integer,
/// nor a string onto either.
pub proof fn lemma_cross_domain_refused(target: ValueKind, source: ValueKind)
    requires
        (target.is_integer() && source.is_float()) || (target.is_float() && source.is_integer())
            || ((target.is_integer() || target.is_float()) && source is Str),
    ensures
        coercion_spec(target, source) == Coercion::Refused,
{
}

/// Each integer type accepts exactly the values that the coercion table
/// admits for it.
pub proof fn lemma_integer_targets_follow_table(v: Value)
    ensures
        forall|x: usize| #[trigger] x.accepts(v) <==> coercion_spec(ValueKind::Usize, v.kind_spec()) != Coercion::Refused,
        forall|x: u64| #[trigger] x.accepts(v) <==> coercion_spec(ValueKind::U64, v.kind_spec()) != Coercion::Refused,
        forall|x: u32| #[trigger] x.accepts(v) <==> coercion_spec(ValueKind::U32, v.kind_spec()) != Coercion::Refused,
        forall|x: u16| #[trigger] x.accepts(v) <==> coercion_spec(ValueKind::U16, v.kind_spec()) != Coercion::Refused,
        forall|x: u8| #[trigger] x.accepts(v) <==> coercion_spec(ValueKind::U8, v.kind_spec()) != Coercion::Refused,
        forall|x: isize| #[trigger] x.accepts(v) <==> coercion_spec(ValueKind::Isize, v.kind_spec()) != Coercion::Refused,
        forall|x: i64| #[trigger] x.accepts(v) <==> coercion_spec(ValueKind::I64, v.kind_spec()) != Coercion::Refused,
        forall|x: i32| #[trigger] x.accepts(v) <==> coercion_spec(ValueKind::I32, v.kind_spec()) != Coercion::Refused,
        forall|x: i16| #[trigger] x.accepts(v) <==> coercion_spec(ValueKind::I16, v.kind_spec()) != Coercion::Refused,
        forall|x: i8| #[trigger] x.accepts(v) <==> coercion_spec(ValueKind::I8, v.kind_spec()) != Coercion::Refused,
{
}

} // verus!
