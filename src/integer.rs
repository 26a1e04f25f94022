use vstd::prelude::*;
use crate::property::{Property, Serializable};
use crate::value::{PropertyError, Value};

verus! {

impl Property for usize {
    open spec fn exact_view(v: Value) -> Option<usize> {
        match v {
            Value::Usize(x) => Some(x),
            _ => None,
        }
    }

    open spec fn accepts(&self, v: Value) -> bool {
        v.is_integer()
    }

    open spec fn applied(&self, v: Value) -> usize {
        v.int_value() as usize
    }

    open spec fn refuses_as_composite(&self, v: Value) -> bool {
        false
    }

    open spec fn sequence_shaped() -> bool {
        false
    }

    open spec fn label_spec() -> &'static str {
        "usize"
    }

    fn type_label(&self) -> (r: &'static str) {
        "usize"
    }

    fn downcast(value: &Value) -> (r: Option<usize>) {
        match value {
            Value::Usize(x) => Some(*x),
            _ => None,
        }
    }

    fn clone_prop(&self) -> (r: Value) {
        Value::Usize(*self)
    }

    fn set(&mut self, value: &Value) -> (r: Result<(), PropertyError>) {
        match value {
            Value::Usize(x) => *self = *x,
            Value::U64(x) => *self = *x as usize,
            Value::U32(x) => *self = *x as usize,
            Value::U16(x) => *self = *x as usize,
            Value::U8(x) => *self = *x as usize,
            Value::Isize(x) => *self = *x as usize,
            Value::I64(x) => *self = *x as usize,
            Value::I32(x) => *self = *x as usize,
            Value::I16(x) => *self = *x as usize,
            Value::I8(x) => *self = *x as usize,
            _ => {
                return Err(PropertyError::TypeMismatch { expected: "usize", actual: value.type_label() });
            },
        }
        Ok(())
    }

    fn apply(&mut self, value: &Value) -> (r: Result<(), PropertyError>) {
        self.set(value)
    }

    fn is_sequence(&self) -> (r: bool) {
        false
    }

    fn serializable(&self) -> (r: Serializable<'_, Self>) {
        Serializable::Borrowed(self)
    }

    proof fn lemma_clone_apply_identity(&self, v: Value) {
    }
}

impl Property for u64 {
    open spec fn exact_view(v: Value) -> Option<u64> {
        match v {
            Value::U64(x) => Some(x),
            _ => None,
        }
    }

    open spec fn accepts(&self, v: Value) -> bool {
        v.is_integer()
    }

    open spec fn applied(&self, v: Value) -> u64 {
        v.int_value() as u64
    }

    open spec fn refuses_as_composite(&self, v: Value) -> bool {
        false
    }

    open spec fn sequence_shaped() -> bool {
        false
    }

    open spec fn label_spec() -> &'static str {
        "u64"
    }

    fn type_label(&self) -> (r: &'static str) {
        "u64"
    }

    fn downcast(value: &Value) -> (r: Option<u64>) {
        match value {
            Value::U64(x) => Some(*x),
            _ => None,
        }
    }

    fn clone_prop(&self) -> (r: Value) {
        Value::U64(*self)
    }

    fn set(&mut self, value: &Value) -> (r: Result<(), PropertyError>) {
        match value {
            Value::U64(x) => *self = *x,
            Value::Usize(x) => *self = *x as u64,
            Value::U32(x) => *self = *x as u64,
            Value::U16(x) => *self = *x as u64,
            Value::U8(x) => *self = *x as u64,
            Value::Isize(x) => *self = *x as u64,
            Value::I64(x) => *self = *x as u64,
            Value::I32(x) => *self = *x as u64,
            Value::I16(x) => *self = *x as u64,
            Value::I8(x) => *self = *x as u64,
            _ => {
                return Err(PropertyError::TypeMismatch { expected: "u64", actual: value.type_label() });
            },
        }
        Ok(())
    }

    fn apply(&mut self, value: &Value) -> (r: Result<(), PropertyError>) {
        self.set(value)
    }

    fn is_sequence(&self) -> (r: bool) {
        false
    }

    fn serializable(&self) -> (r: Serializable<'_, Self>) {
        Serializable::Borrowed(self)
    }

    proof fn lemma_clone_apply_identity(&self, v: Value) {
    }
}

impl Property for u32 {
    open spec fn exact_view(v: Value) -> Option<u32> {
        match v {
            Value::U32(x) => Some(x),
            _ => None,
        }
    }

    open spec fn accepts(&self, v: Value) -> bool {
        v.is_integer()
    }

    open spec fn applied(&self, v: Value) -> u32 {
        v.int_value() as u32
    }

    open spec fn refuses_as_composite(&self, v: Value) -> bool {
        false
    }

    open spec fn sequence_shaped() -> bool {
        false
    }

    open spec fn label_spec() -> &'static str {
        "u32"
    }

    fn type_label(&self) -> (r: &'static str) {
        "u32"
    }

    fn downcast(value: &Value) -> (r: Option<u32>) {
        match value {
            Value::U32(x) => Some(*x),
            _ => None,
        }
    }

    fn clone_prop(&self) -> (r: Value) {
        Value::U32(*self)
    }

    fn set(&mut self, value: &Value) -> (r: Result<(), PropertyError>) {
        match value {
            Value::U32(x) => *self = *x,
            Value::Usize(x) => *self = *x as u32,
            Value::U64(x) => *self = *x as u32,
            Value::U16(x) => *self = *x as u32,
            Value::U8(x) => *self = *x as u32,
            Value::Isize(x) => *self = *x as u32,
            Value::I64(x) => *self = *x as u32,
            Value::I32(x) => *self = *x as u32,
            Value::I16(x) => *self = *x as u32,
            Value::I8(x) => *self = *x as u32,
            _ => {
                return Err(PropertyError::TypeMismatch { expected: "u32", actual: value.type_label() });
            },
        }
        Ok(())
    }

    fn apply(&mut self, value: &Value) -> (r: Result<(), PropertyError>) {
        self.set(value)
    }

    fn is_sequence(&self) -> (r: bool) {
        false
    }

    fn serializable(&self) -> (r: Serializable<'_, Self>) {
        Serializable::Borrowed(self)
    }

    proof fn lemma_clone_apply_identity(&self, v: Value) {
    }
}

impl Property for u16 {
    open spec fn exact_view(v: Value) -> Option<u16> {
        match v {
            Value::U16(x) => Some(x),
            _ => None,
        }
    }

    open spec fn accepts(&self, v: Value) -> bool {
        v.is_integer()
    }

    open spec fn applied(&self, v: Value) -> u16 {
        v.int_value() as u16
    }

    open spec fn refuses_as_composite(&self, v: Value) -> bool {
        false
    }

    open spec fn sequence_shaped() -> bool {
        false
    }

    open spec fn label_spec() -> &'static str {
        "u16"
    }

    fn type_label(&self) -> (r: &'static str) {
        "u16"
    }

    fn downcast(value: &Value) -> (r: Option<u16>) {
        match value {
            Value::U16(x) => Some(*x),
            _ => None,
        }
    }

    fn clone_prop(&self) -> (r: Value) {
        Value::U16(*self)
    }

    fn set(&mut self, value: &Value) -> (r: Result<(), PropertyError>) {
        match value {
            Value::U16(x) => *self = *x,
            Value::Usize(x) => *self = *x as u16,
            Value::U64(x) => *self = *x as u16,
            Value::U32(x) => *self = *x as u16,
            Value::U8(x) => *self = *x as u16,
            Value::Isize(x) => *self = *x as u16,
            Value::I64(x) => *self = *x as u16,
            Value::I32(x) => *self = *x as u16,
            Value::I16(x) => *self = *x as u16,
            Value::I8(x) => *self = *x as u16,
            _ => {
                return Err(PropertyError::TypeMismatch { expected: "u16", actual: value.type_label() });
            },
        }
        Ok(())
    }

    fn apply(&mut self, value: &Value) -> (r: Result<(), PropertyError>) {
        self.set(value)
    }

    fn is_sequence(&self) -> (r: bool) {
        false
    }

    fn serializable(&self) -> (r: Serializable<'_, Self>) {
        Serializable::Borrowed(self)
    }

    proof fn lemma_clone_apply_identity(&self, v: Value) {
    }
}

impl Property for u8 {
    open spec fn exact_view(v: Value) -> Option<u8> {
        match v {
            Value::U8(x) => Some(x),
            _ => None,
        }
    }

    open spec fn accepts(&self, v: Value) -> bool {
        v.is_integer()
    }

    open spec fn applied(&self, v: Value) -> u8 {
        v.int_value() as u8
    }

    open spec fn refuses_as_composite(&self, v: Value) -> bool {
        false
    }

    open spec fn sequence_shaped() -> bool {
        false
    }

    open spec fn label_spec() -> &'static str {
        "u8"
    }

    fn type_label(&self) -> (r: &'static str) {
        "u8"
    }

    fn downcast(value: &Value) -> (r: Option<u8>) {
        match value {
            Value::U8(x) => Some(*x),
            _ => None,
        }
    }

    fn clone_prop(&self) -> (r: Value) {
        Value::U8(*self)
    }

    fn set(&mut self, value: &Value) -> (r: Result<(), PropertyError>) {
        match value {
            Value::U8(x) => *self = *x,
            Value::Usize(x) => *self = *x as u8,
            Value::U64(x) => *self = *x as u8,
            Value::U32(x) => *self = *x as u8,
            Value::U16(x) => *self = *x as u8,
            Value::Isize(x) => *self = *x as u8,
            Value::I64(x) => *self = *x as u8,
            Value::I32(x) => *self = *x as u8,
            Value::I16(x) => *self = *x as u8,
            Value::I8(x) => *self = *x as u8,
            _ => {
                return Err(PropertyError::TypeMismatch { expected: "u8", actual: value.type_label() });
            },
        }
        Ok(())
    }

    fn apply(&mut self, value: &Value) -> (r: Result<(), PropertyError>) {
        self.set(value)
    }

    fn is_sequence(&self) -> (r: bool) {
        false
    }

    fn serializable(&self) -> (r: Serializable<'_, Self>) {
        Serializable::Borrowed(self)
    }

    proof fn lemma_clone_apply_identity(&self, v: Value) {
    }
}

impl Property for isize {
    open spec fn exact_view(v: Value) -> Option<isize> {
        match v {
            Value::Isize(x) => Some(x),
            _ => None,
        }
    }

    open spec fn accepts(&self, v: Value) -> bool {
        v.is_integer()
    }

    open spec fn applied(&self, v: Value) -> isize {
        v.int_value() as isize
    }

    open spec fn refuses_as_composite(&self, v: Value) -> bool {
        false
    }

    open spec fn sequence_shaped() -> bool {
        false
    }

    open spec fn label_spec() -> &'static str {
        "isize"
    }

    fn type_label(&self) -> (r: &'static str) {
        "isize"
    }

    fn downcast(value: &Value) -> (r: Option<isize>) {
        match value {
            Value::Isize(x) => Some(*x),
            _ => None,
        }
    }

    fn clone_prop(&self) -> (r: Value) {
        Value::Isize(*self)
    }

    fn set(&mut self, value: &Value) -> (r: Result<(), PropertyError>) {
        match value {
            Value::Isize(x) => *self = *x,
            Value::Usize(x) => *self = *x as isize,
            Value::U64(x) => *self = *x as isize,
            Value::U32(x) => *self = *x as isize,
            Value::U16(x) => *self = *x as isize,
            Value::U8(x) => *self = *x as isize,
            Value::I64(x) => *self = *x as isize,
            Value::I32(x) => *self = *x as isize,
            Value::I16(x) => *self = *x as isize,
            Value::I8(x) => *self = *x as isize,
            _ => {
                return Err(PropertyError::TypeMismatch { expected: "isize", actual: value.type_label() });
            },
        }
        Ok(())
    }

    fn apply(&mut self, value: &Value) -> (r: Result<(), PropertyError>) {
        self.set(value)
    }

    fn is_sequence(&self) -> (r: bool) {
        false
    }

    fn serializable(&self) -> (r: Serializable<'_, Self>) {
        Serializable::Borrowed(self)
    }

    proof fn lemma_clone_apply_identity(&self, v: Value) {
    }
}

impl Property for i64 {
    open spec fn exact_view(v: Value) -> Option<i64> {
        match v {
            Value::I64(x) => Some(x),
            _ => None,
        }
    }

    open spec fn accepts(&self, v: Value) -> bool {
        v.is_integer()
    }

    open spec fn applied(&self, v: Value) -> i64 {
        v.int_value() as i64
    }

    open spec fn refuses_as_composite(&self, v: Value) -> bool {
        false
    }

    open spec fn sequence_shaped() -> bool {
        false
    }

    open spec fn label_spec() -> &'static str {
        "i64"
    }

    fn type_label(&self) -> (r: &'static str) {
        "i64"
    }

    fn downcast(value: &Value) -> (r: Option<i64>) {
        match value {
            Value::I64(x) => Some(*x),
            _ => None,
        }
    }

    fn clone_prop(&self) -> (r: Value) {
        Value::I64(*self)
    }

    fn set(&mut self, value: &Value) -> (r: Result<(), PropertyError>) {
        match value {
            Value::I64(x) => *self = *x,
            Value::Usize(x) => *self = *x as i64,
            Value::U64(x) => *self = *x as i64,
            Value::U32(x) => *self = *x as i64,
            Value::U16(x) => *self = *x as i64,
            Value::U8(x) => *self = *x as i64,
            Value::Isize(x) => *self = *x as i64,
            Value::I32(x) => *self = *x as i64,
            Value::I16(x) => *self = *x as i64,
            Value::I8(x) => *self = *x as i64,
            _ => {
                return Err(PropertyError::TypeMismatch { expected: "i64", actual: value.type_label() });
            },
        }
        Ok(())
    }

    fn apply(&mut self, value: &Value) -> (r: Result<(), PropertyError>) {
        self.set(value)
    }

    fn is_sequence(&self) -> (r: bool) {
        false
    }

    fn serializable(&self) -> (r: Serializable<'_, Self>) {
        Serializable::Borrowed(self)
    }

    proof fn lemma_clone_apply_identity(&self, v: Value) {
    }
}

impl Property for i32 {
    open spec fn exact_view(v: Value) -> Option<i32> {
        match v {
            Value::I32(x) => Some(x),
            _ => None,
        }
    }

    open spec fn accepts(&self, v: Value) -> bool {
        v.is_integer()
    }

    open spec fn applied(&self, v: Value) -> i32 {
        v.int_value() as i32
    }

    open spec fn refuses_as_composite(&self, v: Value) -> bool {
        false
    }

    open spec fn sequence_shaped() -> bool {
        false
    }

    open spec fn label_spec() -> &'static str {
        "i32"
    }

    fn type_label(&self) -> (r: &'static str) {
        "i32"
    }

    fn downcast(value: &Value) -> (r: Option<i32>) {
        match value {
            Value::I32(x) => Some(*x),
            _ => None,
        }
    }

    fn clone_prop(&self) -> (r: Value) {
        Value::I32(*self)
    }

    fn set(&mut self, value: &Value) -> (r: Result<(), PropertyError>) {
        match value {
            Value::I32(x) => *self = *x,
            Value::Usize(x) => *self = *x as i32,
            Value::U64(x) => *self = *x as i32,
            Value::U32(x) => *self = *x as i32,
            Value::U16(x) => *self = *x as i32,
            Value::U8(x) => *self = *x as i32,
            Value::Isize(x) => *self = *x as i32,
            Value::I64(x) => *self = *x as i32,
            Value::I16(x) => *self = *x as i32,
            Value::I8(x) => *self = *x as i32,
            _ => {
                return Err(PropertyError::TypeMismatch { expected: "i32", actual: value.type_label() });
            },
        }
        Ok(())
    }

    fn apply(&mut self, value: &Value) -> (r: Result<(), PropertyError>) {
        self.set(value)
    }

    fn is_sequence(&self) -> (r: bool) {
        false
    }

    fn serializable(&self) -> (r: Serializable<'_, Self>) {
        Serializable::Borrowed(self)
    }

    proof fn lemma_clone_apply_identity(&self, v: Value) {
    }
}

impl Property for i16 {
    open spec fn exact_view(v: Value) -> Option<i16> {
        match v {
            Value::I16(x) => Some(x),
            _ => None,
        }
    }

    open spec fn accepts(&self, v: Value) -> bool {
        v.is_integer()
    }

    open spec fn applied(&self, v: Value) -> i16 {
        v.int_value() as i16
    }

    open spec fn refuses_as_composite(&self, v: Value) -> bool {
        false
    }

    open spec fn sequence_shaped() -> bool {
        false
    }

    open spec fn label_spec() -> &'static str {
        "i16"
    }

    fn type_label(&self) -> (r: &'static str) {
        "i16"
    }

    fn downcast(value: &Value) -> (r: Option<i16>) {
        match value {
            Value::I16(x) => Some(*x),
            _ => None,
        }
    }

    fn clone_prop(&self) -> (r: Value) {
        Value::I16(*self)
    }

    fn set(&mut self, value: &Value) -> (r: Result<(), PropertyError>) {
        match value {
            Value::I16(x) => *self = *x,
            Value::Usize(x) => *self = *x as i16,
            Value::U64(x) => *self = *x as i16,
            Value::U32(x) => *self = *x as i16,
            Value::U16(x) => *self = *x as i16,
            Value::U8(x) => *self = *x as i16,
            Value::Isize(x) => *self = *x as i16,
            Value::I64(x) => *self = *x as i16,
            Value::I32(x) => *self = *x as i16,
            Value::I8(x) => *self = *x as i16,
            _ => {
                return Err(PropertyError::TypeMismatch { expected: "i16", actual: value.type_label() });
            },
        }
        Ok(())
    }

    fn apply(&mut self, value: &Value) -> (r: Result<(), PropertyError>) {
        self.set(value)
    }

    fn is_sequence(&self) -> (r: bool) {
        false
    }

    fn serializable(&self) -> (r: Serializable<'_, Self>) {
        Serializable::Borrowed(self)
    }

    proof fn lemma_clone_apply_identity(&self, v: Value) {
    }
}

impl Property for i8 {
    open spec fn exact_view(v: Value) -> Option<i8> {
        match v {
            Value::I8(x) => Some(x),
            _ => None,
        }
    }

    open spec fn accepts(&self, v: Value) -> bool {
        v.is_integer()
    }

    open spec fn applied(&self, v: Value) -> i8 {
        v.int_value() as i8
    }

    open spec fn refuses_as_composite(&self, v: Value) -> bool {
        false
    }

    open spec fn sequence_shaped() -> bool {
        false
    }

    open spec fn label_spec() -> &'static str {
        "i8"
    }

    fn type_label(&self) -> (r: &'static str) {
        "i8"
    }

    fn downcast(value: &Value) -> (r: Option<i8>) {
        match value {
            Value::I8(x) => Some(*x),
            _ => None,
        }
    }

    fn clone_prop(&self) -> (r: Value) {
        Value::I8(*self)
    }

    fn set(&mut self, value: &Value) -> (r: Result<(), PropertyError>) {
        match value {
            Value::I8(x) => *self = *x,
            Value::Usize(x) => *self = *x as i8,
            Value::U64(x) => *self = *x as i8,
            Value::U32(x) => *self = *x as i8,
            Value::U16(x) => *self = *x as i8,
            Value::U8(x) => *self = *x as i8,
            Value::Isize(x) => *self = *x as i8,
            Value::I64(x) => *self = *x as i8,
            Value::I32(x) => *self = *x as i8,
            Value::I16(x) => *self = *x as i8,
            _ => {
                return Err(PropertyError::TypeMismatch { expected: "i8", actual: value.type_label() });
            },
        }
        Ok(())
    }

    fn apply(&mut self, value: &Value) -> (r: Result<(), PropertyError>) {
        self.set(value)
    }

    fn is_sequence(&self) -> (r: bool) {
        false
    }

    fn serializable(&self) -> (r: Serializable<'_, Self>) {
        Serializable::Borrowed(self)
    }

    proof fn lemma_clone_apply_identity(&self, v: Value) {
    }
}

} // verus!
