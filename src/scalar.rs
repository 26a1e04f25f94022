use vstd::prelude::*;
use crate::property::{Property, Serializable};
use crate::value::{PropertyError, Value};

verus! {

impl Property for bool {
    open spec fn exact_view(v: Value) -> Option<bool> {
        match v {
            Value::Bool(b) => Some(b),
            _ => None,
        }
    }

    open spec fn accepts(&self, v: Value) -> bool {
        v is Bool
    }

    open spec fn applied(&self, v: Value) -> bool {
        v->Bool_0
    }

    open spec fn refuses_as_composite(&self, v: Value) -> bool {
        false
    }

    open spec fn sequence_shaped() -> bool {
        false
    }

    open spec fn label_spec() -> &'static str {
        "bool"
    }

    fn type_label(&self) -> (r: &'static str) {
        "bool"
    }

    fn downcast(value: &Value) -> (r: Option<bool>) {
        match value {
            Value::Bool(b) => Some(*b),
            _ => None,
        }
    }

    fn clone_prop(&self) -> (r: Value) {
        Value::Bool(*self)
    }

    fn set(&mut self, value: &Value) -> (r: Result<(), PropertyError>) {
        match value {
            Value::Bool(b) => {
                *self = *b;
                Ok(())
            },
            _ => Err(PropertyError::TypeMismatch { expected: "bool", actual: value.type_label() }),
        }
    }

    fn apply(&mut self, value: &Value) -> (r: Result<(), PropertyError>) {
        self.set(value)
    }

    fn is_sequence(&self) -> (r: bool) {
        false
    }

    fn serializable(&self) -> (r: Serializable<'_, Self>) {
        Serializable::Borrowed(self)
    }

    proof fn lemma_clone_apply_identity(&self, v: Value) {
    }
}

impl Property for String {
    open spec fn exact_view(v: Value) -> Option<Seq<char>> {
        match v {
            Value::Str(s) => Some(s@),
            _ => None,
        }
    }

    open spec fn accepts(&self, v: Value) -> bool {
        v is Str
    }

    open spec fn applied(&self, v: Value) -> Seq<char> {
        v->Str_0@
    }

    open spec fn refuses_as_composite(&self, v: Value) -> bool {
        false
    }

    open spec fn sequence_shaped() -> bool {
        false
    }

    open spec fn label_spec() -> &'static str {
        "alloc::string::String"
    }

    fn type_label(&self) -> (r: &'static str) {
        "alloc::string::String"
    }

    fn downcast(value: &Value) -> (r: Option<String>) {
        match value {
            Value::Str(s) => Some(s.clone()),
            _ => None,
        }
    }

    fn clone_prop(&self) -> (r: Value) {
        Value::Str(self.clone())
    }

    fn set(&mut self, value: &Value) -> (r: Result<(), PropertyError>) {
        match value {
            Value::Str(s) => {
                *self = s.clone();
                Ok(())
            },
            _ => Err(
                PropertyError::TypeMismatch {
                    expected: "alloc::string::String",
                    actual: value.type_label(),
                },
            ),
        }
    }

    fn apply(&mut self, value: &Value) -> (r: Result<(), PropertyError>) {
        self.set(value)
    }

    fn is_sequence(&self) -> (r: bool) {
        false
    }

    fn serializable(&self) -> (r: Serializable<'_, Self>) {
        Serializable::Borrowed(self)
    }

    proof fn lemma_clone_apply_identity(&self, v: Value) {
    }
}

} // verus!
