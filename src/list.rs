use vstd::prelude::*;
use crate::property::{Properties, Property, PropertyIter, SeqSerializer, Serializable};
use crate::value::{PropertiesType, PropertyError, Value};

verus! {

/// Whether every erased value of `vs` holds a `T` exactly.
pub open spec fn all_exact<T: Property>(vs: Seq<Value>) -> bool {
    forall|i: int| 0 <= i < vs.len() ==> (#[trigger] T::exact_view(vs[i])) is Some
}

/// Whether, from position `i` on, the first element of `s` that refuses its
/// counterpart in `vs` refuses it as a composite target. Positions past the
/// shorter of the two are not compared.
pub open spec fn first_refusal_is_composite<T: Property>(s: Seq<T>, vs: Seq<Value>, i: int) -> bool
    decreases s.len() - i,
{
    if i < 0 || i >= s.len() || i >= vs.len() {
        false
    } else if !s[i].accepts(vs[i]) {
        s[i].refuses_as_composite(vs[i])
    } else {
        first_refusal_is_composite(s, vs, i + 1)
    }
}

/// Whether each element of `s` accepts the erased value at its position in
/// `vs`, over the positions that both have.
pub open spec fn all_accept<T: Property>(s: Seq<T>, vs: Seq<Value>) -> bool {
    forall|i: int| 0 <= i < s.len() && i < vs.len() ==> #[trigger] s[i].accepts(vs[i])
}

/// `s` with each element patched from the erased value at its position in
/// `vs`; elements past the end of `vs` keep their value.
pub open spec fn applied_positionally<T: Property>(s: Seq<T>, vs: Seq<Value>) -> Seq<
    <T as DeepView>::V,
> {
    Seq::new(
        s.len(),
        |i: int|
            if i < vs.len() {
                s[i].applied(vs[i])
            } else {
                s[i].deep_view()
            },
    )
}

impl<T: Property> Property for Vec<T> {
    open spec fn exact_view(v: Value) -> Option<Seq<<T as DeepView>::V>> {
        match v {
            Value::List(vs) => if all_exact::<T>(vs@) {
                Some(Seq::new(vs@.len(), |i: int| T::exact_view(vs@[i])->Some_0))
            } else {
                None
            },
            _ => None,
        }
    }

    open spec fn accepts(&self, v: Value) -> bool {
        match v {
            Value::List(vs) => all_accept(self@, vs@),
            _ => false,
        }
    }

    open spec fn applied(&self, v: Value) -> Seq<<T as DeepView>::V> {
        match v {
            Value::List(vs) => applied_positionally(self@, vs@),
            _ => self.deep_view(),
        }
    }

    open spec fn refuses_as_composite(&self, v: Value) -> bool {
        match v {
            Value::List(vs) => first_refusal_is_composite(self@, vs@, 0),
            _ => true,
        }
    }

    open spec fn sequence_shaped() -> bool {
        true
    }

    open spec fn label_spec() -> &'static str {
        "alloc::vec::Vec"
    }

    fn type_label(&self) -> (r: &'static str) {
        "alloc::vec::Vec"
    }

    fn downcast(value: &Value) -> (r: Option<Vec<T>>) {
        match value {
            Value::List(vs) => {
                let mut out: Vec<T> = Vec::new();
                let mut i: usize = 0;
                while i < vs.len()
                    invariant
                        *value == Value::List(*vs),
                        i <= vs@.len(),
                        out@.len() == i,
                        forall|j: int| 0 <= j < i ==> (#[trigger] T::exact_view(vs@[j])) is Some,
                        forall|j: int|
                            0 <= j < i ==> T::exact_view(vs@[j]) == Some(
                                (#[trigger] out@[j]).deep_view(),
                            ),
                    decreases vs@.len() - i,
                {
                    match T::downcast(&vs[i]) {
                        Some(x) => out.push(x),
                        None => {
                            assert(T::exact_view(vs@[i as int]) is None);
                            return None;
                        },
                    }
                    i = i + 1;
                }
                assert(out.deep_view() =~= Seq::new(
                    vs@.len(),
                    |k: int| T::exact_view(vs@[k])->Some_0,
                ));
                Some(out)
            },
            _ => None,
        }
    }

    fn clone_prop(&self) -> (r: Value) {
        let mut out: Vec<Value> = Vec::new();
        let mut i: usize = 0;
        while i < self.len()
            invariant
                i <= self@.len(),
                out@.len() == i,
                forall|j: int|
                    0 <= j < i ==> T::exact_view(#[trigger] out@[j]) == Some(self@[j].deep_view()),
            decreases self@.len() - i,
        {
            out.push(self[i].clone_prop());
            i = i + 1;
        }
        let r = Value::List(out);
        assert(Self::exact_view(r)->Some_0 =~= self.deep_view());
        r
    }

    fn set(&mut self, value: &Value) -> (r: Result<(), PropertyError>) {
        match value {
            Value::List(vs) => {
                let ghost pre = self@;
                let n: usize = if self.len() < vs.len() {
                    self.len()
                } else {
                    vs.len()
                };
                let mut i: usize = 0;
                while i < n
                    invariant
                        *value == Value::List(*vs),
                        pre == old(self)@,
                        n <= self@.len(),
                        n <= vs@.len(),
                        n == pre.len() || n == vs@.len(),
                        i <= n,
                        self@.len() == pre.len(),
                        forall|j: int| 0 <= j < i ==> #[trigger] pre[j].accepts(vs@[j]),
                        forall|j: int|
                            0 <= j < i ==> (#[trigger] self@[j]).deep_view() == pre[j].applied(vs@[j]),
                        forall|j: int| i <= j < pre.len() ==> #[trigger] self@[j] == pre[j],
                        first_refusal_is_composite(pre, vs@, 0) == first_refusal_is_composite(
                            pre,
                            vs@,
                            i as int,
                        ),
                    decreases n - i,
                {
                    let res = self[i].set(&vs[i]);
                    match res {
                        Ok(()) => {},
                        Err(e) => {
                            assert(!pre[i as int].accepts(vs@[i as int]));
                            return Err(e);
                        },
                    }
                    i = i + 1;
                }
                assert(self.deep_view() =~= old(self).applied(*value));
                Ok(())
            },
            _ => Err(PropertyError::NotProperties { actual: value.type_label() }),
        }
    }

    fn apply(&mut self, value: &Value) -> (r: Result<(), PropertyError>) {
        Property::set(self, value)
    }

    fn is_sequence(&self) -> (r: bool) {
        true
    }

    fn serializable(&self) -> (r: Serializable<'_, Self>) {
        Serializable::Owned(SeqSerializer { property: self })
    }

    proof fn lemma_clone_apply_identity(&self, v: Value) {
        let vs = v->List_0@;
        assert(all_exact::<T>(vs));
        let e = Seq::new(vs.len(), |k: int| T::exact_view(vs[k])->Some_0);
        assert(e == self.deep_view());
        assert(e.len() == vs.len());
        assert(vs.len() == self@.len());
        assert forall|i: int| 0 <= i < self@.len() implies self@[i].accepts(vs[i])
            && self@[i].applied(vs[i]) == self@[i].deep_view() by {
            assert(e[i] == self.deep_view()[i]);
            assert(T::exact_view(vs[i]) is Some);
            self@[i].lemma_clone_apply_identity(vs[i]);
        }
        assert(self.applied(v) =~= self.deep_view());
    }
}

impl<T: Property> Properties for Vec<T> {
    type Item = T;

    open spec fn items(&self) -> Seq<T> {
        self@
    }

    open spec fn shape() -> PropertiesType {
        PropertiesType::Sequence
    }

    fn prop(&self, _name: &str) -> (r: Option<&T>) {
        None
    }

    fn prop_mut(&mut self, _name: &str) -> (r: Option<&mut T>) {
        None
    }

    fn prop_with_index(&self, index: usize) -> (r: Option<&T>) {
        if index < self.len() {
            Some(&self[index])
        } else {
            None
        }
    }

    fn prop_with_index_mut(&mut self, index: usize) -> (r: Option<&mut T>) {
        if index < self.len() {
            Some(&mut self[index])
        } else {
            None
        }
    }

    fn prop_name(&self, _index: usize) -> (r: Option<&'static str>) {
        None
    }

    fn prop_len(&self) -> (r: usize) {
        self.len()
    }

    fn iter_props(&self) -> (r: PropertyIter<'_, Self>) {
        PropertyIter { props: self, index: 0 }
    }

    fn properties_type(&self) -> (r: PropertiesType) {
        PropertiesType::Sequence
    }
}

/// Patching a vector from a list of another length keeps the vector's length:
/// positions that both have are patched, the rest of the vector is untouched,
/// and the rest of the list is ignored.
pub proof fn lemma_positional_patch<T: Property>(target: Vec<T>, vs: Vec<Value>)
    requires
        target.accepts(Value::List(vs)),
    ensures
        target.applied(Value::List(vs)).len() == target@.len(),
        forall|i: int|
            0 <= i < target@.len() && i < vs@.len() ==> #[trigger] target.applied(
                Value::List(vs),
            )[i] == target@[i].applied(vs@[i]),
        forall|i: int|
            vs@.len() <= i < target@.len() ==> #[trigger] target.applied(Value::List(vs))[i]
                == target@[i].deep_view(),
{
}

} // verus!
