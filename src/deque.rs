use vstd::prelude::*;
use std::collections::VecDeque;
use crate::list::{all_accept, all_exact, applied_positionally, first_refusal_is_composite};
use crate::property::{Property, SeqSerializer, Serializable};
use crate::value::{PropertyError, Value};

verus! {

impl<T: Property> Property for VecDeque<T> {
    open spec fn exact_view(v: Value) -> Option<Seq<<T as DeepView>::V>> {
        match v {
            Value::List(vs) => if all_exact::<T>(vs@) {
                Some(Seq::new(vs@.len(), |i: int| T::exact_view(vs@[i])->Some_0))
            } else {
                None
            },
            _ => None,
        }
    }

    open spec fn accepts(&self, v: Value) -> bool {
        match v {
            Value::List(vs) => all_accept(self@, vs@),
            _ => false,
        }
    }

    open spec fn applied(&self, v: Value) -> Seq<<T as DeepView>::V> {
        match v {
            Value::List(vs) => applied_positionally(self@, vs@),
            _ => self.deep_view(),
        }
    }

    open spec fn refuses_as_composite(&self, v: Value) -> bool {
        match v {
            Value::List(vs) => first_refusal_is_composite(self@, vs@, 0),
            _ => true,
        }
    }

    open spec fn sequence_shaped() -> bool {
        true
    }

    open spec fn label_spec() -> &'static str {
        "alloc::collections::vec_deque::VecDeque"
    }

    fn type_label(&self) -> (r: &'static str) {
        "alloc::collections::vec_deque::VecDeque"
    }

    fn downcast(value: &Value) -> (r: Option<VecDeque<T>>) {
        match value {
            Value::List(vs) => {
                let mut out: VecDeque<T> = VecDeque::new();
                let mut i: usize = 0;
                while i < vs.len()
                    invariant
                        *value == Value::List(*vs),
                        i <= vs@.len(),
                        out@.len() == i,
                        forall|j: int| 0 <= j < i ==> (#[trigger] T::exact_view(vs@[j])) is Some,
                        forall|j: int|
                            0 <= j < i ==> T::exact_view(vs@[j]) == Some(
                                (#[trigger] out@[j]).deep_view(),
                            ),
                    decreases vs@.len() - i,
                {
                    match T::downcast(&vs[i]) {
                        Some(x) => out.push_back(x),
                        None => {
                            assert(T::exact_view(vs@[i as int]) is None);
                            return None;
                        },
                    }
                    i = i + 1;
                }
                assert(out.deep_view() =~= Seq::new(
                    vs@.len(),
                    |k: int| T::exact_view(vs@[k])->Some_0,
                ));
                Some(out)
            },
            _ => None,
        }
    }

    fn clone_prop(&self) -> (r: Value) {
        let mut out: Vec<Value> = Vec::new();
        let mut i: usize = 0;
        while i < self.len()
            invariant
                i <= self@.len(),
                out@.len() == i,
                forall|j: int|
                    0 <= j < i ==> T::exact_view(#[trigger] out@[j]) == Some(self@[j].deep_view()),
            decreases self@.len() - i,
        {
            out.push(self[i].clone_prop());
            i = i + 1;
        }
        let r = Value::List(out);
        assert(Self::exact_view(r)->Some_0 =~= self.deep_view());
        r
    }

    /// Patches the elements in place by taking each from the front and
    /// putting it back at the end, so that a full turn restores the order.
    fn set(&mut self, value: &Value) -> (r: Result<(), PropertyError>) {
        match value {
            Value::List(vs) => {
                let ghost pre = self@;
                let ghost mut done: Seq<T> = Seq::empty();
                let n: usize = self.len();
                let mut k: usize = 0;
                let mut err: Option<PropertyError> = None;
                while k < n
                    invariant
                        *value == Value::List(*vs),
                        pre == old(self)@,
                        n == pre.len(),
                        k <= n,
                        done.len() == k,
                        self@ == pre.subrange(k as int, n as int) + done,
                        err is None ==> forall|j: int|
                            0 <= j < k && j < vs@.len() ==> #[trigger] pre[j].accepts(vs@[j]),
                        err is None ==> forall|j: int|
                            0 <= j < k ==> (#[trigger] done[j]).deep_view() == (if j < vs@.len() {
                                pre[j].applied(vs@[j])
                            } else {
                                pre[j].deep_view()
                            }),
                        err is None ==> first_refusal_is_composite(pre, vs@, 0)
                            == first_refusal_is_composite(pre, vs@, k as int),
                        err matches Some(e) ==> !all_accept(pre, vs@) && (e is NotProperties
                            <==> first_refusal_is_composite(pre, vs@, 0)),
                    decreases n - k,
                {
                    assert(self@[0] == pre[k as int]);
                    let mut x = self.pop_front().unwrap();
                    if err.is_none() && k < vs.len() {
                        match x.set(&vs[k]) {
                            Ok(()) => {},
                            Err(e) => {
                                assert(!pre[k as int].accepts(vs@[k as int]));
                                err = Some(e);
                            },
                        }
                    }
                    proof {
                        done = done.push(x);
                    }
                    self.push_back(x);
                    assert(self@ =~= pre.subrange(k + 1, n as int) + done);
                    k = k + 1;
                }
                assert(self@ =~= done);
                match err {
                    None => {
                        assert(self.deep_view() =~= old(self).applied(*value));
                        Ok(())
                    },
                    Some(e) => Err(e),
                }
            },
            _ => Err(PropertyError::NotProperties { actual: value.type_label() }),
        }
    }

    fn apply(&mut self, value: &Value) -> (r: Result<(), PropertyError>) {
        Property::set(self, value)
    }

    fn is_sequence(&self) -> (r: bool) {
        true
    }

    fn serializable(&self) -> (r: Serializable<'_, Self>) {
        Serializable::Owned(SeqSerializer { property: self })
    }

    proof fn lemma_clone_apply_identity(&self, v: Value) {
        let vs = v->List_0@;
        assert(all_exact::<T>(vs));
        let e = Seq::new(vs.len(), |k: int| T::exact_view(vs[k])->Some_0);
        assert(e == self.deep_view());
        assert(e.len() == vs.len());
        assert(vs.len() == self@.len());
        assert forall|i: int| 0 <= i < self@.len() implies self@[i].accepts(vs[i])
            && self@[i].applied(vs[i]) == self@[i].deep_view() by {
            assert(e[i] == self.deep_view()[i]);
            assert(T::exact_view(vs[i]) is Some);
            self@[i].lemma_clone_apply_identity(vs[i]);
        }
        assert(self.applied(v) =~= self.deep_view());
    }
}

} // verus!
