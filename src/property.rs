use vstd::prelude::*;
use crate::value::{PropertiesType, PropertyError, Value};

verus! {

/// An adapter that serializes a sequence-shaped value element by element.
pub struct SeqSerializer<'a, P> {
    pub property: &'a P,
}

/// What a serializer is given: a borrowed value, or an owned adapter built
/// over one.
pub enum Serializable<'a, P> {
    Borrowed(&'a P),
    Owned(SeqSerializer<'a, P>),
}

/// A value that can be named, cloned into erased form, recovered from erased
/// form, and patched from an erased value.
///
/// Contracts speak of the value's deep view: the integer itself for integers,
/// the characters for a string, the sequence of element views for a vector.
pub trait Property: DeepView + Sized {
    /// What `v` holds as a value of this exact type, if it holds one.
    spec fn exact_view(v: Value) -> Option<<Self as DeepView>::V>;

    /// Whether `v` can be applied onto `self`.
    spec fn accepts(&self, v: Value) -> bool;

    /// What `self` becomes once `v` is applied onto it.
    spec fn applied(&self, v: Value) -> <Self as DeepView>::V;

    /// Whether a refusal of `v` is that of a composite target given a
    /// value that is not composite.
    spec fn refuses_as_composite(&self, v: Value) -> bool;

    /// Whether values of this type are sequence-shaped.
    spec fn sequence_shaped() -> bool;

    /// The name of this type: the same for every value of it.
    spec fn label_spec() -> &'static str;

    /// A best-effort name of the concrete type, for diagnostics.
    fn type_label(&self) -> (r: &'static str)
        ensures
            r == Self::label_spec(),
    ;

    /// Recovers a value of this exact type from erased form; no coercion.
    fn downcast(value: &Value) -> (r: Option<Self>)
        ensures
            r is Some <==> Self::exact_view(*value) is Some,
            r matches Some(x) ==> Self::exact_view(*value) == Some(x.deep_view()),
    ;

    /// A deep, independently owned clone in erased form.
    fn clone_prop(&self) -> (r: Value)
        ensures
            Self::exact_view(r) == Some(self.deep_view()),
    ;

    /// Patches `self` from `value`.
    ///
    /// A refused value leaves a scalar target as it was, and a sequence
    /// target too when the value is not a list. A sequence target given a
    /// list keeps the elements patched before the refused one.
    fn set(&mut self, value: &Value) -> (r: Result<(), PropertyError>)
        ensures
            r is Ok <==> old(self).accepts(*value),
            r is Ok ==> final(self).deep_view() == old(self).applied(*value),
            r matches Err(e) ==> (e is NotProperties <==> old(self).refuses_as_composite(*value)),
            r is Err && !(Self::sequence_shaped() && *value is List) ==> {
                &&& *final(self) == *old(self)
                &&& r->Err_0 == if Self::sequence_shaped() {
                    (PropertyError::NotProperties { actual: value.label_spec() })
                } else {
                    (PropertyError::TypeMismatch {
                        expected: Self::label_spec(),
                        actual: value.label_spec(),
                    })
                }
            },
    ;

    /// The public patch entry point; behaves as `set`.
    fn apply(&mut self, value: &Value) -> (r: Result<(), PropertyError>)
        ensures
            r is Ok <==> old(self).accepts(*value),
            r is Ok ==> final(self).deep_view() == old(self).applied(*value),
            r matches Err(e) ==> (e is NotProperties <==> old(self).refuses_as_composite(*value)),
            r is Err && !(Self::sequence_shaped() && *value is List) ==> {
                &&& *final(self) == *old(self)
                &&& r->Err_0 == if Self::sequence_shaped() {
                    (PropertyError::NotProperties { actual: value.label_spec() })
                } else {
                    (PropertyError::TypeMismatch {
                        expected: Self::label_spec(),
                        actual: value.label_spec(),
                    })
                }
            },
    ;

    /// Whether the value is sequence-shaped.
    fn is_sequence(&self) -> (r: bool)
        ensures
            r == Self::sequence_shaped(),
    ;

    /// The view handed to a serializer: the value itself for scalars, an
    /// adapter that replays the elements for sequences.
    fn serializable(&self) -> (r: Serializable<'_, Self>)
        ensures
            Self::sequence_shaped() ==> r == Serializable::Owned(SeqSerializer { property: self }),
            !Self::sequence_shaped() ==> r == Serializable::Borrowed(self),
    ;

    /// Applying an erased clone of a value onto it leaves it unchanged.
    proof fn lemma_clone_apply_identity(&self, v: Value)
        requires
            Self::exact_view(v) == Some(self.deep_view()),
        ensures
            self.accepts(v),
            self.applied(v) == self.deep_view(),
    ;
}

/// A composite value: its sub-values can be looked up by position, and, for
/// struct-like values, by name.
pub trait Properties: Property {
    /// The type of the sub-values.
    type Item: Property;

    /// The sub-values, in position order.
    spec fn items(&self) -> Seq<Self::Item>;

    /// The shape of every value of this type.
    spec fn shape() -> PropertiesType;

    /// Looks up a sub-value by field name; absent for sequence-shaped values.
    fn prop(&self, name: &str) -> (r: Option<&Self::Item>)
        ensures
            Self::shape() == PropertiesType::Sequence ==> r is None,
    ;

    /// Looks up a sub-value by field name for mutation; absent for
    /// sequence-shaped values.
    fn prop_mut(&mut self, name: &str) -> (r: Option<&mut Self::Item>)
        ensures
            Self::shape() == PropertiesType::Sequence ==> r is None && *final(self) == *old(self),
    ;

    /// Looks up a sub-value by position; absent past the end.
    fn prop_with_index(&self, index: usize) -> (r: Option<&Self::Item>)
        ensures
            r is Some <==> index < self.items().len(),
            r matches Some(x) ==> *x == self.items()[index as int],
    ;

    /// Looks up a sub-value by position for mutation; absent past the end.
    /// What is written through the reference lands at that position.
    fn prop_with_index_mut(&mut self, index: usize) -> (r: Option<&mut Self::Item>)
        ensures
            r is Some <==> index < old(self).items().len(),
            r matches Some(x) ==> *x == old(self).items()[index as int] && final(self).items()
                == old(self).items().update(index as int, *final(x)),
            r is None ==> final(self).items() == old(self).items(),
    ;

    /// The field name at a position; absent for sequence-shaped values.
    fn prop_name(&self, index: usize) -> (r: Option<&'static str>)
        ensures
            Self::shape() == PropertiesType::Sequence ==> r is None,
    ;

    /// The number of sub-values.
    fn prop_len(&self) -> (r: usize)
        ensures
            r == self.items().len(),
    ;

    /// A cursor at the first sub-value.
    fn iter_props(&self) -> (r: PropertyIter<'_, Self>)
        ensures
            r.props == self,
            r.index == 0,
    ;

    /// The shape tag.
    fn properties_type(&self) -> (r: PropertiesType)
        ensures
            r == Self::shape(),
    ;
}

/// A cursor that walks the sub-values of a composite value by position.
pub struct PropertyIter<'a, P> {
    pub props: &'a P,
    pub index: usize,
}

impl<'a, P: Properties> PropertyIter<'a, P> {
    /// A cursor at the first sub-value of `props`.
    pub fn new(props: &'a P) -> (r: Self)
        ensures
            r.props == props,
            r.index == 0,
    {
        PropertyIter { props, index: 0 }
    }

    /// How many sub-values are still to come.
    pub open spec fn remaining(&self) -> int {
        self.props.items().len() - self.index
    }

    /// Yields the sub-value under the cursor and moves past it, or yields
    /// nothing once every sub-value has been yielded.
    pub fn next(&mut self) -> (r: Option<&'a P::Item>)
        ensures
            final(self).props == old(self).props,
            old(self).index < old(self).props.items().len() ==> {
                &&& r == Some(&old(self).props.items()[old(self).index as int])
                &&& final(self).index == old(self).index + 1
            },
            old(self).index >= old(self).props.items().len() ==> {
                &&& r is None
                &&& final(self).index == old(self).index
            },
    {
        if self.index < self.props.prop_len() {
            let r = self.props.prop_with_index(self.index);
            self.index = self.index + 1;
            r
        } else {
            None
        }
    }
}

/// Walks every sub-value of `props` with a cursor, in position order, until
/// the cursor yields nothing.
pub fn collect_props<P: Properties>(props: &P) -> (r: Vec<&P::Item>)
    ensures
        r@.len() == props.items().len(),
        forall|i: int| 0 <= i < r@.len() ==> *#[trigger] r@[i] == props.items()[i],
{
    let mut it = props.iter_props();
    let mut out: Vec<&P::Item> = Vec::new();
    loop
        invariant
            it.props == props,
            it.index <= props.items().len(),
            out@.len() == it.index,
            forall|i: int| 0 <= i < out@.len() ==> *#[trigger] out@[i] == props.items()[i],
        ensures
            out@.len() == props.items().len(),
            forall|i: int| 0 <= i < out@.len() ==> *#[trigger] out@[i] == props.items()[i],
        decreases it.remaining(),
    {
        match it.next() {
            Some(x) => out.push(x),
            None => break,
        }
    }
    out
}

} // verus!
