//! A shared, non-owning handle over a value of an erased type.
use crate::erased::{value_as, held_value_ref, type_token, held_type_ref, ErasedRef, TypeKey};
use crate::vtable::VTable;
use std::any::TypeId;
use vstd::prelude::*;

verus! {

/// A shared borrow of a value, together with the table of the value's type.
///
/// The handle owns nothing: dropping it runs none of the table's operations.
pub struct VariantRef<'a> {
    data: ErasedRef<'a>,
    vtable: &'a VTable,
}

impl<'a> VariantRef<'a> {
    #[verifier::type_invariant]
    spec fn inv(self) -> bool {
        held_type_ref(self.data) == self.vtable.identity()
    }

    /// The table that the handle dispatches through.
    pub closed spec fn table(&self) -> &'a VTable {
        self.vtable
    }

    /// The identity token of the borrowed value's type.
    pub open spec fn identity(&self) -> TypeId {
        self.table().identity()
    }

    /// A token for the borrowed value.
    pub closed spec fn value_token(&self) -> int {
        held_value_ref(self.data)
    }

    /// The borrowed value, read as a `U`.
    pub open spec fn value<U>(&self) -> U {
        value_as::<U>(self.value_token())
    }

    /// A handle over `value` dispatching through `vtable`; `None` when `vtable` is not
    /// the table of `T`.
    pub fn new<T: 'static>(value: &'a T, vtable: &'a VTable) -> (r: Option<Self>)
        ensures
            r.is_some() == (vtable.identity() == type_token::<T>()),
            r matches Some(h) ==> h.table() == vtable && h.value::<T>() == *value,
    {
        let key = TypeKey::<T>::new();
        Self::new_with(value, &key, vtable)
    }

    /// As `new`, with the key of `T` at hand: `Some` exactly when `vtable` is the
    /// table of the type that `key` stands for.
    pub fn new_with<T: 'static>(value: &'a T, key: &TypeKey<T>, vtable: &'a VTable) -> (r: Option<Self>)
        ensures
            r.is_some() == (vtable.identity() == key.id()),
            r matches Some(h) ==> h.table() == vtable && h.value::<T>() == *value,
    {
        if vtable.is_type(key) {
            Some(VariantRef { data: ErasedRef::new(value, key), vtable })
        } else {
            None
        }
    }

    /// A handle over borrowed storage, which must hold a value of the table's type.
    pub(crate) fn from_storage(data: ErasedRef<'a>, vtable: &'a VTable) -> (r: Self)
        requires
            held_type_ref(data) == vtable.identity(),
        ensures
            r.table() == vtable,
            r.value_token() == held_value_ref(data),
    {
        VariantRef { data, vtable }
    }

    /// The table that the handle dispatches through.
    pub fn vtable(&self) -> (r: &'a VTable)
        ensures
            r == self.table(),
    {
        self.vtable
    }

    /// Whether the borrowed value is of the type that `key` stands for.
    pub fn is_type<U: 'static>(&self, key: &TypeKey<U>) -> (r: bool)
        ensures
            r == (self.identity() == key.id()),
    {
        self.vtable.is_type(key)
    }

    /// Whether the borrowed value is a `T`.
    pub fn is<T: 'static>(&self) -> (r: bool)
        ensures
            r == (self.identity() == type_token::<T>()),
    {
        let key = TypeKey::<T>::new();
        self.is_type(&key)
    }

    /// The borrowed value as a `U`, when it is of the type that `key` stands for.
    pub fn downcast_ref_with<U: 'static>(&self, key: &TypeKey<U>) -> (r: Option<&'a U>)
        ensures
            r.is_some() == (self.identity() == key.id()),
            r matches Some(x) ==> *x == self.value::<U>(),
    {
        proof {
            use_type_invariant(self);
        }
        self.data.cast(key)
    }

    /// The borrowed value as a `T`, when it is one.
    pub fn downcast_ref<T: 'static>(&self) -> (r: Option<&'a T>)
        ensures
            r.is_some() == (self.identity() == type_token::<T>()),
            r matches Some(x) ==> *x == self.value::<T>(),
    {
        let key = TypeKey::<T>::new();
        self.downcast_ref_with(&key)
    }

    /// The borrowed value as a `U`; the caller has established that it is one.
    pub fn downcast_ref_unchecked<U: 'static>(&self) -> (r: &'a U)
        requires
            self.identity() == type_token::<U>(),
        ensures
            *r == self.value::<U>(),
    {
        self.downcast_ref::<U>().unwrap()
    }

    /// The text that the value's type displays for it.
    pub fn to_string(&self) -> (r: String) {
        proof {
            use_type_invariant(self);
        }
        self.vtable.display_value(&self.data)
    }

    /// The text that the value's type writes for it in debug output.
    pub fn to_debug_string(&self) -> (r: String) {
        proof {
            use_type_invariant(self);
        }
        self.vtable.debug_value(&self.data)
    }
}

} // verus!
