//! An exclusive, non-owning handle over a value of an erased type.
use crate::erased::{value_as, held_value_mut, type_token, held_type_mut, ErasedMut, TypeKey};
use crate::variant_ref::VariantRef;
use crate::vtable::VTable;
use std::any::TypeId;
use vstd::prelude::*;

verus! {

/// An exclusive borrow of a value, together with the table of the value's type.
///
/// The handle owns nothing: dropping it runs none of the table's operations.
pub struct VariantRefMut<'a> {
    data: ErasedMut<'a>,
    vtable: &'a VTable,
}

impl<'a> VariantRefMut<'a> {
    #[verifier::type_invariant]
    spec fn inv(self) -> bool {
        held_type_mut(self.data) == self.vtable.identity()
    }

    /// The table that the handle dispatches through.
    pub closed spec fn table(&self) -> &'a VTable {
        self.vtable
    }

    /// The identity token of the borrowed value's type.
    pub open spec fn identity(&self) -> TypeId {
        self.table().identity()
    }

    /// A token for the borrowed value.
    pub closed spec fn value_token(&self) -> int {
        held_value_mut(self.data)
    }

    /// The borrowed value, read as a `U`.
    pub open spec fn value<U>(&self) -> U {
        value_as::<U>(self.value_token())
    }

    /// A handle over `value` dispatching through `vtable`; `None` when `vtable` is not
    /// the table of `T`.
    pub fn new<T: 'static>(value: &'a mut T, vtable: &'a VTable) -> (r: Option<Self>)
        ensures
            r.is_some() == (vtable.identity() == type_token::<T>()),
            r matches Some(h) ==> h.table() == vtable && h.value::<T>() == *old(value),
    {
        let key = TypeKey::<T>::new();
        Self::new_with(value, &key, vtable)
    }

    /// As `new`, with the key of `T` at hand: `Some` exactly when `vtable` is the
    /// table of the type that `key` stands for.
    pub fn new_with<T: 'static>(value: &'a mut T, key: &TypeKey<T>, vtable: &'a VTable) -> (r: Option<Self>)
        ensures
            r.is_some() == (vtable.identity() == key.id()),
            r matches Some(h) ==> h.table() == vtable && h.value::<T>() == *old(value),
    {
        if vtable.is_type(key) {
            Some(VariantRefMut { data: ErasedMut::new(value, key), vtable })
        } else {
            None
        }
    }

    /// A handle over exclusively borrowed storage, which must hold a value of the
    /// table's type.
    pub(crate) fn from_storage(data: ErasedMut<'a>, vtable: &'a VTable) -> (r: Self)
        requires
            held_type_mut(data) == vtable.identity(),
        ensures
            r.table() == vtable,
            r.value_token() == held_value_mut(data),
    {
        VariantRefMut { data, vtable }
    }

    /// The table that the handle dispatches through.
    pub fn vtable(&self) -> (r: &'a VTable)
        ensures
            r == self.table(),
    {
        self.vtable
    }

    /// Whether the borrowed value is of the type that `key` stands for.
    pub fn is_type<U: 'static>(&self, key: &TypeKey<U>) -> (r: bool)
        ensures
            r == (self.identity() == key.id()),
    {
        self.vtable.is_type(key)
    }

    /// Whether the borrowed value is a `T`.
    pub fn is<T: 'static>(&self) -> (r: bool)
        ensures
            r == (self.identity() == type_token::<T>()),
    {
        let key = TypeKey::<T>::new();
        self.is_type(&key)
    }

    /// A shared view of the same value, through the same table.
    pub fn as_ref(&self) -> (r: VariantRef<'_>)
        ensures
            r.table() == self.table(),
            r.value_token() == self.value_token(),
    {
        proof {
            use_type_invariant(self);
        }
        VariantRef::from_storage(self.data.borrow(), self.vtable)
    }

    /// The borrowed value as a `U`, when it is of the type that `key` stands for.
    pub fn downcast_ref_with<U: 'static>(&self, key: &TypeKey<U>) -> (r: Option<&U>)
        ensures
            r.is_some() == (self.identity() == key.id()),
            r matches Some(x) ==> *x == self.value::<U>(),
    {
        self.as_ref().downcast_ref_with(key)
    }

    /// The borrowed value as a `T`, when it is one.
    pub fn downcast_ref<T: 'static>(&self) -> (r: Option<&T>)
        ensures
            r.is_some() == (self.identity() == type_token::<T>()),
            r matches Some(x) ==> *x == self.value::<T>(),
    {
        let key = TypeKey::<T>::new();
        self.downcast_ref_with(&key)
    }

    /// The borrowed value as a `U`; the caller has established that it is one.
    pub fn downcast_ref_unchecked<U: 'static>(&self) -> (r: &U)
        requires
            self.identity() == type_token::<U>(),
        ensures
            *r == self.value::<U>(),
    {
        self.downcast_ref::<U>().unwrap()
    }

    /// The borrowed value as a mutable `U`, when it is of the type that `key` stands for.
    pub fn downcast_mut_with<U: 'static>(&mut self, key: &TypeKey<U>) -> (r: Option<&mut U>)
        ensures
            r.is_some() == (old(self).identity() == key.id()),
            final(self).table() == old(self).table(),
            r matches Some(x) ==> *x == old(self).value::<U>()
                && final(self).value::<U>() == *final(x),
            r is None ==> *final(self) == *old(self),
    {
        proof {
            use_type_invariant(&*self);
        }
        self.data.cast_mut(key)
    }

    /// The borrowed value as a mutable `T`, when it is one.
    pub fn downcast_mut<T: 'static>(&mut self) -> (r: Option<&mut T>)
        ensures
            r.is_some() == (old(self).identity() == type_token::<T>()),
            final(self).table() == old(self).table(),
            r matches Some(x) ==> *x == old(self).value::<T>()
                && final(self).value::<T>() == *final(x),
            r is None ==> *final(self) == *old(self),
    {
        let key = TypeKey::<T>::new();
        self.downcast_mut_with(&key)
    }

    /// The borrowed value as a mutable `U`; the caller has established that it is one.
    pub fn downcast_mut_unchecked<U: 'static>(&mut self) -> (r: &mut U)
        requires
            old(self).identity() == type_token::<U>(),
        ensures
            *r == old(self).value::<U>(),
            final(self).value::<U>() == *final(r),
            final(self).table() == old(self).table(),
    {
        match self.downcast_mut::<U>() {
            Some(x) => x,
            None => unreached(),
        }
    }

    /// The text that the value's type displays for it.
    pub fn to_string(&self) -> (r: String) {
        self.as_ref().to_string()
    }

    /// The text that the value's type writes for it in debug output.
    pub fn to_debug_string(&self) -> (r: String) {
        self.as_ref().to_debug_string()
    }
}

} // verus!
