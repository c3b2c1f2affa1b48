//! An owning handle over a heap-allocated value of an erased type.
use crate::erased::{value_as, held_value, type_token, held_type, ErasedBox, TypeKey};
use crate::variant_ref::VariantRef;
use crate::variant_ref_mut::VariantRefMut;
use crate::vtable::VTable;
use std::any::TypeId;
use vstd::prelude::*;

verus! {

/// The sole owner of a heap-allocated value, together with the table of its type.
///
/// Dropping the handle drops the value and frees its allocation, once; `clone`
/// is the only other way to obtain a handle, and it allocates anew.
pub struct Variant<'a> {
    data: ErasedBox,
    vtable: &'a VTable,
}

impl<'a> Variant<'a> {
    #[verifier::type_invariant]
    spec fn inv(self) -> bool {
        held_type(self.data) == self.vtable.identity()
    }

    /// The table that the handle dispatches through.
    pub closed spec fn table(&self) -> &'a VTable {
        self.vtable
    }

    /// The identity token of the owned value's type.
    pub open spec fn identity(&self) -> TypeId {
        self.table().identity()
    }

    /// A token for the owned value.
    pub closed spec fn value_token(&self) -> int {
        held_value(self.data)
    }

    /// The owned value, read as a `U`.
    pub open spec fn value<U>(&self) -> U {
        value_as::<U>(self.value_token())
    }

    /// Moves `value` to the heap behind a handle dispatching through `vtable`;
    /// `None` when `vtable` is not the table of `T`.
    pub fn new<T: 'static>(value: T, vtable: &'a VTable) -> (r: Option<Self>)
        ensures
            r.is_some() == (vtable.identity() == type_token::<T>()),
            r matches Some(h) ==> h.table() == vtable && h.value::<T>() == value,
    {
        let key = TypeKey::<T>::new();
        Self::new_with(value, &key, vtable)
    }

    /// As `new`, with the key of `T` at hand: `Some` exactly when `vtable` is the
    /// table of the type that `key` stands for.
    pub fn new_with<T: 'static>(value: T, key: &TypeKey<T>, vtable: &'a VTable) -> (r: Option<Self>)
        ensures
            r.is_some() == (vtable.identity() == key.id()),
            r matches Some(h) ==> h.table() == vtable && h.value::<T>() == value,
    {
        if vtable.is_type(key) {
            Some(Variant { data: ErasedBox::new(value, key), vtable })
        } else {
            None
        }
    }

    /// The table that the handle dispatches through.
    pub fn vtable(&self) -> (r: &'a VTable)
        ensures
            r == self.table(),
    {
        self.vtable
    }

    /// Whether the owned value is of the type that `key` stands for.
    pub fn is_type<U: 'static>(&self, key: &TypeKey<U>) -> (r: bool)
        ensures
            r == (self.identity() == key.id()),
    {
        self.vtable.is_type(key)
    }

    /// Whether the owned value is a `T`.
    pub fn is<T: 'static>(&self) -> (r: bool)
        ensures
            r == (self.identity() == type_token::<T>()),
    {
        let key = TypeKey::<T>::new();
        self.is_type(&key)
    }

    /// A shared view of the owned value, through the same table, without copying it.
    pub fn as_ref(&self) -> (r: VariantRef<'_>)
        ensures
            r.table() == self.table(),
            r.value_token() == self.value_token(),
    {
        proof {
            use_type_invariant(self);
        }
        VariantRef::from_storage(self.data.borrow(), self.vtable)
    }

    /// An exclusive view of the owned value, through the same table, without copying it.
    pub fn as_mut(&mut self) -> (r: VariantRefMut<'_>)
        ensures
            r.table() == old(self).table(),
            r.value_token() == old(self).value_token(),
            final(self).table() == old(self).table(),
    {
        proof {
            use_type_invariant(&*self);
        }
        let vtable = self.vtable;
        VariantRefMut::from_storage(self.data.borrow_mut(), vtable)
    }

    /// The owned value as a `U`, when it is of the type that `key` stands for.
    pub fn downcast_ref_with<U: 'static>(&self, key: &TypeKey<U>) -> (r: Option<&U>)
        ensures
            r.is_some() == (self.identity() == key.id()),
            r matches Some(x) ==> *x == self.value::<U>(),
    {
        self.as_ref().downcast_ref_with(key)
    }

    /// The owned value as a `T`, when it is one.
    pub fn downcast_ref<T: 'static>(&self) -> (r: Option<&T>)
        ensures
            r.is_some() == (self.identity() == type_token::<T>()),
            r matches Some(x) ==> *x == self.value::<T>(),
    {
        let key = TypeKey::<T>::new();
        self.downcast_ref_with(&key)
    }

    /// The owned value as a `U`; the caller has established that it is one.
    pub fn downcast_ref_unchecked<U: 'static>(&self) -> (r: &U)
        requires
            self.identity() == type_token::<U>(),
        ensures
            *r == self.value::<U>(),
    {
        self.downcast_ref::<U>().unwrap()
    }

    /// The owned value as a mutable `U`, when it is of the type that `key` stands for.
    pub fn downcast_mut_with<U: 'static>(&mut self, key: &TypeKey<U>) -> (r: Option<&mut U>)
        ensures
            r.is_some() == (old(self).identity() == key.id()),
            final(self).table() == old(self).table(),
            r matches Some(x) ==> *x == old(self).value::<U>()
                && final(self).value::<U>() == *final(x),
            r is None ==> *final(self) == *old(self),
    {
        proof {
            use_type_invariant(&*self);
        }
        self.data.cast_mut(key)
    }

    /// The owned value as a mutable `T`, when it is one.
    pub fn downcast_mut<T: 'static>(&mut self) -> (r: Option<&mut T>)
        ensures
            r.is_some() == (old(self).identity() == type_token::<T>()),
            final(self).table() == old(self).table(),
            r matches Some(x) ==> *x == old(self).value::<T>()
                && final(self).value::<T>() == *final(x),
            r is None ==> *final(self) == *old(self),
    {
        let key = TypeKey::<T>::new();
        self.downcast_mut_with(&key)
    }

    /// The owned value as a mutable `U`; the caller has established that it is one.
    pub fn downcast_mut_unchecked<U: 'static>(&mut self) -> (r: &mut U)
        requires
            old(self).identity() == type_token::<U>(),
        ensures
            *r == old(self).value::<U>(),
            final(self).value::<U>() == *final(r),
            final(self).table() == old(self).table(),
    {
        match self.downcast_mut::<U>() {
            Some(x) => x,
            None => unreached(),
        }
    }

    /// A new handle, through the same table, owning a fresh allocation that holds
    /// a duplicate of the value made by the table's clone operation.
    pub fn clone(&self) -> (r: Variant<'a>)
        ensures
            r.table() == self.table(),
    {
        proof {
            use_type_invariant(self);
        }
        let data = self.vtable.clone_value(&self.data.borrow());
        Variant { data, vtable: self.vtable }
    }

    /// The text that the value's type displays for it.
    pub fn to_string(&self) -> (r: String) {
        self.as_ref().to_string()
    }

    /// The text that the value's type writes for it in debug output.
    pub fn to_debug_string(&self) -> (r: String) {
        self.as_ref().to_debug_string()
    }
}

} // verus!
