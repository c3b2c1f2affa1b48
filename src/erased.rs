//! Type-erased storage and type identity tokens.
//!
//! Everything that has to look at a value through `std::any` lives here, behind a
//! handful of small trusted functions. Verus does not accept `dyn Any`, so the three
//! storage shapes are opaque structs; what the rest of the crate knows of each is
//! the identity of the type it holds (`held_type`, `held_type_ref`, `held_type_mut`)
//! and a token for the value it holds (`held_value`, `held_value_ref`,
//! `held_value_mut`), which `value_as::<U>` reads back as a `U`.
//!
//! `type_token::<T>()` is the identity token of `T` in contracts; `TypeId::of`
//! returns it. A `TypeKey<T>` carries that token as a value, for callers that check
//! identity against a key they hold.
use std::any::{Any, TypeId};
use std::fmt::{Debug, Display};
use std::marker::PhantomData;
use vstd::prelude::*;

verus! {

#[verifier::external_type_specification]
#[verifier::external_body]
pub struct ExTypeId(TypeId);

/// The identity token of the type `T`: one fixed token for each type.
pub closed spec fn type_token<T: ?Sized>() -> TypeId {
    arbitrary::<(PhantomData<T>, TypeId)>().1
}

/// Relies on `TypeId::of`: it returns the identity token of `T`, the same one on
/// every call.
pub assume_specification<T: ?Sized + 'static>[ TypeId::of::<T> ]() -> (r: TypeId)
    ensures
        r == type_token::<T>(),
;

/// Relies on `TypeId`'s `==`: two tokens compare equal exactly when they are the same value.
#[verifier::external_body]
fn same_type_id(a: &TypeId, b: &TypeId) -> (r: bool)
    ensures
        r == (*a == *b),
{
    *a == *b
}

/// The value that a value token stands for, read as a `U`.
pub closed spec fn value_as<U>(token: int) -> U {
    (arbitrary::<spec_fn(int) -> U>())(token)
}

/// The identity token of the type `T`, carried together with `T` itself.
pub struct TypeKey<T: ?Sized> {
    id: TypeId,
    marker: PhantomData<T>,
}

impl<T: ?Sized> TypeKey<T> {
    #[verifier::type_invariant]
    spec fn inv(self) -> bool {
        self.id == type_token::<T>()
    }
}

impl<T: ?Sized + 'static> TypeKey<T> {
    /// The identity token of `T`.
    pub closed spec fn id(&self) -> TypeId {
        self.id
    }

    /// The key of `T`.
    pub fn new() -> (r: Self)
        ensures
            r.id() == type_token::<T>(),
    {
        TypeKey { id: TypeId::of::<T>(), marker: PhantomData }
    }

    /// The identity token of `T`.
    pub fn type_id(&self) -> (r: TypeId)
        ensures
            r == self.id(),
            r == type_token::<T>(),
    {
        proof {
            use_type_invariant(self);
        }
        self.id
    }

    /// Whether this key's token is `id`.
    pub fn matches(&self, id: &TypeId) -> (r: bool)
        ensures
            r == (self.id() == *id),
    {
        same_type_id(&self.id, id)
    }
}

/// A heap allocation holding one value of a type that is known only at run time.
#[verifier::external_body]
pub struct ErasedBox {
    inner: Box<dyn Any>,
}

/// A shared borrow of one value of a type that is known only at run time.
#[verifier::external_body]
pub struct ErasedRef<'a> {
    inner: &'a dyn Any,
}

/// An exclusive borrow of one value of a type that is known only at run time.
#[verifier::external_body]
pub struct ErasedMut<'a> {
    inner: &'a mut dyn Any,
}

/// The identity token of the type of the value that a box holds.
pub uninterp spec fn held_type(b: ErasedBox) -> TypeId;

/// The identity token of the type of the value that a shared borrow reaches.
pub uninterp spec fn held_type_ref(r: ErasedRef) -> TypeId;

/// The identity token of the type of the value that an exclusive borrow reaches.
pub uninterp spec fn held_type_mut(m: ErasedMut) -> TypeId;

/// A token for the value that a box holds.
pub uninterp spec fn held_value(b: ErasedBox) -> int;

/// A token for the value that a shared borrow reaches.
pub uninterp spec fn held_value_ref(r: ErasedRef) -> int;

/// A token for the value that an exclusive borrow reaches.
pub uninterp spec fn held_value_mut(m: ErasedMut) -> int;

impl ErasedBox {
    /// Relies on `Box::new` and the unsizing to `Box<dyn Any>`: the box then holds a `T`.
    #[verifier::external_body]
    pub fn new<T: 'static>(value: T, key: &TypeKey<T>) -> (r: ErasedBox)
        ensures
            held_type(r) == key.id(),
            value_as::<T>(held_value(r)) == value,
    {
        ErasedBox { inner: Box::new(value) }
    }

    /// Relies on `Box`'s deref: the borrow reaches the value in the box.
    #[verifier::external_body]
    pub fn borrow(&self) -> (r: ErasedRef<'_>)
        ensures
            held_type_ref(r) == held_type(*self),
            held_value_ref(r) == held_value(*self),
    {
        ErasedRef { inner: &*self.inner }
    }

    /// Relies on `Box`'s mutable deref: the borrow reaches the value in the box, and
    /// what is written through it keeps its type.
    #[verifier::external_body]
    pub fn borrow_mut(&mut self) -> (r: ErasedMut<'_>)
        ensures
            held_type_mut(r) == held_type(*old(self)),
            held_value_mut(r) == held_value(*old(self)),
            held_type(*final(self)) == held_type(*old(self)),
        no_unwind
    {
        ErasedMut { inner: &mut *self.inner }
    }

    /// Relies on `<dyn Any>::downcast_mut`: `Some` exactly when the boxed value is a
    /// `U`; what is written through the result keeps the type.
    #[verifier::external_body]
    pub fn cast_mut<U: 'static>(&mut self, key: &TypeKey<U>) -> (r: Option<&mut U>)
        ensures
            r.is_some() == (held_type(*old(self)) == key.id()),
            held_type(*final(self)) == held_type(*old(self)),
            r matches Some(x) ==> *x == value_as::<U>(held_value(*old(self)))
                && value_as::<U>(held_value(*final(self))) == *final(x),
            r is None ==> *final(self) == *old(self),
        no_unwind
    {
        self.inner.downcast_mut::<U>()
    }
}

impl<'a> ErasedRef<'a> {
    /// Relies on the unsizing of `&T` to `&dyn Any`: the borrow reaches a `T`.
    #[verifier::external_body]
    pub fn new<T: 'static>(value: &'a T, key: &TypeKey<T>) -> (r: ErasedRef<'a>)
        ensures
            held_type_ref(r) == key.id(),
            value_as::<T>(held_value_ref(r)) == *value,
    {
        ErasedRef { inner: value }
    }

    /// Relies on `<dyn Any>::downcast_ref`: `Some` exactly when the value is a `U`.
    #[verifier::external_body]
    pub fn cast<U: 'static>(&self, key: &TypeKey<U>) -> (r: Option<&'a U>)
        ensures
            r.is_some() == (held_type_ref(*self) == key.id()),
            r matches Some(x) ==> *x == value_as::<U>(held_value_ref(*self)),
    {
        self.inner.downcast_ref::<U>()
    }
}

impl<'a> ErasedMut<'a> {
    /// Relies on the unsizing of `&mut T` to `&mut dyn Any`: the borrow reaches a `T`.
    #[verifier::external_body]
    pub fn new<T: 'static>(value: &'a mut T, key: &TypeKey<T>) -> (r: ErasedMut<'a>)
        ensures
            held_type_mut(r) == key.id(),
            value_as::<T>(held_value_mut(r)) == *old(value),
    {
        ErasedMut { inner: value }
    }

    /// Relies on the reborrow of `&mut dyn Any` as `&dyn Any`: the same value, shared.
    #[verifier::external_body]
    pub fn borrow(&self) -> (r: ErasedRef<'_>)
        ensures
            held_type_ref(r) == held_type_mut(*self),
            held_value_ref(r) == held_value_mut(*self),
    {
        ErasedRef { inner: &*self.inner }
    }

    /// Relies on `<dyn Any>::downcast_mut`: `Some` exactly when the value is a `U`;
    /// what is written through the result keeps the type.
    #[verifier::external_body]
    pub fn cast_mut<U: 'static>(&mut self, key: &TypeKey<U>) -> (r: Option<&mut U>)
        ensures
            r.is_some() == (held_type_mut(*old(self)) == key.id()),
            held_type_mut(*final(self)) == held_type_mut(*old(self)),
            r matches Some(x) ==> *x == value_as::<U>(held_value_mut(*old(self)))
                && value_as::<U>(held_value_mut(*final(self))) == *final(x),
            r is None ==> *final(self) == *old(self),
        no_unwind
    {
        self.inner.downcast_mut::<U>()
    }
}

/// Relies on `T`'s `Display`: the text that `{}` writes for the value.
#[verifier::external_body]
pub fn display_text<T: Display>(value: &T) -> (r: String) {
    format!("{}", value)
}

/// Relies on `T`'s `Debug`: the text that `{:?}` writes for the value.
#[verifier::external_body]
pub fn debug_text<T: Debug>(value: &T) -> (r: String) {
    format!("{:?}", value)
}

} // verus!
