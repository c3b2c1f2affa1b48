//! The per-type table of operations that every handle dispatches through.
use crate::erased::{type_token, debug_text, display_text, held_type, held_type_ref, ErasedBox, ErasedRef, TypeKey};
use crate::variant::Variant;
use crate::variant_ref::VariantRef;
use crate::variant_ref_mut::VariantRefMut;
use std::any::TypeId;
use std::fmt::{Debug, Display};
use vstd::prelude::*;

verus! {

/// The operations that a table performs on a value of its own type.
///
/// Each operation is handed storage that holds a value of the type whose token is
/// `type_token()`, which is also the identity of the table that holds them.
pub(crate) trait TypeOps {
    /// The identity token of the type that these operations are bound to.
    spec fn type_token(&self) -> TypeId;

    /// The identity token of the type that these operations are bound to.
    fn type_id(&self) -> (r: TypeId)
        ensures
            r == self.type_token(),
    ;

    /// A fresh allocation holding a duplicate of the value.
    fn clone_value(&self, value: &ErasedRef<'_>) -> (r: ErasedBox)
        requires
            held_type_ref(*value) == self.type_token(),
        ensures
            held_type(r) == self.type_token(),
    ;

    /// The value's display text.
    fn display_value(&self, value: &ErasedRef<'_>) -> (r: String)
        requires
            held_type_ref(*value) == self.type_token(),
    ;

    /// The value's debug text.
    fn debug_value(&self, value: &ErasedRef<'_>) -> (r: String)
        requires
            held_type_ref(*value) == self.type_token(),
    ;
}

/// The operations of the table built for `T`.
pub(crate) struct OpsFor<T> {
    key: TypeKey<T>,
}

impl<T: Clone + Display + Debug + 'static> TypeOps for OpsFor<T> {
    closed spec fn type_token(&self) -> TypeId {
        self.key.id()
    }

    fn type_id(&self) -> (r: TypeId) {
        self.key.type_id()
    }

    fn clone_value(&self, value: &ErasedRef<'_>) -> (r: ErasedBox) {
        let v: &T = value.cast(&self.key).unwrap();
        ErasedBox::new(v.clone(), &self.key)
    }

    fn display_value(&self, value: &ErasedRef<'_>) -> (r: String) {
        let v: &T = value.cast(&self.key).unwrap();
        display_text(v)
    }

    fn debug_value(&self, value: &ErasedRef<'_>) -> (r: String) {
        let v: &T = value.cast(&self.key).unwrap();
        debug_text(v)
    }
}

/// The operations of one table, behind a trait object.
///
/// Verus does not relate a trait object to the value it was made from: right after
/// `VTable { ops }` it cannot show that the field equals `ops`, and a `&dyn TypeOps`
/// returned by a function loses what its contract says of it. So the box is opaque,
/// and each dynamic call goes through one trusted function that makes only that call;
/// the `OpsFor<T>` implementations it reaches are verified against `TypeOps`.
#[verifier::external_body]
pub(crate) struct BoxedOps {
    inner: Box<dyn TypeOps>,
}

/// The type token that the boxed operations are bound to.
pub uninterp spec fn ops_token(b: BoxedOps) -> TypeId;

impl BoxedOps {
    /// Relies on `Box::new` and the unsizing to `Box<dyn TypeOps>`: the box holds `ops`.
    #[verifier::external_body]
    fn new<T: Clone + Display + Debug + 'static>(ops: OpsFor<T>) -> (r: BoxedOps)
        ensures
            ops_token(r) == ops.type_token(),
    {
        BoxedOps { inner: Box::new(ops) }
    }

    /// Relies on dynamic dispatch: the call reaches the `OpsFor<T>` that `new` boxed,
    /// whose verified `type_id` returns its own token.
    #[verifier::external_body]
    fn type_id(&self) -> (r: TypeId)
        ensures
            r == ops_token(*self),
    {
        self.inner.type_id()
    }

    /// Relies on dynamic dispatch: the call reaches the `OpsFor<T>` that `new` boxed,
    /// whose verified `clone_value` meets the contract of `TypeOps::clone_value`.
    #[verifier::external_body]
    fn clone_value(&self, value: &ErasedRef<'_>) -> (r: ErasedBox)
        requires
            held_type_ref(*value) == ops_token(*self),
        ensures
            held_type(r) == ops_token(*self),
    {
        self.inner.clone_value(value)
    }

    /// Relies on dynamic dispatch: the call reaches the `OpsFor<T>` that `new` boxed,
    /// whose verified `display_value` meets the contract of `TypeOps::display_value`.
    #[verifier::external_body]
    fn display_value(&self, value: &ErasedRef<'_>) -> (r: String)
        requires
            held_type_ref(*value) == ops_token(*self),
    {
        self.inner.display_value(value)
    }

    /// Relies on dynamic dispatch: the call reaches the `OpsFor<T>` that `new` boxed,
    /// whose verified `debug_value` meets the contract of `TypeOps::debug_value`.
    #[verifier::external_body]
    fn debug_value(&self, value: &ErasedRef<'_>) -> (r: String)
        requires
            held_type_ref(*value) == ops_token(*self),
    {
        self.inner.debug_value(value)
    }
}

/// The dispatch table of one concrete type: its identity token and its operations.
///
/// The token is the one that the operations are bound to, so the table cannot
/// claim one type and act on another. Destruction needs no entry of its own: an
/// owning handle's storage drops the value it holds, with the value's own drop
/// logic, when the handle is dropped.
pub struct VTable {
    ops: BoxedOps,
}

impl VTable {
    /// The identity token of the table's type.
    pub closed spec fn identity(&self) -> TypeId {
        ops_token(self.ops)
    }

    /// The table of `T`.
    pub fn new<T: Clone + Display + Debug + 'static>() -> (r: VTable)
        ensures
            r.identity() == type_token::<T>(),
    {
        VTable { ops: BoxedOps::new(OpsFor { key: TypeKey::<T>::new() }) }
    }

    /// Moves `value` to the heap behind an owning handle over this table; `None`
    /// when this is not the table of `T`.
    pub fn variant<T: 'static>(&self, value: T) -> (r: Option<Variant<'_>>)
        ensures
            r.is_some() == (self.identity() == type_token::<T>()),
            r matches Some(h) ==> h.table() == self && h.value::<T>() == value,
    {
        Variant::new(value, self)
    }

    /// A shared handle over `value` through this table; `None` when this is not the
    /// table of `T`.
    pub fn variant_ref<'a, T: 'static>(&'a self, value: &'a T) -> (r: Option<VariantRef<'a>>)
        ensures
            r.is_some() == (self.identity() == type_token::<T>()),
            r matches Some(h) ==> h.table() == self && h.value::<T>() == *value,
    {
        VariantRef::new(value, self)
    }

    /// An exclusive handle over `value` through this table; `None` when this is not
    /// the table of `T`.
    pub fn variant_ref_mut<'a, T: 'static>(&'a self, value: &'a mut T) -> (r: Option<
        VariantRefMut<'a>,
    >)
        ensures
            r.is_some() == (self.identity() == type_token::<T>()),
            r matches Some(h) ==> h.table() == self && h.value::<T>() == *old(value),
    {
        VariantRefMut::new(value, self)
    }

    /// The identity token of the table's type.
    pub fn type_id(&self) -> (r: TypeId)
        ensures
            r == self.identity(),
    {
        self.ops.type_id()
    }

    /// Whether the table's type is the one that `key` stands for.
    pub fn is_type<U: 'static>(&self, key: &TypeKey<U>) -> (r: bool)
        ensures
            r == (self.identity() == key.id()),
    {
        key.matches(&self.ops.type_id())
    }

    /// A duplicate of the value in `value`, in a fresh allocation.
    pub fn clone_value(&self, value: &ErasedRef<'_>) -> (r: ErasedBox)
        requires
            held_type_ref(*value) == self.identity(),
        ensures
            held_type(r) == self.identity(),
    {
        self.ops.clone_value(value)
    }

    /// The display text of the value in `value`.
    pub fn display_value(&self, value: &ErasedRef<'_>) -> (r: String)
        requires
            held_type_ref(*value) == self.identity(),
    {
        self.ops.display_value(value)
    }

    /// The debug text of the value in `value`.
    pub fn debug_value(&self, value: &ErasedRef<'_>) -> (r: String)
        requires
            held_type_ref(*value) == self.identity(),
    {
        self.ops.debug_value(value)
    }
}

} // verus!
