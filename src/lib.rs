//! Type erasure through an explicit table of per-type operations.
//!
//! A [`VTable`] is built once per concrete type. It wraps values of that type into
//! an owning [`Variant`], a shared [`VariantRef`] or an exclusive [`VariantRefMut`];
//! all three answer identity checks and downcasts, and duplicate and format the
//! value through the table.
pub mod erased;
pub mod variant;
pub mod variant_ref;
pub mod variant_ref_mut;
pub mod vtable;

pub use erased::TypeKey;
pub use variant::Variant;
pub use variant_ref::VariantRef;
pub use variant_ref_mut::VariantRefMut;
pub use vtable::VTable;
