use std::any::TypeId;
use std::cell::Cell;
use std::fmt::{Debug, Display, Error as FmtError, Formatter};
use std::rc::Rc;

use erasure::{TypeKey, VTable, Variant, VariantRef, VariantRefMut};

#[derive(Clone, Debug)]
struct Counted(Rc<Cell<usize>>, i64);

impl Drop for Counted {
    fn drop(&mut self) {
        self.0.set(self.0.get() + 1);
    }
}

impl Display for Counted {
    fn fmt(&self, f: &mut Formatter) -> Result<(), FmtError> {
        f.write_str("counted ")?;
        Display::fmt(&self.1, f)
    }
}

#[test]
fn identity_of_each_handle() {
    let vtable = VTable::new::<i64>();
    let owned = vtable.variant(7_i64).unwrap();
    assert!(owned.is::<i64>());
    assert!(!owned.is::<u64>());
    assert!(!owned.is::<&str>());

    let value = 7_i64;
    let shared = vtable.variant_ref(&value).unwrap();
    assert!(shared.is::<i64>());
    assert!(!shared.is::<i32>());

    let mut other = 7_i64;
    let exclusive = vtable.variant_ref_mut(&mut other).unwrap();
    assert!(exclusive.is::<i64>());
    assert!(!exclusive.is::<String>());
}

#[test]
fn identity_by_key() {
    let vtable = VTable::new::<String>();
    let key = TypeKey::<String>::new();
    let wrong = TypeKey::<&str>::new();
    assert!(vtable.is_type(&key));
    assert!(!vtable.is_type(&wrong));
    assert_eq!(vtable.type_id(), TypeId::of::<String>());
    assert_eq!(key.type_id(), TypeId::of::<String>());
    assert!(key.matches(&TypeId::of::<String>()));
    assert!(!key.matches(&TypeId::of::<&str>()));

    let owned = Variant::new_with(String::from("x"), &key, &vtable).unwrap();
    assert!(owned.is_type(&key));
    assert!(!owned.is_type(&wrong));
}

#[test]
fn downcast_round_trip() {
    let vtable = VTable::new::<String>();
    let owned = vtable.variant(String::from("text")).unwrap();
    assert_eq!(Some(&String::from("text")), owned.downcast_ref::<String>());
    assert_eq!(None, owned.downcast_ref::<&str>());

    let vtable = VTable::new::<u8>();
    let owned = vtable.variant(255_u8).unwrap();
    assert_eq!(Some(&255_u8), owned.downcast_ref::<u8>());
    assert_eq!(None, owned.downcast_ref::<i8>());
}

#[test]
fn wrong_table_is_refused() {
    let vtable = VTable::new::<i64>();
    assert!(vtable.variant(5_u64).is_none());
    let value = 5_u64;
    assert!(vtable.variant_ref(&value).is_none());
    let mut other = 5_u64;
    assert!(vtable.variant_ref_mut(&mut other).is_none());
    assert!(Variant::new_with(5_u64, &TypeKey::<u64>::new(), &vtable).is_none());
    assert!(VariantRef::new(&value, &vtable).is_none());
    assert!(VariantRefMut::new(&mut other, &vtable).is_none());
}

#[test]
fn duplicate_is_independent() {
    let vtable = VTable::new::<i64>();
    let mut origin = vtable.variant(10_i64).unwrap();
    let mut copy = origin.clone();
    *copy.downcast_mut::<i64>().unwrap() = 20;
    assert_eq!(Some(&10_i64), origin.downcast_ref::<i64>());
    assert_eq!(Some(&20_i64), copy.downcast_ref::<i64>());

    *origin.downcast_mut::<i64>().unwrap() = 30;
    assert_eq!(Some(&30_i64), origin.downcast_ref::<i64>());
    assert_eq!(Some(&20_i64), copy.downcast_ref::<i64>());
    assert!(origin.downcast_mut::<u64>().is_none());
}

#[test]
fn owned_value_is_dropped_once() {
    let vtable = VTable::new::<Counted>();
    let count = Rc::new(Cell::new(0_usize));
    {
        let first = vtable.variant(Counted(count.clone(), 1)).unwrap();
        let second = first.clone();
        let third = second.clone();
        assert_eq!(count.get(), 0);
        drop(second);
        assert_eq!(count.get(), 1);
        drop(third);
        drop(first);
    }
    assert_eq!(count.get(), 3);
}

#[test]
fn formatting_matches_the_type() {
    let vtable = VTable::new::<String>();
    let owned = vtable.variant(String::from("a\tb")).unwrap();
    assert_eq!("a\tb", owned.to_string());
    assert_eq!("\"a\\tb\"", owned.to_debug_string());

    let vtable = VTable::new::<Counted>();
    let count = Rc::new(Cell::new(0_usize));
    let owned = vtable.variant(Counted(count.clone(), 4)).unwrap();
    assert_eq!("counted 4", owned.to_string());
    assert!(owned.to_debug_string().starts_with("Counted("));
    assert!(owned.as_ref().to_debug_string().ends_with(", 4)"));
}

#[test]
fn views_see_the_owned_value() {
    let vtable = VTable::new::<i64>();
    let mut owned = vtable.variant(3_i64).unwrap();
    assert_eq!(Some(&3_i64), owned.as_ref().downcast_ref::<i64>());
    {
        let mut view = owned.as_mut();
        assert_eq!(Some(&3_i64), view.downcast_ref::<i64>());
        assert_eq!(Some(&3_i64), view.as_ref().downcast_ref::<i64>());
        *view.downcast_mut::<i64>().unwrap() = 9;
        assert_eq!("9", view.to_string());
    }
    assert_eq!(Some(&9_i64), owned.downcast_ref::<i64>());
    assert_eq!(Some(&9_i64), owned.as_ref().downcast_ref::<i64>());
    assert!(owned.as_ref().vtable().is_type(&TypeKey::<i64>::new()));
}

#[test]
fn borrowed_handles_own_nothing() {
    let vtable = VTable::new::<Counted>();
    let count = Rc::new(Cell::new(0_usize));
    let mut values = [Counted(count.clone(), 1), Counted(count.clone(), 2)];
    {
        let shared = vtable.variant_ref(&values[0]).unwrap();
        assert_eq!(1, shared.downcast_ref::<Counted>().unwrap().1);
        let copy = shared.vtable().variant(shared.downcast_ref::<Counted>().unwrap().clone());
        drop(copy);
        assert_eq!(count.get(), 1);
    }
    {
        let mut exclusive = vtable.variant_ref_mut(&mut values[1]).unwrap();
        exclusive.downcast_mut::<Counted>().unwrap().1 = 5;
    }
    assert_eq!(count.get(), 1);
    assert_eq!(1, values[0].1);
    assert_eq!(5, values[1].1);
}

#[test]
fn unchecked_downcasts() {
    let key = TypeKey::<i64>::new();
    let vtable = VTable::new::<i64>();
    let mut owned = vtable.variant(1234_i64).unwrap();
    assert_eq!(1234_i64, *owned.downcast_ref_unchecked::<i64>());
    *owned.downcast_mut_unchecked::<i64>() += 1;
    assert_eq!(Some(&1235_i64), owned.downcast_ref_with(&key));
    assert!(owned.downcast_mut_with(&TypeKey::<u8>::new()).is_none());

    let value = 6_i64;
    let shared = vtable.variant_ref(&value).unwrap();
    assert_eq!(6_i64, *shared.downcast_ref_unchecked::<i64>());

    let mut slot = 8_i64;
    let mut exclusive = VariantRefMut::new_with(&mut slot, &key, &vtable).unwrap();
    *exclusive.downcast_mut_unchecked::<i64>() *= 2;
    assert_eq!(16_i64, *exclusive.downcast_ref_unchecked::<i64>());
    assert!(exclusive.downcast_ref_with(&TypeKey::<u64>::new()).is_none());
    drop(exclusive);
    assert_eq!(16_i64, slot);
}
