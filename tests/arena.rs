use std::collections::HashSet;
use std::rc::Rc;
use stored_value::{
    store_const_value, store_const_value_as, store_value, store_value_as, AccessError, ConstValue,
    Runtime, StoredValue,
};

const NUMBER: u64 = 10;
const TEXT: u64 = 11;
const CAPABILITY: u64 = 12;
const OTHER: u64 = 13;

#[test]
fn runtime_starts_empty_in_root_scope() {
    let runtime: Runtime<u8> = Runtime::new(42);
    assert_eq!(runtime.id(), 42);
    assert_eq!(runtime.current_scope(), 0);
    assert_eq!(runtime.len(), 0);
}

#[test]
fn insert_records_tag_and_remove_is_idempotent() {
    let mut runtime = Runtime::new(1);
    let k = runtime.insert(7u8, NUMBER);
    assert!(runtime.contains(k));
    assert_eq!(runtime.tag_of(k), Some(NUMBER));
    assert_eq!(runtime.len(), 1);
    assert_eq!(runtime.remove(k), Some(7));
    assert!(!runtime.contains(k));
    assert_eq!(runtime.tag_of(k), None);
    assert_eq!(runtime.len(), 0);
    assert_eq!(runtime.remove(k), None);
    assert_eq!(runtime.len(), 0);
}

#[test]
fn reused_slot_gets_a_new_key() {
    let mut runtime = Runtime::new(1);
    let a = store_value(&mut runtime, 1u32, NUMBER);
    a.dispose(&mut runtime);
    let b = store_value(&mut runtime, 2u32, NUMBER);
    assert_ne!(a.as_const().slot_key(), b.as_const().slot_key());
    assert_ne!(a, b);
    assert_eq!(a.as_const().slot_id().serial, 0);
    assert_eq!(b.as_const().slot_id().serial, 1);
    assert_eq!(runtime.serials_issued(), 2);
    assert_eq!(a.try_get_value(&runtime), None);
    assert_eq!(b.get_value(&runtime), 2);
}

#[test]
fn round_trip_reads_what_was_stored() {
    let mut runtime = Runtime::new(1);
    let v = store_value(&mut runtime, String::from("hello"), TEXT);
    assert_eq!(v.get_value(&runtime), "hello");
    assert_eq!(v.try_get_value(&runtime), Some(String::from("hello")));
    assert_eq!(v.with_value(&runtime, |s: &String| s.len()), 5);
    assert_eq!(v.check_access(&runtime), Ok(()));
}

#[test]
fn disposal_is_final() {
    let mut runtime = Runtime::new(1);
    let v = store_value(&mut runtime, 3i64, NUMBER);
    v.dispose(&mut runtime);
    assert_eq!(v.try_get_value(&runtime), None);
    assert_eq!(v.try_with_value(&runtime, |x: &i64| *x), None);
    assert_eq!(v.try_update_value(&mut runtime, |x: &mut i64| *x += 1), None);
    assert_eq!(v.try_set_value(&mut runtime, 9), Some(9));
    assert_eq!(v.check_access(&runtime), Err(AccessError::Disposed));
    assert_eq!(v.downcast(&runtime, NUMBER), None);
    v.dispose(&mut runtime);
    assert_eq!(runtime.len(), 0);
}

#[test]
fn replacement_then_read() {
    let mut runtime = Runtime::new(1);
    let v = store_value(&mut runtime, 1, NUMBER);
    v.set_value(&mut runtime, 5);
    assert_eq!(v.get_value(&runtime), 5);
    assert_eq!(v.try_set_value(&mut runtime, 6), None);
    assert_eq!(v.get_value(&runtime), 6);
}

#[test]
fn scope_teardown_spares_sibling_scope() {
    let mut runtime = Runtime::new(1);
    runtime.set_scope(1);
    let a = store_value(&mut runtime, 10u16, NUMBER);
    let a2 = store_value(&mut runtime, 11u16, NUMBER);
    runtime.set_scope(2);
    let b = store_value(&mut runtime, 20u16, NUMBER);
    assert_eq!(runtime.current_scope(), 2);
    runtime.dispose_scope(1);
    assert_eq!(a.try_get_value(&runtime), None);
    assert_eq!(a2.try_get_value(&runtime), None);
    assert_eq!(b.get_value(&runtime), 20);
    assert_eq!(runtime.len(), 1);
    runtime.dispose_scope(1);
    assert_eq!(runtime.len(), 1);
    runtime.dispose_scope(2);
    assert_eq!(b.try_get_value(&runtime), None);
    assert_eq!(runtime.len(), 0);
}

#[test]
fn scope_teardown_after_explicit_disposal() {
    let mut runtime = Runtime::new(1);
    runtime.set_scope(3);
    let a = store_value(&mut runtime, 1u8, NUMBER);
    let b = store_value(&mut runtime, 2u8, NUMBER);
    a.dispose(&mut runtime);
    runtime.dispose_scope(3);
    assert_eq!(b.try_get_value(&runtime), None);
    assert_eq!(runtime.len(), 0);
}

#[test]
fn downcast_narrowed_handle_aliases_broad_one() {
    let mut runtime = Runtime::new(1);
    let broad = store_value_as(&mut runtime, String::from("a"), TEXT, CAPABILITY);
    assert_eq!(broad.as_const().type_tag(), CAPABILITY);
    let narrow = broad.downcast(&runtime, TEXT).unwrap();
    assert_eq!(narrow.as_const().type_tag(), TEXT);
    assert_eq!(narrow.as_const().slot_key(), broad.as_const().slot_key());
    assert_eq!(narrow, broad);
    let mut seen = HashSet::new();
    seen.insert(broad);
    assert!(seen.contains(&narrow));
    narrow.update_value(&mut runtime, |s: &mut String| *s = String::from("b"));
    assert_eq!(broad.get_value(&runtime), "b");
}

#[test]
fn downcast_to_other_tag_is_empty() {
    let mut runtime = Runtime::new(1);
    let broad = store_value_as(&mut runtime, String::from("a"), TEXT, CAPABILITY);
    assert_eq!(broad.downcast(&runtime, OTHER), None);
    assert_eq!(broad.downcast(&runtime, CAPABILITY), None);
    assert_eq!(broad.get_value(&runtime), "a");
}

#[test]
fn writer_excludes_other_access() {
    let mut runtime = Runtime::new(1);
    let v = store_value(&mut runtime, 1u32, NUMBER);
    let taken = v.begin_update(&mut runtime);
    assert_eq!(taken, Some(1));
    assert!(runtime.contains(v.as_const().slot_key()));
    assert!(!runtime.is_available(v.as_const().slot_key()));
    assert_eq!(v.check_access(&runtime), Err(AccessError::Borrowed));
    assert_eq!(v.try_update_value(&mut runtime, |x: &mut u32| *x = 100), None);
    assert_eq!(v.try_with_value(&runtime, |x: &u32| *x), None);
    assert_eq!(v.try_get_value(&runtime), None);
    assert_eq!(v.try_set_value(&mut runtime, 7), Some(7));
    assert_eq!(v.begin_update(&mut runtime), None);
    assert_eq!(v.finish_update(&mut runtime, 2), None);
    assert_eq!(v.get_value(&runtime), 2);
    assert!(runtime.is_available(v.as_const().slot_key()));
    assert_eq!(v.finish_update(&mut runtime, 3), Some(3));
    assert_eq!(v.get_value(&runtime), 2);
}

#[test]
fn finish_update_after_disposal_hands_value_back() {
    let mut runtime = Runtime::new(1);
    let v = store_value(&mut runtime, 1u32, NUMBER);
    let taken = v.begin_update(&mut runtime).unwrap();
    v.dispose(&mut runtime);
    assert_eq!(v.finish_update(&mut runtime, taken + 1), Some(2));
    assert_eq!(v.check_access(&runtime), Err(AccessError::Disposed));
}

#[test]
fn handles_of_other_runtimes_are_isolated() {
    let mut first = Runtime::new(1);
    let mut second = Runtime::new(2);
    let a = store_value(&mut first, 10u64, NUMBER);
    let b = store_value(&mut second, 20u64, NUMBER);
    assert_eq!(a.as_const().slot_key(), b.as_const().slot_key());
    assert_ne!(a, b);
    assert_eq!(a.try_get_value(&second), None);
    assert_eq!(a.check_access(&second), Err(AccessError::ForeignRuntime));
    assert_eq!(a.try_set_value(&mut second, 30), Some(30));
    a.dispose(&mut second);
    assert_eq!(b.get_value(&second), 20);
    assert_eq!(a.get_value(&first), 10);
    assert_eq!(a.as_const().runtime_id(), 1);
}

#[test]
fn copies_of_a_handle_are_equal() {
    let mut runtime = Runtime::new(1);
    let a = store_value(&mut runtime, 1u8, NUMBER);
    let b = a;
    assert_eq!(a, b);
    let c = store_value(&mut runtime, 1u8, NUMBER);
    assert_ne!(a, c);
}

#[test]
fn const_value_reads_and_disposes() {
    let mut runtime = Runtime::new(1);
    let c: ConstValue = store_const_value(&mut runtime, vec![1u8, 2, 3], NUMBER);
    assert_eq!(c.get_value(&runtime), vec![1, 2, 3]);
    assert_eq!(c.with_value(&runtime, |v: &Vec<u8>| v.len()), 3);
    assert_eq!(c.try_with_value(&runtime, |v: &Vec<u8>| v[1]), Some(2));
    assert_eq!(c.try_get_value(&runtime), Some(vec![1, 2, 3]));
    c.dispose(&mut runtime);
    assert_eq!(c.try_get_value(&runtime), None);
    assert_eq!(c.check_access(&runtime), Err(AccessError::Disposed));
}

#[test]
fn const_value_new_and_downcast() {
    let mut runtime = Runtime::new(1);
    let c = ConstValue::new(&mut runtime, 5u8, NUMBER);
    assert_eq!(c.type_tag(), NUMBER);
    let broad = store_const_value_as(&mut runtime, 6u8, NUMBER, CAPABILITY);
    let narrow = broad.downcast(&runtime, NUMBER).unwrap();
    assert_eq!(narrow.get_value(&runtime), 6);
    assert_eq!(broad.downcast(&runtime, TEXT), None);
    assert_eq!(c.get_value(&runtime), 5);
}

#[test]
fn stored_value_new_stores() {
    let mut runtime = Runtime::new(1);
    let v = StoredValue::new(&mut runtime, 8u8, NUMBER);
    assert_eq!(v.get_value(&runtime), 8);
    assert_eq!(v.as_const().get_value(&runtime), 8);
}

#[test]
fn runtime_dispose_removes_everything() {
    let mut runtime = Runtime::new(1);
    runtime.set_scope(1);
    let a = store_value(&mut runtime, 1u8, NUMBER);
    runtime.set_scope(2);
    let b = store_value(&mut runtime, 2u8, NUMBER);
    runtime.dispose();
    assert_eq!(runtime.len(), 0);
    assert_eq!(a.try_get_value(&runtime), None);
    assert_eq!(b.check_access(&runtime), Err(AccessError::Disposed));
}

#[test]
fn runtime_cell_operations() {
    let mut runtime = Runtime::new(1);
    let k = runtime.insert(String::from("x"), TEXT);
    assert_eq!(runtime.read(k, |s: &String| s.clone()), Some(String::from("x")));
    assert_eq!(runtime.replace(k, String::from("y")), None);
    assert_eq!(runtime.take(k), Some(String::from("y")));
    assert_eq!(runtime.take(k), None);
    assert_eq!(runtime.read(k, |s: &String| s.len()), None);
    assert_eq!(runtime.replace(k, String::from("z")), Some(String::from("z")));
    assert_eq!(runtime.put_back(k, String::from("w")), None);
    assert_eq!(runtime.put_back(k, String::from("v")), Some(String::from("v")));
    assert_eq!(runtime.remove(k), Some(String::from("w")));
    assert_eq!(runtime.read(k, |s: &String| s.len()), None);
}

#[test]
fn update_value_returns_what_the_closure_gives() {
    let mut runtime = Runtime::new(1);
    let v = store_value(&mut runtime, 4u32, NUMBER);
    let doubled = v.update_value(&mut runtime, |x: &mut u32| {
        *x *= 2;
        *x + 1
    });
    assert_eq!(doubled, 9);
    assert_eq!(v.get_value(&runtime), 8);
}

#[test]
fn shared_values_are_not_copied() {
    let mut runtime = Runtime::new(1);
    let c = store_const_value(&mut runtime, Rc::new(String::from("big")), TEXT);
    let first = c.get_value(&runtime);
    let second = c.get_value(&runtime);
    assert!(Rc::ptr_eq(&first, &second));
    assert_eq!(*first, "big");
}

#[test]
fn const_handles_compare_by_slot() {
    let mut runtime = Runtime::new(1);
    let broad = store_const_value_as(&mut runtime, 1u8, NUMBER, CAPABILITY);
    let narrow = broad.downcast(&runtime, NUMBER).unwrap();
    assert_eq!(broad, narrow);
    let mut seen = HashSet::new();
    seen.insert(broad);
    assert!(seen.contains(&narrow));
    let other = store_const_value(&mut runtime, 1u8, NUMBER);
    assert_ne!(broad, other);
    assert!(!seen.contains(&other));
}

#[test]
fn lent_reader_may_change_the_runtime() {
    let mut runtime = Runtime::new(1);
    let v = store_value(&mut runtime, String::from("seed"), TEXT);
    let old = store_value(&mut runtime, String::from("old"), TEXT);
    let made = v.try_with_value_lent(&mut runtime, |rt: &mut Runtime<String>, s: &String| {
        assert_eq!(v.check_access(rt), Err(AccessError::Borrowed));
        assert_eq!(v.try_get_value(rt), None);
        old.dispose(rt);
        store_value(rt, format!("{}!", s), TEXT)
    });
    let made = made.unwrap();
    assert_eq!(made.get_value(&runtime), "seed!");
    assert_eq!(v.get_value(&runtime), "seed");
    assert_eq!(old.try_get_value(&runtime), None);
}

#[test]
fn lent_reader_of_a_disposed_slot_is_empty() {
    let mut runtime = Runtime::new(1);
    let c = store_const_value(&mut runtime, 3u8, NUMBER);
    assert_eq!(c.try_with_value_lent(&mut runtime, |_rt: &mut Runtime<u8>, x: &u8| *x), Some(3));
    c.dispose(&mut runtime);
    assert_eq!(c.try_with_value_lent(&mut runtime, |_rt: &mut Runtime<u8>, x: &u8| *x), None);
}

#[test]
fn lent_reader_that_disposes_its_own_slot() {
    let mut runtime = Runtime::new(1);
    let v = store_value(&mut runtime, 5u8, NUMBER);
    let got = v.try_with_value_lent(&mut runtime, |rt: &mut Runtime<u8>, x: &u8| {
        v.dispose(rt);
        *x
    });
    assert_eq!(got, Some(5));
    assert_eq!(v.check_access(&runtime), Err(AccessError::Disposed));
    assert_eq!(runtime.len(), 0);
}
