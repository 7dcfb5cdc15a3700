use pierce::Inline;
use pierce::Pierce;
use pierce::StableDeref;

#[test]
fn deref_matches_nested_deref_address() {
    let p = Pierce::new(Box::new(vec![1i32, 2, 3]));
    let direct: &[i32] = &***p.borrow_outer();
    assert!(std::ptr::eq(p.deref(), direct));
    assert_eq!(p.deref(), direct);
}

#[test]
fn deref_idempotent_same_address() {
    let p = Pierce::new(Box::new(String::from("abc")));
    let r1 = p.deref();
    let r2 = p.deref();
    assert!(std::ptr::eq(r1, r2));
    assert_eq!(r1, "abc");
}

#[test]
fn clone_derefs_to_equal_value() {
    let p = Pierce::new(Box::new(Box::new(9u8)));
    let q = p.clone();
    assert_eq!(*p.deref(), *q.deref());
}

#[test]
fn into_outer_reproduces_target() {
    let p = Pierce::new(Box::new(Box::new(7i64)));
    let before = *p.deref();
    let o = p.into_outer();
    assert_eq!(**o, before);
}

#[test]
fn borrow_outer_reaches_same_value() {
    let pierce = Pierce::new(Box::new(Box::new(5i32)));
    let outer: &Box<Box<i32>> = pierce.borrow_outer();
    let inner: &Box<i32> = outer.stable_deref();
    let target: &i32 = inner.stable_deref();
    assert_eq!(*target, 5);
    assert_eq!(*target, *pierce.deref());
}

#[test]
fn heap_nesting_needs_no_pin() {
    let p = Pierce::new(Box::new(Box::new(1u32)));
    assert!(p.is_cached());
}

#[test]
fn self_referential_nesting_is_pinned() {
    let p = Pierce::new(Inline(Inline(2u32)));
    assert!(!p.is_cached());
}

#[test]
fn mixed_nesting_needs_no_pin() {
    let p = Pierce::new(Inline(Box::new(3u16)));
    assert!(p.is_cached());
    let o = p.into_outer();
    assert_eq!(*o.0, 3);
}

#[test]
fn moved_wrapper_still_derefs() {
    let p = Pierce::new(Inline(Inline(41u64)));
    assert!(!p.is_cached());
    let moved = p;
    assert_eq!(*moved.deref(), 41);
}

#[test]
fn zero_sized_target() {
    let p = Pierce::new(Inline(Inline(())));
    assert!(!p.is_cached());
    assert_eq!(*p.deref(), ());
}

#[test]
fn indexes_through_nested_array_handles() {
    let p = Pierce::new(Box::new(vec![1i32, 2, 3]));
    assert_eq!(p.deref()[1], 2);
}

#[test]
fn double_wrap_single_values() {
    let b: Box<Box<Box<i32>>> = Box::new(Box::new(Box::new(42)));
    let once = Pierce::new(b);
    let twice = Pierce::new(once);
    assert_eq!(*twice.deref(), 42);
}

#[test]
fn default_wraps_default_outer() {
    let p: Pierce<Box<Box<i32>>> = Default::default();
    assert_eq!(*p.deref(), 0);
    assert!(p.is_cached());
}

#[test]
fn vec_stable_deref_is_its_slice() {
    let v = vec![4u8, 5];
    let s: &[u8] = v.stable_deref();
    assert_eq!(s, &[4u8, 5][..]);
    assert!(std::ptr::eq(s, v.as_slice()));
}
