use numeric_gallery::vec_push::{push_below, push_simple, push_with_capacity_check};

fn full_vec() -> Vec<u32> {
    let mut v = Vec::with_capacity(3);
    while v.len() < v.capacity() {
        v.push(v.len() as u32);
    }
    v
}

#[test]
fn simple_push_appends_and_grows() {
    let mut v = full_vec();
    let before = v.clone();
    push_simple(&mut v, 77);
    assert_eq!(v.len(), before.len() + 1);
    assert_eq!(&v[..before.len()], &before[..]);
    assert_eq!(v[before.len()], 77);
}

#[test]
fn simple_push_on_an_empty_vector() {
    let mut v = Vec::new();
    push_simple(&mut v, 1);
    push_simple(&mut v, 2);
    assert_eq!(v, vec![1, 2]);
}

#[test]
fn push_below_appends_while_under_the_limit() {
    let mut v = Vec::new();
    assert!(push_below(&mut v, 5, 2));
    assert!(push_below(&mut v, 6, 2));
    assert!(!push_below(&mut v, 7, 2));
    assert_eq!(v, vec![5, 6]);
}

#[test]
fn push_below_with_limit_zero_never_appends() {
    let mut v = Vec::new();
    assert!(!push_below(&mut v, 5, 0));
    assert!(v.is_empty());
}

#[test]
fn checked_push_succeeds_with_spare_capacity() {
    let mut v = Vec::with_capacity(4);
    let capacity = v.capacity();
    assert!(push_with_capacity_check(&mut v, 10));
    assert!(push_with_capacity_check(&mut v, 20));
    assert_eq!(v, vec![10, 20]);
    assert_eq!(v.capacity(), capacity);
}

#[test]
fn checked_push_fails_without_spare_capacity() {
    let mut v = full_vec();
    let before = v.clone();
    let capacity = v.capacity();
    assert!(!push_with_capacity_check(&mut v, 10));
    assert_eq!(v, before);
    assert_eq!(v.capacity(), capacity);
}

#[test]
fn checked_push_fails_on_a_vector_that_never_allocated() {
    let mut v: Vec<u32> = Vec::new();
    assert!(!push_with_capacity_check(&mut v, 1));
    assert!(v.is_empty());
}

#[test]
fn checked_push_succeeds_exactly_while_capacity_is_left() {
    let mut v = Vec::with_capacity(5);
    let capacity = v.capacity();
    let mut pushed = 0usize;
    while push_with_capacity_check(&mut v, pushed as u32) {
        pushed += 1;
        assert_eq!(v.len(), pushed);
    }
    assert_eq!(pushed, capacity);
    assert_eq!(v.len(), capacity);
    assert_eq!(v.capacity(), capacity);
}
