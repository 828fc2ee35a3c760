use numeric_gallery::results::{push_below_or, EnumError, ErrorWithDropData, SimpleError};

#[test]
fn push_below_or_appends_under_the_limit_and_hands_out_the_good_value() {
    let mut v = vec![1u32, 2];
    let r: Result<i32, SimpleError> = push_below_or(&mut v, 3, 3, 333, SimpleError);
    assert_eq!(r, Ok(333));
    assert_eq!(v, vec![1, 2, 3]);
}

#[test]
fn push_below_or_fails_at_the_limit_and_hands_out_the_bad_value() {
    let mut v = vec![1u32, 2, 3];
    let r: Result<i32, EnumError> = push_below_or(&mut v, 4, 3, 333, EnumError::OutOfMemory);
    assert_eq!(r, Err(EnumError::OutOfMemory));
    assert_eq!(v, vec![1, 2, 3]);
}

#[test]
fn push_below_or_fails_above_the_limit() {
    let mut v = vec![1u32, 2, 3];
    let r: Result<(), ()> = push_below_or(&mut v, 4, 1, (), ());
    assert_eq!(r, Err(()));
    assert_eq!(v, vec![1, 2, 3]);
}

#[test]
fn push_below_or_with_limit_zero_never_appends() {
    let mut v: Vec<u32> = Vec::new();
    let r: Result<String, ErrorWithDropData> =
        push_below_or(&mut v, 9, 0, String::new(), ErrorWithDropData::Other);
    assert_eq!(r, Err(ErrorWithDropData::Other));
    assert!(v.is_empty());
}

#[test]
fn push_below_or_carries_owned_values_through() {
    let mut v: Vec<u32> = Vec::new();
    let r: Result<String, ErrorWithDropData> = push_below_or(
        &mut v,
        9,
        1,
        "done".to_string(),
        ErrorWithDropData::String("Out of memory".to_string()),
    );
    assert_eq!(r, Ok("done".to_string()));
    assert_eq!(v, vec![9]);
    let r: Result<String, ErrorWithDropData> = push_below_or(
        &mut v,
        10,
        1,
        "done".to_string(),
        ErrorWithDropData::String("Out of memory".to_string()),
    );
    assert_eq!(r, Err(ErrorWithDropData::String("Out of memory".to_string())));
    assert_eq!(v, vec![9]);
}
