use numeric_gallery::results::ok_is_string::{
    try_push_enum_error, try_push_returning_bool, try_push_returning_data_static_str, try_push_returning_drop_data_other, try_push_returning_drop_data_str, try_push_returning_drop_data_string, try_push_returning_enum_error, try_push_returning_hresult, try_push_returning_ntstatus, try_push_returning_simple_error, try_push_returning_unit, HRESULT, NTSTATUS,
};
use numeric_gallery::results::{EnumError, ErrorWithData, ErrorWithDropData, SimpleError};

fn roomy_string() -> Vec<u32> {
    let mut v = Vec::with_capacity(4);
    v.push(1);
    v
}

fn full_string() -> Vec<u32> {
    let mut v = Vec::with_capacity(2);
    while v.len() < v.capacity() {
        v.push(7);
    }
    v
}

#[test]
fn string_status_codes_have_their_bit_patterns() {
    assert_eq!(HRESULT::E_OUTOFMEMORY as u32, 0x8007000e);
    assert_eq!(NTSTATUS::STATUS_NO_MEMORY as u32, 0xc0000017);
    assert_eq!(HRESULT(HRESULT::E_OUTOFMEMORY), HRESULT(-2147024882));
    assert_eq!(NTSTATUS(NTSTATUS::STATUS_NO_MEMORY), NTSTATUS(-1073741801));
}

#[test]
fn string_bool_with_spare_capacity() {
    let mut v = roomy_string();
    assert!(try_push_returning_bool(&mut v, 9));
    assert_eq!(v, vec![1, 9]);
}

#[test]
fn string_bool_without_spare_capacity() {
    let mut v = full_string();
    let before = v.clone();
    assert!(!try_push_returning_bool(&mut v, 9));
    assert_eq!(v, before);
}

#[test]
fn string_returning_simple_error_with_spare_capacity() {
    let mut v = roomy_string();
    let r: Result<String, SimpleError> = try_push_returning_simple_error(&mut v, 9);
    assert_eq!(r, Ok(String::new()));
    assert_eq!(v, vec![1, 9]);
}

#[test]
fn string_returning_simple_error_without_spare_capacity() {
    let mut v = full_string();
    let before = v.clone();
    let r: Result<String, SimpleError> = try_push_returning_simple_error(&mut v, 9);
    assert_eq!(r, Err(SimpleError));
    assert_eq!(v, before);
}

#[test]
fn string_returning_unit_with_spare_capacity() {
    let mut v = roomy_string();
    let r: Result<String, ()> = try_push_returning_unit(&mut v, 9);
    assert_eq!(r, Ok(String::new()));
    assert_eq!(v, vec![1, 9]);
}

#[test]
fn string_returning_unit_without_spare_capacity() {
    let mut v = full_string();
    let before = v.clone();
    let r: Result<String, ()> = try_push_returning_unit(&mut v, 9);
    assert_eq!(r, Err(()));
    assert_eq!(v, before);
}

#[test]
fn string_returning_hresult_with_spare_capacity() {
    let mut v = roomy_string();
    let r: Result<String, HRESULT> = try_push_returning_hresult(&mut v, 9);
    assert_eq!(r, Ok(String::new()));
    assert_eq!(v, vec![1, 9]);
}

#[test]
fn string_returning_hresult_without_spare_capacity() {
    let mut v = full_string();
    let before = v.clone();
    let r: Result<String, HRESULT> = try_push_returning_hresult(&mut v, 9);
    assert_eq!(r, Err(HRESULT(-2147024882)));
    assert_eq!(v, before);
}

#[test]
fn string_returning_ntstatus_with_spare_capacity() {
    let mut v = roomy_string();
    let r: Result<String, NTSTATUS> = try_push_returning_ntstatus(&mut v, 9);
    assert_eq!(r, Ok(String::new()));
    assert_eq!(v, vec![1, 9]);
}

#[test]
fn string_returning_ntstatus_without_spare_capacity() {
    let mut v = full_string();
    let before = v.clone();
    let r: Result<String, NTSTATUS> = try_push_returning_ntstatus(&mut v, 9);
    assert_eq!(r, Err(NTSTATUS(-1073741801)));
    assert_eq!(v, before);
}

#[test]
fn string_enum_error_with_spare_capacity() {
    let mut v = roomy_string();
    let r: Result<String, EnumError> = try_push_enum_error(&mut v, 9);
    assert_eq!(r, Ok(String::new()));
    assert_eq!(v, vec![1, 9]);
}

#[test]
fn string_enum_error_without_spare_capacity() {
    let mut v = full_string();
    let before = v.clone();
    let r: Result<String, EnumError> = try_push_enum_error(&mut v, 9);
    assert_eq!(r, Err(EnumError::OutOfMemory));
    assert_eq!(v, before);
}

#[test]
fn string_returning_enum_error_with_spare_capacity() {
    let mut v = roomy_string();
    let r: Result<String, EnumError> = try_push_returning_enum_error(&mut v, 9);
    assert_eq!(r, Ok(String::new()));
    assert_eq!(v, vec![1, 9]);
}

#[test]
fn string_returning_enum_error_without_spare_capacity() {
    let mut v = full_string();
    let before = v.clone();
    let r: Result<String, EnumError> = try_push_returning_enum_error(&mut v, 9);
    assert_eq!(r, Err(EnumError::OutOfMemory));
    assert_eq!(v, before);
}

#[test]
fn string_returning_data_static_str_with_spare_capacity() {
    let mut v = roomy_string();
    let r: Result<String, ErrorWithData> = try_push_returning_data_static_str(&mut v, 9);
    assert_eq!(r, Ok(String::new()));
    assert_eq!(v, vec![1, 9]);
}

#[test]
fn string_returning_data_static_str_without_spare_capacity() {
    let mut v = full_string();
    let before = v.clone();
    let r: Result<String, ErrorWithData> = try_push_returning_data_static_str(&mut v, 9);
    assert_eq!(r, Err(ErrorWithData::StaticStr("Out of memory")));
    assert_eq!(v, before);
}

#[test]
fn string_returning_drop_data_string_with_spare_capacity() {
    let mut v = roomy_string();
    let r: Result<String, ErrorWithDropData> = try_push_returning_drop_data_string(&mut v, 9);
    assert_eq!(r, Ok(String::new()));
    assert_eq!(v, vec![1, 9]);
}

#[test]
fn string_returning_drop_data_string_without_spare_capacity() {
    let mut v = full_string();
    let before = v.clone();
    let r: Result<String, ErrorWithDropData> = try_push_returning_drop_data_string(&mut v, 9);
    assert_eq!(r, Err(ErrorWithDropData::String("Out of memory".to_string())));
    assert_eq!(v, before);
}

#[test]
fn string_returning_drop_data_str_with_spare_capacity() {
    let mut v = roomy_string();
    let r: Result<String, ErrorWithDropData> = try_push_returning_drop_data_str(&mut v, 9);
    assert_eq!(r, Ok(String::new()));
    assert_eq!(v, vec![1, 9]);
}

#[test]
fn string_returning_drop_data_str_without_spare_capacity() {
    let mut v = full_string();
    let before = v.clone();
    let r: Result<String, ErrorWithDropData> = try_push_returning_drop_data_str(&mut v, 9);
    assert_eq!(r, Err(ErrorWithDropData::StaticStr("Out of memory")));
    assert_eq!(v, before);
}

#[test]
fn string_returning_drop_data_other_with_spare_capacity() {
    let mut v = roomy_string();
    let r: Result<String, ErrorWithDropData> = try_push_returning_drop_data_other(&mut v, 9);
    assert_eq!(r, Ok(String::new()));
    assert_eq!(v, vec![1, 9]);
}

#[test]
fn string_returning_drop_data_other_without_spare_capacity() {
    let mut v = full_string();
    let before = v.clone();
    let r: Result<String, ErrorWithDropData> = try_push_returning_drop_data_other(&mut v, 9);
    assert_eq!(r, Err(ErrorWithDropData::Other));
    assert_eq!(v, before);
}

#[test]
fn string_fails_on_a_vector_that_never_allocated() {
    let mut v: Vec<u32> = Vec::new();
    assert_eq!(try_push_enum_error(&mut v, 1), Err(EnumError::OutOfMemory));
    assert_eq!(try_push_returning_simple_error(&mut v, 1), Err(SimpleError));
    assert!(v.is_empty());
}

#[test]
fn string_succeeds_exactly_while_capacity_is_left() {
    let mut v = Vec::with_capacity(3);
    let capacity = v.capacity();
    let mut pushed = 0usize;
    while try_push_returning_hresult(&mut v, 5).is_ok() {
        pushed += 1;
        assert_eq!(v.len(), pushed);
    }
    assert_eq!(pushed, capacity);
    assert_eq!(v.capacity(), capacity);
}
