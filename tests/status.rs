use zrraw::{check_status, ZrRawError};

#[test]
fn status_zero_is_success() {
    assert_eq!(check_status(0), Ok(()));
}

#[test]
fn status_codes_map_to_fixed_kinds() {
    assert_eq!(check_status(-1), Err(ZrRawError::InvalidInput));
    assert_eq!(check_status(-2), Err(ZrRawError::UnsupportedFormat));
    assert_eq!(check_status(-3), Err(ZrRawError::ParseError("Parse failed".to_string())));
    assert_eq!(check_status(-4), Err(ZrRawError::OutOfMemory));
    assert_eq!(check_status(-5), Err(ZrRawError::IoError));
    assert_eq!(check_status(-6), Err(ZrRawError::CorruptedData));
    assert_eq!(check_status(42), Err(ZrRawError::Unknown(42)));
}

#[test]
fn other_codes_are_unknown() {
    assert_eq!(check_status(-7), Err(ZrRawError::Unknown(-7)));
    assert_eq!(check_status(i32::MIN), Err(ZrRawError::Unknown(i32::MIN)));
    assert_eq!(ZrRawError::from_code(1), ZrRawError::Unknown(1));
}
