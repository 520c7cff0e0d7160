use snek::hresult_from_win32;
use snek::last_error_hr;
use snek::last_error_string;

#[test]
fn zero_code_converts_to_zero() {
    assert_eq!(hresult_from_win32(0), 0);
}

#[test]
fn small_code_is_tagged_into_the_failure_space() {
    // ERROR_FILE_NOT_FOUND (2) becomes the failed result 0x80070002.
    assert_eq!(hresult_from_win32(2), 0x80070002u32 as i32);
    assert_eq!(hresult_from_win32(2), -2147024894);
    // ERROR_MOD_NOT_FOUND (126) becomes 0x8007007E.
    assert_eq!(hresult_from_win32(126), 0x8007007Eu32 as i32);
    // ERROR_PROC_NOT_FOUND (127) becomes 0x8007007F.
    assert_eq!(hresult_from_win32(127), 0x8007007Fu32 as i32);
}

#[test]
fn result_shaped_code_passes_through() {
    assert_eq!(hresult_from_win32(0x80004005), 0x80004005u32 as i32);
}

#[test]
fn every_nonzero_code_converts_to_a_failure() {
    assert!(hresult_from_win32(1) < 0);
    assert!(hresult_from_win32(0xFFFF_FFFF) < 0);
}

#[test]
fn last_error_hr_matches_the_conversion() {
    assert_eq!(last_error_hr(2), hresult_from_win32(2));
}

#[test]
fn zero_formatted_characters_yield_no_message() {
    assert_eq!(last_error_string(0, String::new()), None);
}

#[test]
fn formatted_characters_yield_the_message() {
    let message = String::from("The system cannot find the file specified.");
    assert_eq!(last_error_string(42, message.clone()), Some(message));
}
