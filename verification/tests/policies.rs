use curst::CursesError;
use curst::Error;
use curst::Input;
use curst::Key;
use curst::Location;
use curst::Size;
use curst::non_null;
use curst::non_zero_u32;
use curst::result;
use curst::string;
use curst::timeout_value;
use curst::to_i32;

#[test]
fn result_succeeds_on_ok_sentinel() {
    assert_eq!(result(0, CursesError::Doupdate), Ok(()));
    assert_eq!(result(0, CursesError::Waddstr), Ok(()));
}

#[test]
fn result_fails_on_err_sentinel() {
    assert_eq!(
        result(-1, CursesError::Doupdate),
        Err(Error::Curses(CursesError::Doupdate))
    );
}

#[test]
fn result_fails_on_arbitrary_values() {
    assert_eq!(result(1, CursesError::Wmove), Err(Error::Curses(CursesError::Wmove)));
    assert_eq!(result(-7, CursesError::Echo), Err(Error::Curses(CursesError::Echo)));
    assert_eq!(
        result(i32::MAX, CursesError::Newwin),
        Err(Error::Curses(CursesError::Newwin))
    );
    assert_eq!(
        result(i32::MIN, CursesError::Delwin),
        Err(Error::Curses(CursesError::Delwin))
    );
}

#[test]
fn non_null_wraps_any_nonzero_handle() {
    assert_eq!(non_null(1, CursesError::NewPanel), Ok(1));
    assert_eq!(non_null(usize::MAX, CursesError::Newwin), Ok(usize::MAX));
}

#[test]
fn non_null_fails_on_null_handle() {
    assert_eq!(
        non_null(0, CursesError::NewPanel),
        Err(Error::Curses(CursesError::NewPanel))
    );
    assert_eq!(
        non_null(0, CursesError::PanelWindow),
        Err(Error::Curses(CursesError::PanelWindow))
    );
}

#[test]
fn non_zero_u32_keeps_positive_values() {
    assert_eq!(non_zero_u32(1), Ok(1));
    assert_eq!(non_zero_u32(30), Ok(30));
    assert_eq!(non_zero_u32(i32::MAX), Ok(i32::MAX as u32));
}

#[test]
fn non_zero_u32_rejects_zero() {
    assert_eq!(non_zero_u32(0), Err(Error::InvalidZero));
}

#[test]
fn non_zero_u32_rejects_negative_values() {
    assert_eq!(non_zero_u32(-1), Err(Error::InvalidNumberConversion));
    assert_eq!(non_zero_u32(i32::MIN), Err(Error::InvalidNumberConversion));
}

#[test]
fn to_i32_keeps_values_that_fit() {
    assert_eq!(to_i32(0), 0);
    assert_eq!(to_i32(30), 30);
    assert_eq!(to_i32(i32::MAX as u32), i32::MAX);
}

#[test]
fn to_i32_clamps_values_that_do_not_fit() {
    assert_eq!(to_i32(i32::MAX as u32 + 1), i32::MAX);
    assert_eq!(to_i32(u32::MAX), i32::MAX);
}

#[test]
fn timeout_value_waits_indefinitely_without_bound() {
    assert_eq!(timeout_value(None), -1);
}

#[test]
fn timeout_value_keeps_bounds_that_fit() {
    assert_eq!(timeout_value(Some(0)), 0);
    assert_eq!(timeout_value(Some(250)), 250);
}

#[test]
fn timeout_value_clamps_bounds_that_do_not_fit() {
    assert_eq!(timeout_value(Some(u32::MAX)), i32::MAX);
}

#[test]
fn size_rejects_zero_lines() {
    assert_eq!(Size::new(0, 30), Err(Error::InvalidZero));
}

#[test]
fn size_rejects_zero_columns() {
    assert_eq!(Size::new(10, 0), Err(Error::InvalidZero));
}

#[test]
fn size_rejects_zero_both() {
    assert_eq!(Size::new(0, 0), Err(Error::InvalidZero));
}

#[test]
fn size_keeps_positive_extents() {
    let size = Size::new(10, 30).expect("positive extents");
    assert_eq!(Ok(size), Size::new(10, 30));
    assert_ne!(Ok(size), Size::new(10, 31));
}

#[test]
fn location_accepts_any_indices() {
    let origin = Location::new(0, 0);
    let corner = Location::new(u32::MAX, u32::MAX);
    assert_eq!(origin, Location::new(0, 0));
    assert_ne!(origin, corner);
}

#[test]
fn string_validates_utf8() {
    assert_eq!(string(b"hello".to_vec()), Ok(String::from("hello")));
    assert_eq!(string(Vec::new()), Ok(String::new()));
    assert_eq!(string(vec![0xE4, 0xBD, 0xA0]), Ok(String::from("\u{4F60}")));
}

#[test]
fn string_rejects_invalid_utf8() {
    assert_eq!(string(vec![0x66, 0xFF]), Err(Error::InvalidCursesString));
    assert_eq!(string(vec![0xC0, 0x80]), Err(Error::InvalidCursesString));
    assert_eq!(string(vec![0xED, 0xA0, 0x80]), Err(Error::InvalidCursesString));
}

#[test]
fn input_decode_absence_is_not_an_error() {
    assert!(Input::decode(-1).is_none());
}

#[test]
fn input_decode_wraps_one_key() {
    let input = Input::decode(0x41).expect("an input");
    assert_eq!(*input.key(), Key::Printable('A'));
    let control = Input::decode(0x09).expect("an input");
    assert_eq!(*control.key(), Key::Tab);
}

#[test]
fn error_from_curses_error() {
    assert_eq!(Error::from(CursesError::Echo), Error::Curses(CursesError::Echo));
}
