//! The error taxonomy, and the central policies that translate raw curses
//! results — sentinel integers, nullable handles, foreign text buffers and
//! fixed-width dimensions — into typed outcomes.

use vstd::prelude::*;
use vstd::utf8::decode_utf8;
use vstd::utf8::valid_utf8;

verus! {

/// The curses return value that signifies a successful operation.
pub const OK: i32 = 0;

/// The curses return value that signifies an error occurred.
pub const ERR: i32 = -1;

/// Signifies an error during a curses function call, naming the call that
/// failed.
#[derive(Clone, Copy, Debug, PartialEq, Eq, Structural)]
pub enum CursesError {
    NewPanel,
    PanelWindow,
    Wdelch,
    Wmove,
    Doupdate,
    Echo,
    Noecho,
    ResizeTerm,
    Newwin,
    DelPanel,
    Waddstr,
    Wclrtoeol,
    Delwin,
}

/// Signifies a `curst` error.
#[derive(Clone, Copy, Debug, PartialEq, Eq, Structural)]
pub enum Error {
    /// A curses call failed.
    Curses(CursesError),
    /// Text returned by curses was not valid UTF-8.
    InvalidCursesString,
    /// Text supplied by the caller held an embedded NUL, which curses cannot
    /// represent.
    InvalidUserString,
    /// A number did not fit the required range.
    InvalidNumberConversion,
    /// A number that must be positive was zero.
    InvalidZero,
}

impl From<CursesError> for Error {
    fn from(value: CursesError) -> (r: Self) {
        Error::Curses(value)
    }
}

impl vstd::std_specs::convert::FromSpecImpl<CursesError> for Error {
    open spec fn obeys_from_spec() -> bool {
        true
    }

    open spec fn from_spec(value: CursesError) -> Error {
        Error::Curses(value)
    }
}

/// Converts a raw curses return code into a typed outcome: success exactly on
/// the `OK` sentinel, otherwise a failure tagged with the operation that
/// produced the code.
pub fn result(curses_return: i32, error: CursesError) -> (r: Result<(), Error>)
    ensures
        curses_return == OK ==> r == Ok::<(), Error>(()),
        curses_return != OK ==> r == Err::<(), Error>(Error::Curses(error)),
{
    if curses_return == OK {
        Ok(())
    } else {
        Err(Error::Curses(error))
    }
}

/// Converts a raw curses handle into a typed outcome: a null handle is a
/// failure tagged with the operation that produced it, any other handle is
/// returned unchanged.
pub fn non_null(handle: usize, error: CursesError) -> (r: Result<usize, Error>)
    ensures
        handle != 0 ==> r == Ok::<usize, Error>(handle),
        handle == 0 ==> r == Err::<usize, Error>(Error::Curses(error)),
{
    if handle == 0 {
        Err(Error::Curses(error))
    } else {
        Ok(handle)
    }
}

/// Converts a raw curses dimension into a positive count: negative values do
/// not fit, and zero is rejected rather than silently kept.
pub fn non_zero_u32(value: i32) -> (r: Result<u32, Error>)
    ensures
        value > 0 ==> r == Ok::<u32, Error>(value as u32),
        value < 0 ==> r == Err::<u32, Error>(Error::InvalidNumberConversion),
        value == 0 ==> r == Err::<u32, Error>(Error::InvalidZero),
{
    if value < 0 {
        Err(Error::InvalidNumberConversion)
    } else if value == 0 {
        Err(Error::InvalidZero)
    } else {
        Ok(value as u32)
    }
}

/// Narrows a dimension to the fixed-width signed integers that curses takes,
/// clamping values that do not fit.
pub fn to_i32(value: u32) -> (r: i32)
    ensures
        value <= i32::MAX ==> r == value as i32,
        value > i32::MAX ==> r == i32::MAX,
{
    if value <= 0x7fff_ffff {
        value as i32
    } else {
        i32::MAX
    }
}

/// Relies on `String::from_utf8`: it succeeds exactly on valid UTF-8, and the
/// string it returns decodes those bytes.
#[verifier::external_body]
fn utf8_string(bytes: Vec<u8>) -> (r: Option<String>)
    ensures
        r matches Some(s) ==> valid_utf8(bytes@) && s@ == decode_utf8(bytes@),
        r is None ==> !valid_utf8(bytes@),
{
    String::from_utf8(bytes).ok()
}

/// Converts a foreign text buffer into validated text: bytes that are not
/// valid UTF-8 are a distinct invalid-encoding failure.
pub fn string(bytes: Vec<u8>) -> (r: Result<String, Error>)
    ensures
        r matches Ok(s) ==> valid_utf8(bytes@) && s@ == decode_utf8(bytes@),
        r matches Err(e) ==> !valid_utf8(bytes@) && e == Error::InvalidCursesString,
{
    match utf8_string(bytes) {
        Some(s) => Ok(s),
        None => Err(Error::InvalidCursesString),
    }
}

} // verus!
