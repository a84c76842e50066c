//! The key decoder: a pure mapping from the raw integer code that the
//! input-read primitive returns to a semantic key enumeration.

use vstd::prelude::*;
use vstd::utf8::is_scalar;

use crate::error::ERR;

verus! {

/// The [`char`] that represents the `Backspace` key.
pub const CHAR_BACKSPACE: char = '\u{8}';

/// The [`char`] that represents the `Enter` key.
pub const CHAR_ENTER: char = '\n';

/// The [`char`] that represents the `Esc` key.
pub const CHAR_ESC: char = '\u{1b}';

/// The [`char`] that represents the `Tab` key.
pub const CHAR_TAB: char = '\t';

/// Signifies a key on a computer keyboard.
#[derive(Clone, Copy, Debug, PartialEq, Eq, Structural)]
pub enum Key {
    /// A key that is printable.
    Printable(char),
    /// The `Backspace` key.
    Backspace,
    /// The `Esc` key.
    Esc,
    /// The `Tab` key.
    Tab,
    /// The `Enter` key.
    Enter,
    /// An unknown key.
    Unknown(i32),
}

/// The key that a character decodes to: one of the four named control keys on
/// exact equality, any other character — printable or not — is `Printable`.
pub open spec fn decode_char(c: char) -> Key {
    if c == CHAR_BACKSPACE {
        Key::Backspace
    } else if c == CHAR_ESC {
        Key::Esc
    } else if c == CHAR_TAB {
        Key::Tab
    } else if c == CHAR_ENTER {
        Key::Enter
    } else {
        Key::Printable(c)
    }
}

/// The key that a raw code decodes to: codes that are no Unicode scalar value
/// stay opaque, every other code decodes as its character.
pub open spec fn decode_key(raw: i32) -> Key {
    if 0 <= raw && is_scalar(raw as u32) {
        decode_char((raw as u32) as char)
    } else {
        Key::Unknown(raw)
    }
}

/// Relies on `char::from_u32`: it returns the character with the given code
/// exactly when the code is a Unicode scalar value.
#[verifier::external_body]
fn char_from_u32(value: u32) -> (r: Option<char>)
    ensures
        r matches Some(c) ==> is_scalar(value) && c == (value as char),
        r is None ==> !is_scalar(value),
{
    char::from_u32(value)
}

impl From<i32> for Key {
    /// Decodes a raw code from the input-read primitive.
    fn from(value: i32) -> (r: Self)
        ensures
            r == decode_key(value),
    {
        if value < 0 {
            Self::Unknown(value)
        } else {
            match char_from_u32(value as u32) {
                None => Self::Unknown(value),
                Some(c) => {
                    if c == CHAR_BACKSPACE {
                        Self::Backspace
                    } else if c == CHAR_ESC {
                        Self::Esc
                    } else if c == CHAR_TAB {
                        Self::Tab
                    } else if c == CHAR_ENTER {
                        Self::Enter
                    } else {
                        Self::Printable(c)
                    }
                },
            }
        }
    }
}

impl vstd::std_specs::convert::FromSpecImpl<i32> for Key {
    open spec fn obeys_from_spec() -> bool {
        true
    }

    open spec fn from_spec(value: i32) -> Key {
        decode_key(value)
    }
}

/// Signifies an input from the user.
#[derive(Clone, Copy, Debug)]
pub struct Input {
    /// The [`Key`] from the user.
    key: Key,
}

impl Input {
    /// The key that this input wraps.
    pub closed spec fn spec_key(self) -> Key {
        self.key
    }

    /// Decodes the raw result of the input-read primitive: the "no input"
    /// sentinel is a normal absence, not an error; every other code carries
    /// one decoded key.
    pub fn decode(raw: i32) -> (r: Option<Self>)
        ensures
            raw == ERR ==> r is None,
            raw != ERR ==> (r matches Some(i) && i.spec_key() == decode_key(raw)),
    {
        if raw == ERR {
            None
        } else {
            Some(Self { key: Key::from(raw) })
        }
    }

    /// Returns the [`Key`] of `self`.
    pub fn key(&self) -> (r: &Key)
        ensures
            *r == self.spec_key(),
    {
        &self.key
    }
}

} // verus!
