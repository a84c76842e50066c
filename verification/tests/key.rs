use curst::Key;

#[test]
fn from_cint() {
    let cases = vec![
        (-2, Key::Unknown(-2)),
        (0x08, Key::Backspace),
        (0x09, Key::Tab),
        (0x0A, Key::Enter),
        (0x1B, Key::Esc),
        (0x20, Key::Printable(' ')),
        (0x30, Key::Printable('0')),
        (0x41, Key::Printable('A')),
        (0x61, Key::Printable('a')),
    ];

    for case in cases {
        assert_eq!(Key::from(case.0), case.1);
    }
}

#[test]
fn from_cint_rejects_surrogates() {
    assert_eq!(Key::from(0xD800), Key::Unknown(0xD800));
    assert_eq!(Key::from(0xDFFF), Key::Unknown(0xDFFF));
}

#[test]
fn from_cint_rejects_codes_past_unicode() {
    assert_eq!(Key::from(0x110000), Key::Unknown(0x110000));
    assert_eq!(Key::from(i32::MAX), Key::Unknown(i32::MAX));
}

#[test]
fn from_cint_keeps_last_scalar() {
    assert_eq!(Key::from(0x10FFFF), Key::Printable('\u{10FFFF}'));
}

#[test]
fn from_cint_other_control_characters_fall_through() {
    // Only the four named control keys are special-cased; any other control
    // character still decodes as printable.
    assert_eq!(Key::from(0x07), Key::Printable('\u{7}'));
    assert_eq!(Key::from(0x0D), Key::Printable('\r'));
}
