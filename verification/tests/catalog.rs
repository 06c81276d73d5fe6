//! Tests for the key catalog: the forward mapping, the reverse mapping, and
//! the round trip between them.

use enigo_js::keys::{decode, decode_char, resolve, KeyboardKey, PlatformKey};

#[test]
fn resolve_digits() {
    assert_eq!(resolve(KeyboardKey::Num0), PlatformKey::Unicode('0'));
    assert_eq!(resolve(KeyboardKey::Num5), PlatformKey::Unicode('5'));
    assert_eq!(resolve(KeyboardKey::Num9), PlatformKey::Unicode('9'));
}

#[test]
fn resolve_letters() {
    assert_eq!(resolve(KeyboardKey::A), PlatformKey::Unicode('a'));
    assert_eq!(resolve(KeyboardKey::M), PlatformKey::Unicode('m'));
    assert_eq!(resolve(KeyboardKey::Z), PlatformKey::Unicode('z'));
}

#[test]
fn resolve_arithmetic_symbols() {
    assert_eq!(resolve(KeyboardKey::Add), PlatformKey::Unicode('+'));
    assert_eq!(resolve(KeyboardKey::Subtract), PlatformKey::Unicode('-'));
    assert_eq!(resolve(KeyboardKey::Multiply), PlatformKey::Unicode('*'));
    assert_eq!(resolve(KeyboardKey::Divide), PlatformKey::Unicode('/'));
}

#[test]
fn resolve_named_keys() {
    assert_eq!(resolve(KeyboardKey::Tab), PlatformKey::Tab);
    assert_eq!(resolve(KeyboardKey::CapsLock), PlatformKey::CapsLock);
    assert_eq!(resolve(KeyboardKey::Shift), PlatformKey::Shift);
    assert_eq!(resolve(KeyboardKey::Control), PlatformKey::Control);
    assert_eq!(resolve(KeyboardKey::Alt), PlatformKey::Alt);
    assert_eq!(resolve(KeyboardKey::Meta), PlatformKey::Meta);
    assert_eq!(resolve(KeyboardKey::Space), PlatformKey::Space);
    assert_eq!(resolve(KeyboardKey::Backspace), PlatformKey::Backspace);
    assert_eq!(resolve(KeyboardKey::Return), PlatformKey::Return);
    assert_eq!(resolve(KeyboardKey::Escape), PlatformKey::Escape);
    assert_eq!(resolve(KeyboardKey::UpArrow), PlatformKey::UpArrow);
    assert_eq!(resolve(KeyboardKey::DownArrow), PlatformKey::DownArrow);
    assert_eq!(resolve(KeyboardKey::LeftArrow), PlatformKey::LeftArrow);
    assert_eq!(resolve(KeyboardKey::RightArrow), PlatformKey::RightArrow);
}

#[test]
fn resolve_placeholder_key_approximates() {
    // The one documented approximation: the unmapped slot resolves to the
    // backend's End key.
    assert_eq!(resolve(KeyboardKey::OEM2), PlatformKey::End);
}

#[test]
fn resolve_is_deterministic() {
    let keys = [
        KeyboardKey::Num7,
        KeyboardKey::Q,
        KeyboardKey::Add,
        KeyboardKey::OEM2,
        KeyboardKey::Meta,
        KeyboardKey::LeftArrow,
    ];
    for k in keys {
        assert_eq!(resolve(k), resolve(k));
    }
}

#[test]
fn round_trip_exact_mappings() {
    let keys = [
        KeyboardKey::Num0,
        KeyboardKey::Num9,
        KeyboardKey::A,
        KeyboardKey::Z,
        KeyboardKey::Add,
        KeyboardKey::Subtract,
        KeyboardKey::Multiply,
        KeyboardKey::Divide,
        KeyboardKey::Tab,
        KeyboardKey::CapsLock,
        KeyboardKey::Shift,
        KeyboardKey::Control,
        KeyboardKey::Alt,
        KeyboardKey::Meta,
        KeyboardKey::Space,
        KeyboardKey::Backspace,
        KeyboardKey::Return,
        KeyboardKey::Escape,
        KeyboardKey::UpArrow,
        KeyboardKey::DownArrow,
        KeyboardKey::LeftArrow,
        KeyboardKey::RightArrow,
    ];
    for k in keys {
        assert_eq!(decode(resolve(k)), Some(k));
    }
}

#[test]
fn reverse_mapping_is_lossy_where_documented() {
    // End is only the approximation for the unmapped slot, never an exact
    // image, so it does not decode.
    assert_eq!(decode(PlatformKey::End), None);
    assert_eq!(decode(resolve(KeyboardKey::OEM2)), None);
}

#[test]
fn decode_char_unmapped_characters() {
    assert_eq!(decode_char('A'), None);
    assert_eq!(decode_char('?'), None);
    assert_eq!(decode_char(' '), None);
    assert_eq!(decode(PlatformKey::Unicode('#')), None);
}
