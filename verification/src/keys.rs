//! The key catalog: the portable key vocabulary and its mapping onto the
//! platform backend's key space.
//!
//! `KeyboardKey` is the closed, portable vocabulary callers speak; the order
//! of its variants is a stable contract (each key keeps its small-integer
//! identity across versions). `PlatformKey` is the engine's model of the
//! backend's key space: printable characters plus the named non-printable
//! keys the backend understands. `resolve` is the total, deterministic
//! mapping from the portable vocabulary to the platform space; `decode` is
//! the (lossy) reverse mapping, exact on every key but the one documented
//! approximation.

use vstd::prelude::*;

verus! {

/// A portable keyboard key, independent of OS key-code space.
///
/// The variant order is a stable wire contract: the position of each key is
/// its small-integer identity and must not change between versions.
#[derive(Clone, Copy, Debug, PartialEq, Eq, Structural)]
pub enum KeyboardKey {
    Num0,
    Num1,
    Num2,
    Num3,
    Num4,
    Num5,
    Num6,
    Num7,
    Num8,
    Num9,
    A,
    B,
    C,
    D,
    E,
    F,
    G,
    H,
    I,
    J,
    K,
    L,
    M,
    N,
    O,
    P,
    Q,
    R,
    S,
    T,
    U,
    V,
    W,
    X,
    Y,
    Z,
    Add,
    Subtract,
    Multiply,
    Divide,
    /// Extensibility slot for a key with no exact platform mapping; it
    /// resolves to a nearby standard key (see [`resolve_spec`]).
    OEM2,
    Tab,
    CapsLock,
    Shift,
    Control,
    Alt,
    Space,
    Backspace,
    Return,
    Escape,
    UpArrow,
    DownArrow,
    LeftArrow,
    RightArrow,
    Meta,
}

/// The engine's model of the platform backend's key space: a printable
/// character, or one of the named non-printable keys the backend accepts.
#[derive(Clone, Copy, Debug, PartialEq, Eq, Structural)]
pub enum PlatformKey {
    /// A key entered as a literal character.
    Unicode(char),
    Tab,
    CapsLock,
    Meta,
    Shift,
    Control,
    Alt,
    Space,
    Backspace,
    Return,
    Escape,
    UpArrow,
    DownArrow,
    LeftArrow,
    RightArrow,
    /// The nearby standard key used as the documented approximation for
    /// [`KeyboardKey::OEM2`]; no portable key maps to it exactly.
    End,
}

/// The catalog mapping: every portable key has exactly one platform key.
///
/// Every mapping is exact except `OEM2`, which has no counterpart in the
/// platform space and is resolved to `End` as its documented closest
/// approximation (see [`exact_mapping`]).
pub open spec fn resolve_spec(key: KeyboardKey) -> PlatformKey {
    match key {
        KeyboardKey::Num0 => PlatformKey::Unicode('0'),
        KeyboardKey::Num1 => PlatformKey::Unicode('1'),
        KeyboardKey::Num2 => PlatformKey::Unicode('2'),
        KeyboardKey::Num3 => PlatformKey::Unicode('3'),
        KeyboardKey::Num4 => PlatformKey::Unicode('4'),
        KeyboardKey::Num5 => PlatformKey::Unicode('5'),
        KeyboardKey::Num6 => PlatformKey::Unicode('6'),
        KeyboardKey::Num7 => PlatformKey::Unicode('7'),
        KeyboardKey::Num8 => PlatformKey::Unicode('8'),
        KeyboardKey::Num9 => PlatformKey::Unicode('9'),
        KeyboardKey::A => PlatformKey::Unicode('a'),
        KeyboardKey::B => PlatformKey::Unicode('b'),
        KeyboardKey::C => PlatformKey::Unicode('c'),
        KeyboardKey::D => PlatformKey::Unicode('d'),
        KeyboardKey::E => PlatformKey::Unicode('e'),
        KeyboardKey::F => PlatformKey::Unicode('f'),
        KeyboardKey::G => PlatformKey::Unicode('g'),
        KeyboardKey::H => PlatformKey::Unicode('h'),
        KeyboardKey::I => PlatformKey::Unicode('i'),
        KeyboardKey::J => PlatformKey::Unicode('j'),
        KeyboardKey::K => PlatformKey::Unicode('k'),
        KeyboardKey::L => PlatformKey::Unicode('l'),
        KeyboardKey::M => PlatformKey::Unicode('m'),
        KeyboardKey::N => PlatformKey::Unicode('n'),
        KeyboardKey::O => PlatformKey::Unicode('o'),
        KeyboardKey::P => PlatformKey::Unicode('p'),
        KeyboardKey::Q => PlatformKey::Unicode('q'),
        KeyboardKey::R => PlatformKey::Unicode('r'),
        KeyboardKey::S => PlatformKey::Unicode('s'),
        KeyboardKey::T => PlatformKey::Unicode('t'),
        KeyboardKey::U => PlatformKey::Unicode('u'),
        KeyboardKey::V => PlatformKey::Unicode('v'),
        KeyboardKey::W => PlatformKey::Unicode('w'),
        KeyboardKey::X => PlatformKey::Unicode('x'),
        KeyboardKey::Y => PlatformKey::Unicode('y'),
        KeyboardKey::Z => PlatformKey::Unicode('z'),
        KeyboardKey::Add => PlatformKey::Unicode('+'),
        KeyboardKey::Subtract => PlatformKey::Unicode('-'),
        KeyboardKey::Multiply => PlatformKey::Unicode('*'),
        KeyboardKey::Divide => PlatformKey::Unicode('/'),
        KeyboardKey::OEM2 => PlatformKey::End,
        KeyboardKey::Tab => PlatformKey::Tab,
        KeyboardKey::CapsLock => PlatformKey::CapsLock,
        KeyboardKey::Shift => PlatformKey::Shift,
        KeyboardKey::Control => PlatformKey::Control,
        KeyboardKey::Alt => PlatformKey::Alt,
        KeyboardKey::Space => PlatformKey::Space,
        KeyboardKey::Backspace => PlatformKey::Backspace,
        KeyboardKey::Return => PlatformKey::Return,
        KeyboardKey::Escape => PlatformKey::Escape,
        KeyboardKey::UpArrow => PlatformKey::UpArrow,
        KeyboardKey::DownArrow => PlatformKey::DownArrow,
        KeyboardKey::LeftArrow => PlatformKey::LeftArrow,
        KeyboardKey::RightArrow => PlatformKey::RightArrow,
        KeyboardKey::Meta => PlatformKey::Meta,
    }
}

/// Whether `key`'s platform mapping is exact, as opposed to the documented
/// closest-approximation mapping of `OEM2`.
pub open spec fn exact_mapping(key: KeyboardKey) -> bool {
    key !is OEM2
}

/// Resolves a portable key to its platform key.
///
/// Total and deterministic: it returns exactly [`resolve_spec`]`(key)` for
/// every key, the same platform key on every call. It never fails; an
/// unmappable key cannot exist because the catalog is complete.
pub fn resolve(key: KeyboardKey) -> (r: PlatformKey)
    ensures
        r == resolve_spec(key),
{
    match key {
        KeyboardKey::Num0 => PlatformKey::Unicode('0'),
        KeyboardKey::Num1 => PlatformKey::Unicode('1'),
        KeyboardKey::Num2 => PlatformKey::Unicode('2'),
        KeyboardKey::Num3 => PlatformKey::Unicode('3'),
        KeyboardKey::Num4 => PlatformKey::Unicode('4'),
        KeyboardKey::Num5 => PlatformKey::Unicode('5'),
        KeyboardKey::Num6 => PlatformKey::Unicode('6'),
        KeyboardKey::Num7 => PlatformKey::Unicode('7'),
        KeyboardKey::Num8 => PlatformKey::Unicode('8'),
        KeyboardKey::Num9 => PlatformKey::Unicode('9'),
        KeyboardKey::A => PlatformKey::Unicode('a'),
        KeyboardKey::B => PlatformKey::Unicode('b'),
        KeyboardKey::C => PlatformKey::Unicode('c'),
        KeyboardKey::D => PlatformKey::Unicode('d'),
        KeyboardKey::E => PlatformKey::Unicode('e'),
        KeyboardKey::F => PlatformKey::Unicode('f'),
        KeyboardKey::G => PlatformKey::Unicode('g'),
        KeyboardKey::H => PlatformKey::Unicode('h'),
        KeyboardKey::I => PlatformKey::Unicode('i'),
        KeyboardKey::J => PlatformKey::Unicode('j'),
        KeyboardKey::K => PlatformKey::Unicode('k'),
        KeyboardKey::L => PlatformKey::Unicode('l'),
        KeyboardKey::M => PlatformKey::Unicode('m'),
        KeyboardKey::N => PlatformKey::Unicode('n'),
        KeyboardKey::O => PlatformKey::Unicode('o'),
        KeyboardKey::P => PlatformKey::Unicode('p'),
        KeyboardKey::Q => PlatformKey::Unicode('q'),
        KeyboardKey::R => PlatformKey::Unicode('r'),
        KeyboardKey::S => PlatformKey::Unicode('s'),
        KeyboardKey::T => PlatformKey::Unicode('t'),
        KeyboardKey::U => PlatformKey::Unicode('u'),
        KeyboardKey::V => PlatformKey::Unicode('v'),
        KeyboardKey::W => PlatformKey::Unicode('w'),
        KeyboardKey::X => PlatformKey::Unicode('x'),
        KeyboardKey::Y => PlatformKey::Unicode('y'),
        KeyboardKey::Z => PlatformKey::Unicode('z'),
        KeyboardKey::Add => PlatformKey::Unicode('+'),
        KeyboardKey::Subtract => PlatformKey::Unicode('-'),
        KeyboardKey::Multiply => PlatformKey::Unicode('*'),
        KeyboardKey::Divide => PlatformKey::Unicode('/'),
        KeyboardKey::OEM2 => PlatformKey::End,
        KeyboardKey::Tab => PlatformKey::Tab,
        KeyboardKey::CapsLock => PlatformKey::CapsLock,
        KeyboardKey::Shift => PlatformKey::Shift,
        KeyboardKey::Control => PlatformKey::Control,
        KeyboardKey::Alt => PlatformKey::Alt,
        KeyboardKey::Space => PlatformKey::Space,
        KeyboardKey::Backspace => PlatformKey::Backspace,
        KeyboardKey::Return => PlatformKey::Return,
        KeyboardKey::Escape => PlatformKey::Escape,
        KeyboardKey::UpArrow => PlatformKey::UpArrow,
        KeyboardKey::DownArrow => PlatformKey::DownArrow,
        KeyboardKey::LeftArrow => PlatformKey::LeftArrow,
        KeyboardKey::RightArrow => PlatformKey::RightArrow,
        KeyboardKey::Meta => PlatformKey::Meta,
    }
}

/// The reverse catalog mapping: the portable key whose exact platform
/// mapping is `key`, if any.
///
/// The reverse direction is lossy by design: `End` is only the documented
/// approximation for `OEM2`, not an exact image, so it decodes to `None`,
/// and so does any character that no portable key resolves to.
pub open spec fn decode_spec(key: PlatformKey) -> Option<KeyboardKey> {
    match key {
        PlatformKey::Unicode(c) => decode_char_spec(c),
        PlatformKey::Tab => Some(KeyboardKey::Tab),
        PlatformKey::CapsLock => Some(KeyboardKey::CapsLock),
        PlatformKey::Meta => Some(KeyboardKey::Meta),
        PlatformKey::Shift => Some(KeyboardKey::Shift),
        PlatformKey::Control => Some(KeyboardKey::Control),
        PlatformKey::Alt => Some(KeyboardKey::Alt),
        PlatformKey::Space => Some(KeyboardKey::Space),
        PlatformKey::Backspace => Some(KeyboardKey::Backspace),
        PlatformKey::Return => Some(KeyboardKey::Return),
        PlatformKey::Escape => Some(KeyboardKey::Escape),
        PlatformKey::UpArrow => Some(KeyboardKey::UpArrow),
        PlatformKey::DownArrow => Some(KeyboardKey::DownArrow),
        PlatformKey::LeftArrow => Some(KeyboardKey::LeftArrow),
        PlatformKey::RightArrow => Some(KeyboardKey::RightArrow),
        PlatformKey::End => None,
    }
}

/// The portable key entered as the literal character `c`, if any.
pub open spec fn decode_char_spec(c: char) -> Option<KeyboardKey> {
    match c {
        '0' => Some(KeyboardKey::Num0),
        '1' => Some(KeyboardKey::Num1),
        '2' => Some(KeyboardKey::Num2),
        '3' => Some(KeyboardKey::Num3),
        '4' => Some(KeyboardKey::Num4),
        '5' => Some(KeyboardKey::Num5),
        '6' => Some(KeyboardKey::Num6),
        '7' => Some(KeyboardKey::Num7),
        '8' => Some(KeyboardKey::Num8),
        '9' => Some(KeyboardKey::Num9),
        'a' => Some(KeyboardKey::A),
        'b' => Some(KeyboardKey::B),
        'c' => Some(KeyboardKey::C),
        'd' => Some(KeyboardKey::D),
        'e' => Some(KeyboardKey::E),
        'f' => Some(KeyboardKey::F),
        'g' => Some(KeyboardKey::G),
        'h' => Some(KeyboardKey::H),
        'i' => Some(KeyboardKey::I),
        'j' => Some(KeyboardKey::J),
        'k' => Some(KeyboardKey::K),
        'l' => Some(KeyboardKey::L),
        'm' => Some(KeyboardKey::M),
        'n' => Some(KeyboardKey::N),
        'o' => Some(KeyboardKey::O),
        'p' => Some(KeyboardKey::P),
        'q' => Some(KeyboardKey::Q),
        'r' => Some(KeyboardKey::R),
        's' => Some(KeyboardKey::S),
        't' => Some(KeyboardKey::T),
        'u' => Some(KeyboardKey::U),
        'v' => Some(KeyboardKey::V),
        'w' => Some(KeyboardKey::W),
        'x' => Some(KeyboardKey::X),
        'y' => Some(KeyboardKey::Y),
        'z' => Some(KeyboardKey::Z),
        '+' => Some(KeyboardKey::Add),
        '-' => Some(KeyboardKey::Subtract),
        '*' => Some(KeyboardKey::Multiply),
        '/' => Some(KeyboardKey::Divide),
        _ => None,
    }
}

/// Decodes a platform key back to the portable key it is the exact mapping
/// of, or `None` where the reverse mapping is lossy.
pub fn decode(key: PlatformKey) -> (r: Option<KeyboardKey>)
    ensures
        r == decode_spec(key),
{
    match key {
        PlatformKey::Unicode(c) => decode_char(c),
        PlatformKey::Tab => Some(KeyboardKey::Tab),
        PlatformKey::CapsLock => Some(KeyboardKey::CapsLock),
        PlatformKey::Meta => Some(KeyboardKey::Meta),
        PlatformKey::Shift => Some(KeyboardKey::Shift),
        PlatformKey::Control => Some(KeyboardKey::Control),
        PlatformKey::Alt => Some(KeyboardKey::Alt),
        PlatformKey::Space => Some(KeyboardKey::Space),
        PlatformKey::Backspace => Some(KeyboardKey::Backspace),
        PlatformKey::Return => Some(KeyboardKey::Return),
        PlatformKey::Escape => Some(KeyboardKey::Escape),
        PlatformKey::UpArrow => Some(KeyboardKey::UpArrow),
        PlatformKey::DownArrow => Some(KeyboardKey::DownArrow),
        PlatformKey::LeftArrow => Some(KeyboardKey::LeftArrow),
        PlatformKey::RightArrow => Some(KeyboardKey::RightArrow),
        PlatformKey::End => None,
    }
}

/// Decodes a literal character back to a portable key, if one resolves to it.
pub fn decode_char(c: char) -> (r: Option<KeyboardKey>)
    ensures
        r == decode_char_spec(c),
{
    match c {
        '0' => Some(KeyboardKey::Num0),
        '1' => Some(KeyboardKey::Num1),
        '2' => Some(KeyboardKey::Num2),
        '3' => Some(KeyboardKey::Num3),
        '4' => Some(KeyboardKey::Num4),
        '5' => Some(KeyboardKey::Num5),
        '6' => Some(KeyboardKey::Num6),
        '7' => Some(KeyboardKey::Num7),
        '8' => Some(KeyboardKey::Num8),
        '9' => Some(KeyboardKey::Num9),
        'a' => Some(KeyboardKey::A),
        'b' => Some(KeyboardKey::B),
        'c' => Some(KeyboardKey::C),
        'd' => Some(KeyboardKey::D),
        'e' => Some(KeyboardKey::E),
        'f' => Some(KeyboardKey::F),
        'g' => Some(KeyboardKey::G),
        'h' => Some(KeyboardKey::H),
        'i' => Some(KeyboardKey::I),
        'j' => Some(KeyboardKey::J),
        'k' => Some(KeyboardKey::K),
        'l' => Some(KeyboardKey::L),
        'm' => Some(KeyboardKey::M),
        'n' => Some(KeyboardKey::N),
        'o' => Some(KeyboardKey::O),
        'p' => Some(KeyboardKey::P),
        'q' => Some(KeyboardKey::Q),
        'r' => Some(KeyboardKey::R),
        's' => Some(KeyboardKey::S),
        't' => Some(KeyboardKey::T),
        'u' => Some(KeyboardKey::U),
        'v' => Some(KeyboardKey::V),
        'w' => Some(KeyboardKey::W),
        'x' => Some(KeyboardKey::X),
        'y' => Some(KeyboardKey::Y),
        'z' => Some(KeyboardKey::Z),
        '+' => Some(KeyboardKey::Add),
        '-' => Some(KeyboardKey::Subtract),
        '*' => Some(KeyboardKey::Multiply),
        '/' => Some(KeyboardKey::Divide),
        _ => None,
    }
}

/// Round trip through the catalog: for every portable key whose platform
/// mapping is exact, resolving and then decoding returns the original key.
pub proof fn lemma_catalog_round_trip(key: KeyboardKey)
    requires
        exact_mapping(key),
    ensures
        decode_spec(resolve_spec(key)) == Some(key),
{
}

} // verus!
