//! The trusted boundary to the platform backend.
//!
//! Everything the engine asks of the operating system goes through the
//! wrappers in this module, and only through them. Each wrapper makes one
//! call into the `enigo` input-injection crate; whether a request succeeds is
//! decided by the OS input layer at run time, so the wrappers promise nothing
//! about the outcome beyond the shape of the result. The engine's own
//! contracts therefore state, for every outcome, exactly which requests were
//! issued and how the engine's state changed.

use vstd::prelude::*;

use crate::engine::MouseButton;
use crate::keys::PlatformKey;

use enigo::{Axis, Coordinate, Direction, Key, Keyboard, Mouse, Settings};

verus! {

/// A single backend call failed; `message` carries the cause reported by the
/// OS input layer, verbatim.
#[derive(Debug, Clone)]
pub struct BackendError {
    pub message: String,
}

/// The backend could not acquire the OS input-injection connection at
/// construction; `message` carries the cause, verbatim. Fatal to the engine
/// instance: there is no retry.
#[derive(Debug, Clone)]
pub struct ConstructionError {
    pub message: String,
}

#[verifier::external_type_specification]
#[verifier::external_body]
pub struct ExEnigo(enigo::Enigo);

/// Relies on `enigo::Enigo::new`: acquires the OS input-injection connection
/// with the default settings, or reports why the connection could not be
/// established. Succeeding or failing is decided by the OS environment.
#[verifier::external_body]
pub(crate) fn connect() -> (r: Result<enigo::Enigo, ConstructionError>) {
    enigo::Enigo::new(&Settings::default()).map_err(|e| ConstructionError {
        message: e.to_string(),
    })
}

/// Relies on `enigo::Keyboard::key`: sends one key press or release event
/// for the platform key. The platform-key model maps one-for-one onto the
/// backend's key constants; `End` stands for its `End` key.
#[verifier::external_body]
pub(crate) fn key_event(dev: &mut enigo::Enigo, key: &PlatformKey, press: bool) -> (r: Result<
    (),
    BackendError,
>) {
    let k = match *key {
        PlatformKey::Unicode(c) => Key::Unicode(c),
        PlatformKey::Tab => Key::Tab, PlatformKey::CapsLock => Key::CapsLock,
        PlatformKey::Meta => Key::Meta, PlatformKey::Shift => Key::Shift,
        PlatformKey::Control => Key::Control, PlatformKey::Alt => Key::Alt,
        PlatformKey::Space => Key::Space, PlatformKey::Backspace => Key::Backspace,
        PlatformKey::Return => Key::Return, PlatformKey::Escape => Key::Escape,
        PlatformKey::UpArrow => Key::UpArrow, PlatformKey::DownArrow => Key::DownArrow,
        PlatformKey::LeftArrow => Key::LeftArrow, PlatformKey::RightArrow => Key::RightArrow,
        PlatformKey::End => Key::End,
    };
    let d = if press { Direction::Press } else { Direction::Release };
    dev.key(k, d).map_err(|e| BackendError { message: e.to_string() })
}

/// Relies on `enigo::Mouse::button`: sends one press or release event for
/// the pointer button.
#[verifier::external_body]
pub(crate) fn button_event(dev: &mut enigo::Enigo, button: MouseButton, press: bool) -> (r: Result<
    (),
    BackendError,
>) {
    let b = match button {
        MouseButton::Left => enigo::Button::Left,
        MouseButton::Middle => enigo::Button::Middle,
        MouseButton::Right => enigo::Button::Right,
    };
    let d = if press { Direction::Press } else { Direction::Release };
    dev.button(b, d).map_err(|e| BackendError { message: e.to_string() })
}

/// Relies on `enigo::Mouse::scroll`: sends one signed scroll event along the
/// vertical axis.
#[verifier::external_body]
pub(crate) fn scroll_event(dev: &mut enigo::Enigo, length: i32) -> (r: Result<(), BackendError>) {
    dev.scroll(length, Axis::Vertical).map_err(|e| BackendError { message: e.to_string() })
}

/// Relies on `enigo::Keyboard::text`: injects the whole string as native
/// text input. A failure part-way leaves indeterminate partial output; the
/// OS text-injection layer cannot resume mid-string.
#[verifier::external_body]
pub(crate) fn text_event(dev: &mut enigo::Enigo, content: &str) -> (r: Result<(), BackendError>) {
    dev.text(content).map_err(|e| BackendError { message: e.to_string() })
}

/// Relies on `enigo::Mouse::move_mouse` with absolute coordinates: moves the
/// pointer to the given screen position.
#[verifier::external_body]
pub(crate) fn move_event(dev: &mut enigo::Enigo, x: i32, y: i32) -> (r: Result<(), BackendError>) {
    dev.move_mouse(x, y, Coordinate::Abs).map_err(|e| BackendError { message: e.to_string() })
}

/// Relies on `enigo::Mouse::location`: queries the pointer position from the
/// OS, failing if the OS denies the query.
#[verifier::external_body]
pub(crate) fn query_location(dev: &enigo::Enigo) -> (r: Result<(i32, i32), BackendError>) {
    dev.location().map_err(|e| BackendError { message: e.to_string() })
}

/// Relies on `enigo::Enigo::held`: reports the backend's own record of held
/// keys as raw platform key codes. What the backend reports is its run-time
/// state, so nothing is promised of the contents.
#[verifier::external_body]
pub(crate) fn query_held_codes(dev: &mut enigo::Enigo) -> (r: Vec<u16>) {
    let (_keys, codes) = dev.held();
    codes
}

} // verus!
