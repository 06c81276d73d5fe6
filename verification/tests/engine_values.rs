//! Tests for the engine's value types and the scroll-length formula.

use enigo_js::engine::{
    signed_scroll_length, MouseButton, Point, ScrollDirection, ToggleKey,
};
use enigo_js::keys::KeyboardKey;

#[test]
fn point_new_keeps_coordinates() {
    let p = Point::new(17, -4);
    assert_eq!(p.x, 17);
    assert_eq!(p.y, -4);
    let q = Point::new(i32::MAX, i32::MIN);
    assert_eq!(q.x, i32::MAX);
    assert_eq!(q.y, i32::MIN);
}

#[test]
fn toggle_key_fields() {
    let t = ToggleKey { value: KeyboardKey::C, down: true };
    assert_eq!(t.value, KeyboardKey::C);
    assert!(t.down);
    let u = ToggleKey { value: KeyboardKey::Control, down: false };
    assert_eq!(u.value, KeyboardKey::Control);
    assert!(!u.down);
}

#[test]
fn button_values_are_distinct() {
    assert_ne!(MouseButton::Left, MouseButton::Middle);
    assert_ne!(MouseButton::Middle, MouseButton::Right);
    assert_ne!(MouseButton::Left, MouseButton::Right);
}

#[test]
fn scroll_down_keeps_sign() {
    assert_eq!(signed_scroll_length(ScrollDirection::Down, 5), 5);
    assert_eq!(signed_scroll_length(ScrollDirection::Down, 0), 0);
    assert_eq!(signed_scroll_length(ScrollDirection::Down, -3), -3);
}

#[test]
fn scroll_up_flips_sign() {
    assert_eq!(signed_scroll_length(ScrollDirection::Up, 5), -5);
    assert_eq!(signed_scroll_length(ScrollDirection::Up, 0), 0);
    assert_eq!(signed_scroll_length(ScrollDirection::Up, -3), 3);
}

#[test]
fn engine_construction_reports_instead_of_panicking() {
    // Whether the OS grants an input-injection connection depends on the
    // environment; either way the engine must answer with a Result, and a
    // fresh engine holds nothing.
    match enigo_js::engine::EnigoJs::new() {
        Ok(engine) => assert!(engine.held_keys().is_empty()),
        Err(e) => assert!(!e.message.is_empty()),
    }
}

#[test]
fn opposite_directions_same_magnitude() {
    for clicks in [1, 2, 5, 120, i32::MAX] {
        let down = signed_scroll_length(ScrollDirection::Down, clicks);
        let up = signed_scroll_length(ScrollDirection::Up, clicks);
        assert_eq!(down, -up);
        assert_eq!(down.unsigned_abs(), up.unsigned_abs());
    }
}
