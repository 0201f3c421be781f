//! The capability sets a virtual device is built from hold exactly the
//! standard ranges.

use portal_bypass::event_handler::server::device::{
    full_key_range, full_rel_axis_range, KeySet, RelAxisSet, ABS_X, ABS_Y, BTN_LEFT, BTN_MIDDLE,
    BTN_RIGHT, EV_ABS, EV_KEY, EV_REL, REL_HWHEEL, REL_WHEEL, REL_X, REL_Y,
};

#[test]
fn kernel_codes_match_evdev() {
    assert_eq!(EV_KEY, evdev::EventType::KEY.0);
    assert_eq!(EV_REL, evdev::EventType::RELATIVE.0);
    assert_eq!(EV_ABS, evdev::EventType::ABSOLUTE.0);
    assert_eq!(REL_X, evdev::RelativeAxisCode::REL_X.0);
    assert_eq!(REL_Y, evdev::RelativeAxisCode::REL_Y.0);
    assert_eq!(REL_WHEEL, evdev::RelativeAxisCode::REL_WHEEL.0);
    assert_eq!(REL_HWHEEL, evdev::RelativeAxisCode::REL_HWHEEL.0);
    assert_eq!(ABS_X, evdev::AbsoluteAxisCode::ABS_X.0);
    assert_eq!(ABS_Y, evdev::AbsoluteAxisCode::ABS_Y.0);
    assert_eq!(BTN_LEFT, evdev::KeyCode::BTN_LEFT.code());
    assert_eq!(BTN_RIGHT, evdev::KeyCode::BTN_RIGHT.code());
    assert_eq!(BTN_MIDDLE, evdev::KeyCode::BTN_MIDDLE.code());
}

#[test]
fn fresh_sets_are_empty() {
    let keys = KeySet::new();
    assert!(!keys.contains(0));
    assert!(!keys.contains(0x110));
    let axes = RelAxisSet::new();
    assert!(!axes.contains(0));
}

#[test]
fn full_key_range_holds_exactly_the_standard_keys() {
    let keys = full_key_range();
    assert!(keys.contains(0));
    assert!(keys.contains(30));
    assert!(keys.contains(0x110)); // pointer buttons live in the key range
    assert!(keys.contains(0x2e6));
    assert!(!keys.contains(0x2e7));
    assert!(!keys.contains(0x2ff));
}

#[test]
fn full_rel_axis_range_holds_exactly_the_standard_axes() {
    let axes = full_rel_axis_range();
    assert!(axes.contains(0x00));
    assert!(axes.contains(0x06));
    assert!(axes.contains(0x08));
    assert!(axes.contains(0x0b));
    assert!(!axes.contains(0x0c));
}

#[test]
fn inserted_codes_are_contained() {
    let mut keys = KeySet::new();
    keys.insert(42);
    assert!(keys.contains(42));
    assert!(!keys.contains(43));
    let mut axes = RelAxisSet::new();
    axes.insert(3);
    assert!(axes.contains(3));
    assert!(!axes.contains(4));
}
