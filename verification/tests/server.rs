//! The local-emulation session state machine and its translation table.

use portal_bypass::event_handler::events::remote_desktop::{
    NotifyKeyboardKeycode, NotifyKeyboardKeysym, NotifyPointerAxis, NotifyPointerAxisDiscrete,
    NotifyPointerButton, NotifyPointerMotion, NotifyPointerMotionAbsolute, RemoteDesktopEvent,
    SelectDevices, Start,
};
use portal_bypass::event_handler::server::device::KernelEvent;
use portal_bypass::event_handler::server::remote_desktop::{translate, RemoteDesktopServer};
use portal_bypass::event_handler::{DispatchAction, EventResponse};
use portal_bypass::values::VariantValue;

fn types_options(types: u32) -> Vec<(String, VariantValue)> {
    vec![("types".to_string(), VariantValue::U32(types))]
}

fn select_devices(types: u32) -> RemoteDesktopEvent {
    RemoteDesktopEvent::SelectDevices(SelectDevices {
        handle: "/req/1".to_string(),
        session_handle: "/session/1".to_string(),
        app_id: "org.example.Test".to_string(),
        options: types_options(types),
    })
}

fn start() -> RemoteDesktopEvent {
    RemoteDesktopEvent::Start(Start {
        handle: "/req/2".to_string(),
        session_handle: "/session/1".to_string(),
        app_id: "org.example.Test".to_string(),
        parent_window: String::new(),
        options: Vec::new(),
    })
}

fn motion(dx: f64, dy: f64) -> RemoteDesktopEvent {
    RemoteDesktopEvent::NotifyPointerMotion(NotifyPointerMotion {
        session_handle: "/session/1".to_string(),
        options: Vec::new(),
        dx_bits: dx.to_bits(),
        dy_bits: dy.to_bits(),
    })
}

fn keycode(code: i32, state: u32) -> RemoteDesktopEvent {
    RemoteDesktopEvent::NotifyKeyboardKeycode(NotifyKeyboardKeycode {
        session_handle: "/session/1".to_string(),
        options: Vec::new(),
        keycode: code,
        state,
    })
}

fn is_failure(action: &DispatchAction) -> bool {
    matches!(action, DispatchAction::Reply(EventResponse::Standard(2, _)))
}

#[test]
fn select_devices_over_limit_rejected() {
    let mut srv = RemoteDesktopServer::new();
    let r = srv.handle(select_devices(5));
    assert!(is_failure(&r));
    assert_eq!(srv.device_select(), 0);
    assert!(!srv.is_selected());

    let r = srv.handle(select_devices(4));
    assert!(is_failure(&r));
    assert_eq!(srv.device_select(), 0);
}

#[test]
fn select_devices_missing_or_mistyped_rejected() {
    let mut srv = RemoteDesktopServer::new();
    let r = srv.handle(RemoteDesktopEvent::SelectDevices(SelectDevices {
        handle: String::new(),
        session_handle: String::new(),
        app_id: String::new(),
        options: Vec::new(),
    }));
    assert!(is_failure(&r));
    let r = srv.handle(RemoteDesktopEvent::SelectDevices(SelectDevices {
        handle: String::new(),
        session_handle: String::new(),
        app_id: String::new(),
        options: vec![("types".to_string(), VariantValue::Str("2".to_string()))],
    }));
    assert!(is_failure(&r));
    assert!(!srv.is_selected());
}

#[test]
fn select_devices_accepted_once() {
    let mut srv = RemoteDesktopServer::new();
    let r = srv.handle(select_devices(2));
    assert_eq!(r, DispatchAction::Reply(EventResponse::Standard(0, Vec::new())));
    assert_eq!(srv.device_select(), 2);
    assert!(srv.is_selected());

    // The selection is immutable once accepted.
    let r = srv.handle(select_devices(1));
    assert!(is_failure(&r));
    assert_eq!(srv.device_select(), 2);
}

#[test]
fn start_before_selection_rejected() {
    let mut srv = RemoteDesktopServer::new();
    let r = srv.handle(start());
    assert!(is_failure(&r));
    assert!(!srv.is_active());
}

#[test]
fn notify_before_start_dropped_silently() {
    let mut srv = RemoteDesktopServer::new();
    let r = srv.handle(motion(10.0, -4.5));
    assert_eq!(r, DispatchAction::NoReply);
    let r = srv.handle(keycode(30, 1));
    assert_eq!(r, DispatchAction::NoReply);
    assert!(!srv.is_active());
}

#[test]
fn keysym_always_answered_with_failure() {
    let mut srv = RemoteDesktopServer::new();
    let r = srv.handle(RemoteDesktopEvent::NotifyKeyboardKeysym(NotifyKeyboardKeysym {
        session_handle: String::new(),
        options: Vec::new(),
        keysym: 0x61,
        state: 1,
    }));
    assert!(is_failure(&r));
}

#[test]
fn property_reads_answer_constants() {
    let mut srv = RemoteDesktopServer::new();
    let r = srv.handle(RemoteDesktopEvent::GetPropertiesAvailableDeviceTypes);
    assert_eq!(r, DispatchAction::Reply(EventResponse::Value(VariantValue::U32(3))));
    let r = srv.handle(RemoteDesktopEvent::GetPropertiesVersion);
    assert_eq!(r, DispatchAction::Reply(EventResponse::Value(VariantValue::U32(1))));
}

/// The end-to-end scenario: pointer-only selection, then start; a discrete
/// wheel notification translates to one relative-wheel event with the step
/// count, and a keyboard notification on the pointer-only session is dropped
/// without a crash. Device creation needs the kernel's uinput node, so both
/// start outcomes are legal here; the state machine must be consistent with
/// whichever occurred.
#[test]
fn pointer_only_session_end_to_end() {
    let mut srv = RemoteDesktopServer::new();
    let r = srv.handle(select_devices(2));
    assert_eq!(r, DispatchAction::Reply(EventResponse::Standard(0, Vec::new())));

    let r = srv.handle(start());
    match r {
        DispatchAction::Reply(EventResponse::Standard(0, results)) => {
            assert!(results.is_empty());
            assert!(srv.is_active());
        }
        DispatchAction::Reply(EventResponse::Standard(2, _)) => {
            assert!(!srv.is_active());
        }
        other => panic!("unexpected start reply: {other:?}"),
    }

    let r = srv.handle(RemoteDesktopEvent::NotifyPointerAxisDiscrete(NotifyPointerAxisDiscrete {
        session_handle: "/session/1".to_string(),
        options: Vec::new(),
        axis: 0,
        steps: 3,
    }));
    assert_eq!(r, DispatchAction::NoReply);

    let r = srv.handle(keycode(30, 1));
    assert_eq!(r, DispatchAction::NoReply);
    assert_eq!(srv.device_select(), 2);
}

#[test]
fn translate_pointer_motion_truncates() {
    let events = translate(
        3,
        &motion(100.0, 100.7),
    );
    assert_eq!(
        events,
        vec![
            KernelEvent { kind: 2, code: 0x00, value: 100 },
            KernelEvent { kind: 2, code: 0x01, value: 100 },
        ]
    );
}

#[test]
fn translate_motion_absolute() {
    let events = translate(
        2,
        &RemoteDesktopEvent::NotifyPointerMotionAbsolute(NotifyPointerMotionAbsolute {
            session_handle: String::new(),
            options: Vec::new(),
            stream: 0,
            x_bits: (640.9f64).to_bits(),
            y_bits: (-1.0f64).to_bits(),
        }),
    );
    assert_eq!(
        events,
        vec![
            KernelEvent { kind: 3, code: 0x00, value: 640 },
            KernelEvent { kind: 3, code: 0x01, value: -1 },
        ]
    );
}

#[test]
fn translate_buttons() {
    let button = |button: i32, state: u32| {
        RemoteDesktopEvent::NotifyPointerButton(NotifyPointerButton {
            session_handle: String::new(),
            options: Vec::new(),
            button,
            state,
        })
    };
    assert_eq!(
        translate(2, &button(1, 1)),
        vec![KernelEvent { kind: 1, code: 0x110, value: 1 }]
    );
    assert_eq!(
        translate(2, &button(2, 0)),
        vec![KernelEvent { kind: 1, code: 0x111, value: 0 }]
    );
    assert_eq!(
        translate(2, &button(3, 1)),
        vec![KernelEvent { kind: 1, code: 0x112, value: 1 }]
    );
    // Other button numbers pass through unchanged.
    assert_eq!(
        translate(2, &button(8, 1)),
        vec![KernelEvent { kind: 1, code: 8, value: 1 }]
    );
}

#[test]
fn translate_axis_skips_zero_components() {
    let axis = |dx: f64, dy: f64| {
        RemoteDesktopEvent::NotifyPointerAxis(NotifyPointerAxis {
            session_handle: String::new(),
            options: Vec::new(),
            dx_bits: dx.to_bits(),
            dy_bits: dy.to_bits(),
        })
    };
    assert_eq!(
        translate(2, &axis(1.0, 0.0)),
        vec![KernelEvent { kind: 2, code: 0x08, value: 1 }]
    );
    assert_eq!(
        translate(2, &axis(0.0, -2.5)),
        vec![KernelEvent { kind: 2, code: 0x06, value: -2 }]
    );
    assert_eq!(translate(2, &axis(-0.0, 0.0)), Vec::new());
    assert_eq!(
        translate(2, &axis(3.0, 4.0)),
        vec![
            KernelEvent { kind: 2, code: 0x08, value: 3 },
            KernelEvent { kind: 2, code: 0x06, value: 4 },
        ]
    );
}

#[test]
fn translate_axis_discrete_picks_wheel() {
    let discrete = |axis: u32, steps: i32| {
        RemoteDesktopEvent::NotifyPointerAxisDiscrete(NotifyPointerAxisDiscrete {
            session_handle: String::new(),
            options: Vec::new(),
            axis,
            steps,
        })
    };
    assert_eq!(
        translate(2, &discrete(0, 3)),
        vec![KernelEvent { kind: 2, code: 0x08, value: 3 }]
    );
    assert_eq!(
        translate(2, &discrete(1, -1)),
        vec![KernelEvent { kind: 2, code: 0x06, value: -1 }]
    );
}

#[test]
fn translate_keycode() {
    assert_eq!(
        translate(1, &keycode(30, 1)),
        vec![KernelEvent { kind: 1, code: 30, value: 1 }]
    );
    assert_eq!(
        translate(3, &keycode(30, 0)),
        vec![KernelEvent { kind: 1, code: 30, value: 0 }]
    );
}

#[test]
fn translate_filters_unselected_capability() {
    // A keyboard notification on a pointer-only selection is dropped.
    assert_eq!(translate(2, &keycode(30, 1)), Vec::new());
    // A pointer notification on a keyboard-only selection is dropped.
    assert_eq!(translate(1, &motion(5.0, 5.0)), Vec::new());
}
