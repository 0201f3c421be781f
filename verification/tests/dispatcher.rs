//! The dispatcher: session creation, routing, family checks, and the
//! connection handshake of proxy mode.

use portal_bypass::event_handler::events::remote_desktop as rd;
use portal_bypass::event_handler::events::screen_cast as sc;
use portal_bypass::event_handler::proxy::remote_desktop::RemoteDesktopCall;
use portal_bypass::event_handler::{
    ConnectRequest, Destination, DispatchAction, Event, EventHandler, EventResponse, Family,
    RemoteCall, WorkingMode,
};
use portal_bypass::values::VariantValue;

fn dest() -> Destination {
    Destination {
        service_name: "org.freedesktop.impl.portal.desktop.gnome".to_string(),
        object_path: "/org/freedesktop/portal/desktop".to_string(),
    }
}

fn rd_create(session: &str) -> Event {
    Event::RemoteDesktop(rd::RemoteDesktopEvent::CreateSession(rd::CreateSession {
        handle: "/req/1".to_string(),
        session_handle: session.to_string(),
        app_id: "org.example.Test".to_string(),
        options: Vec::new(),
    }))
}

fn sc_create(session: &str) -> Event {
    Event::ScreenCast(sc::ScreenCastEvent::CreateSession(sc::CreateSession {
        handle: "/req/1".to_string(),
        session_handle: session.to_string(),
        app_id: "org.example.Test".to_string(),
        options: Vec::new(),
    }))
}

fn rd_select(session: &str, types: u32) -> Event {
    Event::RemoteDesktop(rd::RemoteDesktopEvent::SelectDevices(rd::SelectDevices {
        handle: "/req/2".to_string(),
        session_handle: session.to_string(),
        app_id: "org.example.Test".to_string(),
        options: vec![("types".to_string(), VariantValue::U32(types))],
    }))
}

fn rd_motion(session: &str) -> Event {
    Event::RemoteDesktop(rd::RemoteDesktopEvent::NotifyPointerMotion(rd::NotifyPointerMotion {
        session_handle: session.to_string(),
        options: Vec::new(),
        dx_bits: (7.0f64).to_bits(),
        dy_bits: (7.0f64).to_bits(),
    }))
}

fn sc_sources(session: &str) -> Event {
    Event::ScreenCast(sc::ScreenCastEvent::SelectSources(sc::SelectSources {
        handle: "/req/3".to_string(),
        session_handle: session.to_string(),
        app_id: "org.example.Test".to_string(),
        options: Vec::new(),
    }))
}

fn is_failure(action: &DispatchAction) -> bool {
    matches!(action, DispatchAction::Reply(EventResponse::Standard(2, _)))
}

fn ok_reply() -> DispatchAction {
    DispatchAction::Reply(EventResponse::Standard(0, Vec::new()))
}

#[test]
fn server_mode_creates_and_routes_sessions() {
    let mut h = EventHandler::new(WorkingMode::Server);
    assert!(!h.has_session(&"/session/1".to_string()));

    assert_eq!(h.handle(rd_create("/session/1")), ok_reply());
    assert!(h.has_session(&"/session/1".to_string()));

    assert_eq!(h.handle(rd_select("/session/1", 2)), ok_reply());

    // Device selection already happened: re-selecting is rejected, so the
    // request demonstrably reached the same session again.
    assert!(is_failure(&h.handle(rd_select("/session/1", 1))));
}

#[test]
fn server_mode_duplicate_create_rejected() {
    let mut h = EventHandler::new(WorkingMode::Server);
    assert_eq!(h.handle(rd_create("/session/1")), ok_reply());
    assert!(is_failure(&h.handle(rd_create("/session/1"))));
    assert!(h.has_session(&"/session/1".to_string()));
}

#[test]
fn server_mode_unknown_session() {
    let mut h = EventHandler::new(WorkingMode::Server);
    // A method call for an unknown session is answered with a failure.
    assert!(is_failure(&h.handle(rd_select("/nowhere", 2))));
    // A one-way notification for an unknown session is dropped silently.
    assert_eq!(h.handle(rd_motion("/nowhere")), DispatchAction::NoReply);
    assert!(!h.has_session(&"/nowhere".to_string()));
}

#[test]
fn server_mode_rejects_screen_cast() {
    let mut h = EventHandler::new(WorkingMode::Server);
    assert!(is_failure(&h.handle(sc_create("/session/sc"))));
    assert!(!h.has_session(&"/session/sc".to_string()));
    assert!(is_failure(&h.handle(Event::ScreenCast(
        sc::ScreenCastEvent::GetPropertiesAvailableSourceTypes
    ))));
}

#[test]
fn wrong_family_request_is_protocol_error() {
    let mut h = EventHandler::new(WorkingMode::Server);
    assert_eq!(h.handle(rd_create("/session/1")), ok_reply());
    // A screen-cast request addressed to the remote-desktop session.
    assert!(is_failure(&h.handle(sc_sources("/session/1"))));
}

#[test]
fn server_mode_property_reads() {
    let mut h = EventHandler::new(WorkingMode::Server);
    assert_eq!(
        h.handle(Event::RemoteDesktop(
            rd::RemoteDesktopEvent::GetPropertiesAvailableDeviceTypes
        )),
        DispatchAction::Reply(EventResponse::Value(VariantValue::U32(3)))
    );
    assert_eq!(
        h.handle(Event::RemoteDesktop(rd::RemoteDesktopEvent::GetPropertiesVersion)),
        DispatchAction::Reply(EventResponse::Value(VariantValue::U32(1)))
    );
}

#[test]
fn proxy_mode_connect_handshake() {
    let mut h = EventHandler::new(WorkingMode::Proxy(dest()));

    let r = h.handle(rd_create("/session/1"));
    let request = match r {
        DispatchAction::Connect(req) => req,
        other => panic!("expected a connection request, got {other:?}"),
    };
    assert_eq!(request.family, Family::RemoteDesktop);
    assert_eq!(request.session_handle, "/session/1".to_string());
    assert_eq!(request.destination, dest());
    // The row is only installed once the connection attempt succeeds.
    assert!(!h.has_session(&"/session/1".to_string()));

    let reply = h.complete_connect(request, Ok(()));
    assert_eq!(reply, EventResponse::Standard(0, Vec::new()));
    assert!(h.has_session(&"/session/1".to_string()));

    // The session now forwards requests verbatim.
    let r = h.handle(rd_select("/session/1", 2));
    assert!(matches!(
        r,
        DispatchAction::Forward(RemoteCall::RemoteDesktop(RemoteDesktopCall::SelectDevices(_)))
    ));
    let r = h.handle(rd_motion("/session/1"));
    assert!(matches!(
        r,
        DispatchAction::Forward(RemoteCall::RemoteDesktop(
            RemoteDesktopCall::NotifyPointerMotion(_)
        ))
    ));
}

#[test]
fn proxy_mode_failed_connect_installs_nothing() {
    let mut h = EventHandler::new(WorkingMode::Proxy(dest()));
    let request = match h.handle(rd_create("/session/1")) {
        DispatchAction::Connect(req) => req,
        other => panic!("expected a connection request, got {other:?}"),
    };
    let reply = h.complete_connect(request, Err("destination unreachable".to_string()));
    assert_eq!(
        reply,
        EventResponse::Standard(
            2,
            vec![(
                "error".to_string(),
                VariantValue::Str("destination unreachable".to_string())
            )]
        )
    );
    assert!(!h.has_session(&"/session/1".to_string()));

    // A later creating request retries the connection.
    assert!(matches!(
        h.handle(rd_create("/session/1")),
        DispatchAction::Connect(_)
    ));
}

#[test]
fn proxy_mode_screen_cast_session() {
    let mut h = EventHandler::new(WorkingMode::Proxy(dest()));
    let request = match h.handle(sc_create("/session/sc")) {
        DispatchAction::Connect(req) => req,
        other => panic!("expected a connection request, got {other:?}"),
    };
    assert_eq!(request.family, Family::ScreenCast);
    assert_eq!(h.complete_connect(request, Ok(())), EventResponse::Standard(0, Vec::new()));
    assert!(matches!(
        h.handle(sc_sources("/session/sc")),
        DispatchAction::Forward(RemoteCall::ScreenCast(_))
    ));
}

#[test]
fn proxy_mode_forwards_property_reads() {
    let mut h = EventHandler::new(WorkingMode::Proxy(dest()));
    assert_eq!(
        h.handle(Event::RemoteDesktop(rd::RemoteDesktopEvent::GetPropertiesVersion)),
        DispatchAction::Forward(RemoteCall::RemoteDesktop(RemoteDesktopCall::Version))
    );
}

/// Every request that owes the caller a reply is answered by an action that
/// produces exactly one: a direct reply, a forwarding plan whose relay is
/// total, or a connection handshake whose completion replies.
#[test]
fn reply_owed_requests_never_dropped() {
    let mut server = EventHandler::new(WorkingMode::Server);
    let mut proxy = EventHandler::new(WorkingMode::Proxy(dest()));
    let requests = [
        rd_create("/s"),
        rd_select("/s", 2),
        sc_create("/c"),
        sc_sources("/c"),
        Event::RemoteDesktop(rd::RemoteDesktopEvent::GetPropertiesAvailableDeviceTypes),
        Event::ScreenCast(sc::ScreenCastEvent::GetPropertiesVersion),
    ];
    for request in requests {
        let a = server.handle(clone_event(&request));
        assert!(!matches!(a, DispatchAction::NoReply), "server dropped {request:?}");
        let b = proxy.handle(clone_event(&request));
        assert!(!matches!(b, DispatchAction::NoReply), "proxy dropped {request:?}");
    }
}

fn clone_event(e: &Event) -> Event {
    match e {
        Event::RemoteDesktop(rd::RemoteDesktopEvent::CreateSession(c)) => {
            Event::RemoteDesktop(rd::RemoteDesktopEvent::CreateSession(rd::CreateSession {
                handle: c.handle.clone(),
                session_handle: c.session_handle.clone(),
                app_id: c.app_id.clone(),
                options: c.options.clone(),
            }))
        }
        Event::RemoteDesktop(rd::RemoteDesktopEvent::SelectDevices(c)) => {
            Event::RemoteDesktop(rd::RemoteDesktopEvent::SelectDevices(rd::SelectDevices {
                handle: c.handle.clone(),
                session_handle: c.session_handle.clone(),
                app_id: c.app_id.clone(),
                options: c.options.clone(),
            }))
        }
        Event::RemoteDesktop(rd::RemoteDesktopEvent::GetPropertiesAvailableDeviceTypes) => {
            Event::RemoteDesktop(rd::RemoteDesktopEvent::GetPropertiesAvailableDeviceTypes)
        }
        Event::ScreenCast(sc::ScreenCastEvent::CreateSession(c)) => {
            Event::ScreenCast(sc::ScreenCastEvent::CreateSession(sc::CreateSession {
                handle: c.handle.clone(),
                session_handle: c.session_handle.clone(),
                app_id: c.app_id.clone(),
                options: c.options.clone(),
            }))
        }
        Event::ScreenCast(sc::ScreenCastEvent::SelectSources(c)) => {
            Event::ScreenCast(sc::ScreenCastEvent::SelectSources(sc::SelectSources {
                handle: c.handle.clone(),
                session_handle: c.session_handle.clone(),
                app_id: c.app_id.clone(),
                options: c.options.clone(),
            }))
        }
        Event::ScreenCast(sc::ScreenCastEvent::GetPropertiesVersion) => {
            Event::ScreenCast(sc::ScreenCastEvent::GetPropertiesVersion)
        }
        other => panic!("no clone for {other:?}"),
    }
}
