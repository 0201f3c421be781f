//! Delegation of screen-cast requests to another portal backend.
//!
//! Mirrors the remote-desktop delegation module; the one extra shape is the
//! media-remote call, whose remote result is an owned file descriptor and is
//! relayed as a value reply carrying it.

use vstd::prelude::*;

use crate::event_handler::events::screen_cast::{
    OpenPipeWireRemote, ScreenCastEvent, SelectSources, Start,
};
use crate::event_handler::{
    failure_reply, is_failure, is_failure_action, is_failure_with, is_ok_empty, ok_reply,
    Destination, DispatchAction, EventResponse, RemoteCall, RemoteOutcome,
};
use crate::values::VariantValue;

verus! {

/// One planned remote call against the destination's screen-cast interface,
/// carrying the originating request's fields verbatim.
#[derive(Debug, PartialEq)]
pub enum ScreenCastCall {
    SelectSources(SelectSources),
    Start(Start),
    OpenPipeWireRemote(OpenPipeWireRemote),
    AvailableSourceTypes,
    AvailableCursorModes,
    Version,
}

/// Remote calls that return a status and a result map.
pub open spec fn spec_is_method(c: ScreenCastCall) -> bool {
    c matches ScreenCastCall::SelectSources(_) || c matches ScreenCastCall::Start(_)
}

/// Remote calls that read a `u32` property.
pub open spec fn spec_is_property(c: ScreenCastCall) -> bool {
    match c {
        ScreenCastCall::AvailableSourceTypes => true,
        ScreenCastCall::AvailableCursorModes => true,
        ScreenCastCall::Version => true,
        _ => false,
    }
}

/// The remote call a request is forwarded as; the session-creating request
/// is consumed by the dispatcher and never forwarded.
pub open spec fn spec_forward(e: ScreenCastEvent) -> Option<ScreenCastCall> {
    match e {
        ScreenCastEvent::CreateSession(_) => None,
        ScreenCastEvent::SelectSources(r) => Some(ScreenCastCall::SelectSources(r)),
        ScreenCastEvent::Start(r) => Some(ScreenCastCall::Start(r)),
        ScreenCastEvent::OpenPipeWireRemote(r) => Some(ScreenCastCall::OpenPipeWireRemote(r)),
        ScreenCastEvent::GetPropertiesAvailableSourceTypes => Some(
            ScreenCastCall::AvailableSourceTypes,
        ),
        ScreenCastEvent::GetPropertiesAvailableCursorModes => Some(
            ScreenCastCall::AvailableCursorModes,
        ),
        ScreenCastEvent::GetPropertiesVersion => Some(ScreenCastCall::Version),
    }
}

/// The action a delegating handler answers a screen-cast request with: the
/// planned forwarding call, or — for a session-creating request reaching an
/// installed handler, a protocol error — an immediate failure reply.
pub open spec fn spec_action(e: ScreenCastEvent, r: DispatchAction) -> bool {
    match spec_forward(e) {
        Some(c) => r == DispatchAction::Forward(RemoteCall::ScreenCast(c)),
        None => is_failure_action(r),
    }
}

/// A delegating screen-cast session handler: remembers which session it
/// serves and which destination that session's calls go to.
#[derive(Debug)]
pub struct ScreenCastProxy {
    proxyed_session_handle: String,
    destination: Destination,
}

impl ScreenCastProxy {
    /// The session this handler serves.
    pub closed spec fn session(self) -> Seq<char> {
        self.proxyed_session_handle@
    }

    /// The destination this handler forwards to.
    pub closed spec fn dest_service(self) -> Seq<char> {
        self.destination.service_name@
    }

    pub closed spec fn dest_path(self) -> Seq<char> {
        self.destination.object_path@
    }

    /// Installs a handler for one session. The dispatcher only constructs
    /// one after the caller has resolved a client handle to `destination`.
    pub fn new(proxyed_session_handle: String, destination: Destination) -> (r: ScreenCastProxy)
        ensures
            r.session() == proxyed_session_handle@,
            r.dest_service() == destination.service_name@,
            r.dest_path() == destination.object_path@,
    {
        ScreenCastProxy { proxyed_session_handle, destination }
    }

    /// Plans the forwarding of one request: every request maps to the
    /// equivalent remote call with its fields verbatim. A session-creating
    /// request reaching an installed handler is a protocol error and is
    /// answered with a failure reply instead.
    pub fn handle(&self, event: ScreenCastEvent) -> (r: DispatchAction)
        ensures
            spec_action(event, r),
    {
        match event {
            ScreenCastEvent::CreateSession(_) => DispatchAction::Reply(
                failure_reply("session already exists"),
            ),
            ScreenCastEvent::SelectSources(r) => DispatchAction::Forward(
                RemoteCall::ScreenCast(ScreenCastCall::SelectSources(r)),
            ),
            ScreenCastEvent::Start(r) => DispatchAction::Forward(
                RemoteCall::ScreenCast(ScreenCastCall::Start(r)),
            ),
            ScreenCastEvent::OpenPipeWireRemote(r) => DispatchAction::Forward(
                RemoteCall::ScreenCast(ScreenCastCall::OpenPipeWireRemote(r)),
            ),
            ScreenCastEvent::GetPropertiesAvailableSourceTypes => DispatchAction::Forward(
                RemoteCall::ScreenCast(ScreenCastCall::AvailableSourceTypes),
            ),
            ScreenCastEvent::GetPropertiesAvailableCursorModes => DispatchAction::Forward(
                RemoteCall::ScreenCast(ScreenCastCall::AvailableCursorModes),
            ),
            ScreenCastEvent::GetPropertiesVersion => DispatchAction::Forward(
                RemoteCall::ScreenCast(ScreenCastCall::Version),
            ),
        }
    }
}

/// Turns the outcome of a performed screen-cast call into the reply owed to
/// the original caller. Total: every outcome, a remote failure included,
/// yields exactly one reply, so a reply slot can never be left unfulfilled.
/// An outcome whose shape does not match the call is a programming error
/// and yields a failure reply as well.
pub fn relay(call: &ScreenCastCall, outcome: RemoteOutcome) -> (r: EventResponse)
    ensures
        match outcome {
            RemoteOutcome::Method(res) => match res {
                Ok((st, m)) => if spec_is_method(*call) {
                    r == EventResponse::Standard(st, m)
                } else {
                    is_failure(r)
                },
                Err(msg) => is_failure_with(r, msg@),
            },
            RemoteOutcome::Ack(res) => match res {
                Ok(_) => is_failure(r),
                Err(msg) => is_failure_with(r, msg@),
            },
            RemoteOutcome::Property(res) => match res {
                Ok(v) => if spec_is_property(*call) {
                    r == EventResponse::Value(VariantValue::U32(v))
                } else {
                    is_failure(r)
                },
                Err(msg) => is_failure_with(r, msg@),
            },
            RemoteOutcome::Fd(res) => match res {
                Ok(fd) => if *call matches ScreenCastCall::OpenPipeWireRemote(_) {
                    r == EventResponse::Value(VariantValue::Fd(fd))
                } else {
                    is_failure(r)
                },
                Err(msg) => is_failure_with(r, msg@),
            },
        },
{
    match outcome {
        RemoteOutcome::Method(res) => match res {
            Ok((st, m)) => {
                if is_method_call(call) {
                    EventResponse::Standard(st, m)
                } else {
                    failure_reply("mismatched remote outcome")
                }
            },
            Err(msg) => failure_reply(msg.as_str()),
        },
        RemoteOutcome::Ack(res) => match res {
            Ok(_) => failure_reply("mismatched remote outcome"),
            Err(msg) => failure_reply(msg.as_str()),
        },
        RemoteOutcome::Property(res) => match res {
            Ok(v) => {
                if is_property_call(call) {
                    EventResponse::Value(VariantValue::U32(v))
                } else {
                    failure_reply("mismatched remote outcome")
                }
            },
            Err(msg) => failure_reply(msg.as_str()),
        },
        RemoteOutcome::Fd(res) => match res {
            Ok(fd) => {
                if matches!(call, ScreenCastCall::OpenPipeWireRemote(_)) {
                    EventResponse::Value(VariantValue::Fd(fd))
                } else {
                    failure_reply("mismatched remote outcome")
                }
            },
            Err(msg) => failure_reply(msg.as_str()),
        },
    }
}

fn is_method_call(c: &ScreenCastCall) -> (r: bool)
    ensures
        r == spec_is_method(*c),
{
    match c {
        ScreenCastCall::SelectSources(_) => true,
        ScreenCastCall::Start(_) => true,
        _ => false,
    }
}

fn is_property_call(c: &ScreenCastCall) -> (r: bool)
    ensures
        r == spec_is_property(*c),
{
    match c {
        ScreenCastCall::AvailableSourceTypes => true,
        ScreenCastCall::AvailableCursorModes => true,
        ScreenCastCall::Version => true,
        _ => false,
    }
}

} // verus!
