//! Delegation of remote-desktop requests to another portal backend.
//!
//! A [`RemoteDesktopProxy`] never touches hardware: it plans, for every
//! request, the equivalent remote call with the request's fields verbatim.
//! The caller of this library performs that call asynchronously and feeds
//! the outcome to [`relay`], which always produces exactly one reply — a
//! remote failure becomes a failure reply, never a dropped one.

use vstd::prelude::*;

use crate::event_handler::events::remote_desktop::{
    NotifyKeyboardKeycode, NotifyKeyboardKeysym, NotifyPointerAxis, NotifyPointerAxisDiscrete,
    NotifyPointerButton, NotifyPointerMotion, NotifyPointerMotionAbsolute, RemoteDesktopEvent,
    SelectDevices, Start,
};
use crate::event_handler::{
    failure_reply, is_failure, is_failure_action, is_failure_with, is_ok_empty, ok_reply,
    Destination, DispatchAction, EventResponse, RemoteCall, RemoteOutcome,
};
use crate::values::VariantValue;

verus! {

/// One planned remote call against the destination's remote-desktop
/// interface, carrying the originating request's fields verbatim.
#[derive(Debug, PartialEq)]
pub enum RemoteDesktopCall {
    SelectDevices(SelectDevices),
    Start(Start),
    NotifyPointerMotion(NotifyPointerMotion),
    NotifyPointerMotionAbsolute(NotifyPointerMotionAbsolute),
    NotifyPointerButton(NotifyPointerButton),
    NotifyPointerAxis(NotifyPointerAxis),
    NotifyPointerAxisDiscrete(NotifyPointerAxisDiscrete),
    NotifyKeyboardKeycode(NotifyKeyboardKeycode),
    NotifyKeyboardKeysym(NotifyKeyboardKeysym),
    AvailableDeviceTypes,
    Version,
}

/// Remote calls that return a status and a result map.
pub open spec fn spec_is_method(c: RemoteDesktopCall) -> bool {
    c matches RemoteDesktopCall::SelectDevices(_) || c matches RemoteDesktopCall::Start(_)
}

/// Remote calls that return a bare acknowledgement.
pub open spec fn spec_is_ack(c: RemoteDesktopCall) -> bool {
    match c {
        RemoteDesktopCall::NotifyPointerMotion(_) => true,
        RemoteDesktopCall::NotifyPointerMotionAbsolute(_) => true,
        RemoteDesktopCall::NotifyPointerButton(_) => true,
        RemoteDesktopCall::NotifyPointerAxis(_) => true,
        RemoteDesktopCall::NotifyPointerAxisDiscrete(_) => true,
        RemoteDesktopCall::NotifyKeyboardKeycode(_) => true,
        RemoteDesktopCall::NotifyKeyboardKeysym(_) => true,
        _ => false,
    }
}

/// Remote calls that read a `u32` property.
pub open spec fn spec_is_property(c: RemoteDesktopCall) -> bool {
    c matches RemoteDesktopCall::AvailableDeviceTypes || c matches RemoteDesktopCall::Version
}

/// The remote call a request is forwarded as. The session-creating request
/// is consumed by the dispatcher when it installs the handler and is never
/// forwarded, so a handler that receives one maps it to no call.
pub open spec fn spec_forward(e: RemoteDesktopEvent) -> Option<RemoteDesktopCall> {
    match e {
        RemoteDesktopEvent::CreateSession(_) => None,
        RemoteDesktopEvent::SelectDevices(r) => Some(RemoteDesktopCall::SelectDevices(r)),
        RemoteDesktopEvent::Start(r) => Some(RemoteDesktopCall::Start(r)),
        RemoteDesktopEvent::NotifyPointerMotion(r) => Some(
            RemoteDesktopCall::NotifyPointerMotion(r),
        ),
        RemoteDesktopEvent::NotifyPointerMotionAbsolute(r) => Some(
            RemoteDesktopCall::NotifyPointerMotionAbsolute(r),
        ),
        RemoteDesktopEvent::NotifyPointerButton(r) => Some(
            RemoteDesktopCall::NotifyPointerButton(r),
        ),
        RemoteDesktopEvent::NotifyPointerAxis(r) => Some(RemoteDesktopCall::NotifyPointerAxis(r)),
        RemoteDesktopEvent::NotifyPointerAxisDiscrete(r) => Some(
            RemoteDesktopCall::NotifyPointerAxisDiscrete(r),
        ),
        RemoteDesktopEvent::NotifyKeyboardKeycode(r) => Some(
            RemoteDesktopCall::NotifyKeyboardKeycode(r),
        ),
        RemoteDesktopEvent::NotifyKeyboardKeysym(r) => Some(
            RemoteDesktopCall::NotifyKeyboardKeysym(r),
        ),
        RemoteDesktopEvent::GetPropertiesAvailableDeviceTypes => Some(
            RemoteDesktopCall::AvailableDeviceTypes,
        ),
        RemoteDesktopEvent::GetPropertiesVersion => Some(RemoteDesktopCall::Version),
    }
}

/// The action a delegating handler answers a remote-desktop request with:
/// the planned forwarding call, or — for a session-creating request reaching
/// an installed handler, a protocol error — an immediate failure reply.
pub open spec fn spec_action(e: RemoteDesktopEvent, r: DispatchAction) -> bool {
    match spec_forward(e) {
        Some(c) => r == DispatchAction::Forward(RemoteCall::RemoteDesktop(c)),
        None => is_failure_action(r),
    }
}

/// A delegating remote-desktop session handler: remembers which session it
/// serves and which destination that session's calls go to.
#[derive(Debug)]
pub struct RemoteDesktopProxy {
    proxyed_session_handle: String,
    destination: Destination,
}

impl RemoteDesktopProxy {
    /// The session this handler serves.
    pub closed spec fn session(self) -> Seq<char> {
        self.proxyed_session_handle@
    }

    /// The destination this handler forwards to.
    pub closed spec fn dest_service(self) -> Seq<char> {
        self.destination.service_name@
    }

    pub closed spec fn dest_path(self) -> Seq<char> {
        self.destination.object_path@
    }

    /// Installs a handler for one session. The dispatcher only constructs
    /// one after the caller has resolved a client handle to `destination`.
    pub fn new(proxyed_session_handle: String, destination: Destination) -> (r: RemoteDesktopProxy)
        ensures
            r.session() == proxyed_session_handle@,
            r.dest_service() == destination.service_name@,
            r.dest_path() == destination.object_path@,
    {
        RemoteDesktopProxy { proxyed_session_handle, destination }
    }

    /// Plans the forwarding of one request: every request maps to the
    /// equivalent remote call with its fields verbatim. A session-creating
    /// request reaching an installed handler is a protocol error and is
    /// answered with a failure reply instead.
    pub fn handle(&self, event: RemoteDesktopEvent) -> (r: DispatchAction)
        ensures
            spec_action(event, r),
    {
        match event {
            RemoteDesktopEvent::CreateSession(_) => DispatchAction::Reply(
                failure_reply("session already exists"),
            ),
            RemoteDesktopEvent::SelectDevices(r) => DispatchAction::Forward(
                RemoteCall::RemoteDesktop(RemoteDesktopCall::SelectDevices(r)),
            ),
            RemoteDesktopEvent::Start(r) => DispatchAction::Forward(
                RemoteCall::RemoteDesktop(RemoteDesktopCall::Start(r)),
            ),
            RemoteDesktopEvent::NotifyPointerMotion(r) => DispatchAction::Forward(
                RemoteCall::RemoteDesktop(RemoteDesktopCall::NotifyPointerMotion(r)),
            ),
            RemoteDesktopEvent::NotifyPointerMotionAbsolute(r) => DispatchAction::Forward(
                RemoteCall::RemoteDesktop(RemoteDesktopCall::NotifyPointerMotionAbsolute(r)),
            ),
            RemoteDesktopEvent::NotifyPointerButton(r) => DispatchAction::Forward(
                RemoteCall::RemoteDesktop(RemoteDesktopCall::NotifyPointerButton(r)),
            ),
            RemoteDesktopEvent::NotifyPointerAxis(r) => DispatchAction::Forward(
                RemoteCall::RemoteDesktop(RemoteDesktopCall::NotifyPointerAxis(r)),
            ),
            RemoteDesktopEvent::NotifyPointerAxisDiscrete(r) => DispatchAction::Forward(
                RemoteCall::RemoteDesktop(RemoteDesktopCall::NotifyPointerAxisDiscrete(r)),
            ),
            RemoteDesktopEvent::NotifyKeyboardKeycode(r) => DispatchAction::Forward(
                RemoteCall::RemoteDesktop(RemoteDesktopCall::NotifyKeyboardKeycode(r)),
            ),
            RemoteDesktopEvent::NotifyKeyboardKeysym(r) => DispatchAction::Forward(
                RemoteCall::RemoteDesktop(RemoteDesktopCall::NotifyKeyboardKeysym(r)),
            ),
            RemoteDesktopEvent::GetPropertiesAvailableDeviceTypes => DispatchAction::Forward(
                RemoteCall::RemoteDesktop(RemoteDesktopCall::AvailableDeviceTypes),
            ),
            RemoteDesktopEvent::GetPropertiesVersion => DispatchAction::Forward(
                RemoteCall::RemoteDesktop(RemoteDesktopCall::Version),
            ),
        }
    }
}

/// Turns the outcome of a performed remote-desktop call into the reply owed
/// to the original caller. Total: every outcome, a remote failure included,
/// yields exactly one reply, so a reply slot can never be left unfulfilled.
/// An outcome whose shape does not match the call is a programming error
/// and yields a failure reply as well.
pub fn relay(call: &RemoteDesktopCall, outcome: RemoteOutcome) -> (r: EventResponse)
    ensures
        match outcome {
            RemoteOutcome::Method(res) => match res {
                Ok((st, m)) => if spec_is_method(*call) {
                    r == EventResponse::Standard(st, m)
                } else {
                    is_failure(r)
                },
                Err(msg) => is_failure_with(r, msg@),
            },
            RemoteOutcome::Ack(res) => match res {
                Ok(_) => if spec_is_ack(*call) {
                    is_ok_empty(r)
                } else {
                    is_failure(r)
                },
                Err(msg) => is_failure_with(r, msg@),
            },
            RemoteOutcome::Property(res) => match res {
                Ok(v) => if spec_is_property(*call) {
                    r == EventResponse::Value(VariantValue::U32(v))
                } else {
                    is_failure(r)
                },
                Err(msg) => is_failure_with(r, msg@),
            },
            RemoteOutcome::Fd(res) => match res {
                Ok(_) => is_failure(r),
                Err(msg) => is_failure_with(r, msg@),
            },
        },
{
    match outcome {
        RemoteOutcome::Method(res) => match res {
            Ok((st, m)) => {
                if is_method_call(call) {
                    EventResponse::Standard(st, m)
                } else {
                    failure_reply("mismatched remote outcome")
                }
            },
            Err(msg) => failure_reply(msg.as_str()),
        },
        RemoteOutcome::Ack(res) => match res {
            Ok(_) => {
                if is_ack_call(call) {
                    ok_reply()
                } else {
                    failure_reply("mismatched remote outcome")
                }
            },
            Err(msg) => failure_reply(msg.as_str()),
        },
        RemoteOutcome::Property(res) => match res {
            Ok(v) => {
                if is_property_call(call) {
                    EventResponse::Value(VariantValue::U32(v))
                } else {
                    failure_reply("mismatched remote outcome")
                }
            },
            Err(msg) => failure_reply(msg.as_str()),
        },
        RemoteOutcome::Fd(res) => match res {
            Ok(_) => failure_reply("mismatched remote outcome"),
            Err(msg) => failure_reply(msg.as_str()),
        },
    }
}

fn is_method_call(c: &RemoteDesktopCall) -> (r: bool)
    ensures
        r == spec_is_method(*c),
{
    match c {
        RemoteDesktopCall::SelectDevices(_) => true,
        RemoteDesktopCall::Start(_) => true,
        _ => false,
    }
}

fn is_ack_call(c: &RemoteDesktopCall) -> (r: bool)
    ensures
        r == spec_is_ack(*c),
{
    match c {
        RemoteDesktopCall::NotifyPointerMotion(_) => true,
        RemoteDesktopCall::NotifyPointerMotionAbsolute(_) => true,
        RemoteDesktopCall::NotifyPointerButton(_) => true,
        RemoteDesktopCall::NotifyPointerAxis(_) => true,
        RemoteDesktopCall::NotifyPointerAxisDiscrete(_) => true,
        RemoteDesktopCall::NotifyKeyboardKeycode(_) => true,
        RemoteDesktopCall::NotifyKeyboardKeysym(_) => true,
        _ => false,
    }
}

fn is_property_call(c: &RemoteDesktopCall) -> (r: bool)
    ensures
        r == spec_is_property(*c),
{
    match c {
        RemoteDesktopCall::AvailableDeviceTypes => true,
        RemoteDesktopCall::Version => true,
        _ => false,
    }
}

} // verus!
