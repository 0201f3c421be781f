//! Remote-desktop requests, modeled as plain values.
//!
//! Object paths are carried as strings, option maps as key/value vectors,
//! and double-precision deltas as their IEEE-754 bit patterns (see
//! [`crate::float_bits`]).

use vstd::prelude::*;

use crate::values::VariantValue;

verus! {

#[derive(Debug, PartialEq)]
pub struct CreateSession {
    pub handle: String,
    pub session_handle: String,
    pub app_id: String,
    pub options: Vec<(String, VariantValue)>,
}

#[derive(Debug, PartialEq)]
pub struct SelectDevices {
    pub handle: String,
    pub session_handle: String,
    pub app_id: String,
    pub options: Vec<(String, VariantValue)>,
}

#[derive(Debug, PartialEq)]
pub struct Start {
    pub handle: String,
    pub session_handle: String,
    pub app_id: String,
    pub parent_window: String,
    pub options: Vec<(String, VariantValue)>,
}

#[derive(Debug, PartialEq)]
pub struct NotifyPointerMotion {
    pub session_handle: String,
    pub options: Vec<(String, VariantValue)>,
    /// IEEE-754 bit pattern of the horizontal delta.
    pub dx_bits: u64,
    /// IEEE-754 bit pattern of the vertical delta.
    pub dy_bits: u64,
}

#[derive(Debug, PartialEq)]
pub struct NotifyPointerMotionAbsolute {
    pub session_handle: String,
    pub options: Vec<(String, VariantValue)>,
    pub stream: u32,
    /// IEEE-754 bit pattern of the horizontal position.
    pub x_bits: u64,
    /// IEEE-754 bit pattern of the vertical position.
    pub y_bits: u64,
}

#[derive(Debug, PartialEq)]
pub struct NotifyPointerButton {
    pub session_handle: String,
    pub options: Vec<(String, VariantValue)>,
    pub button: i32,
    pub state: u32,
}

#[derive(Debug, PartialEq)]
pub struct NotifyPointerAxis {
    pub session_handle: String,
    pub options: Vec<(String, VariantValue)>,
    /// IEEE-754 bit pattern of the vertical scroll delta.
    pub dx_bits: u64,
    /// IEEE-754 bit pattern of the horizontal scroll delta.
    pub dy_bits: u64,
}

#[derive(Debug, PartialEq)]
pub struct NotifyPointerAxisDiscrete {
    pub session_handle: String,
    pub options: Vec<(String, VariantValue)>,
    pub axis: u32,
    pub steps: i32,
}

#[derive(Debug, PartialEq)]
pub struct NotifyKeyboardKeycode {
    pub session_handle: String,
    pub options: Vec<(String, VariantValue)>,
    pub keycode: i32,
    pub state: u32,
}

#[derive(Debug, PartialEq)]
pub struct NotifyKeyboardKeysym {
    pub session_handle: String,
    pub options: Vec<(String, VariantValue)>,
    pub keysym: i32,
    pub state: u32,
}

#[derive(Debug, PartialEq)]
pub enum RemoteDesktopEvent {
    CreateSession(CreateSession),
    SelectDevices(SelectDevices),
    Start(Start),
    NotifyPointerMotion(NotifyPointerMotion),
    NotifyPointerMotionAbsolute(NotifyPointerMotionAbsolute),
    NotifyPointerButton(NotifyPointerButton),
    NotifyPointerAxis(NotifyPointerAxis),
    NotifyPointerAxisDiscrete(NotifyPointerAxisDiscrete),
    NotifyKeyboardKeycode(NotifyKeyboardKeycode),
    NotifyKeyboardKeysym(NotifyKeyboardKeysym),
    GetPropertiesAvailableDeviceTypes,
    GetPropertiesVersion,
}

impl RemoteDesktopEvent {
    /// The session this request addresses; property reads address none.
    pub open spec fn spec_session(self) -> Option<Seq<char>> {
        match self {
            RemoteDesktopEvent::CreateSession(r) => Some(r.session_handle@),
            RemoteDesktopEvent::SelectDevices(r) => Some(r.session_handle@),
            RemoteDesktopEvent::Start(r) => Some(r.session_handle@),
            RemoteDesktopEvent::NotifyPointerMotion(r) => Some(r.session_handle@),
            RemoteDesktopEvent::NotifyPointerMotionAbsolute(r) => Some(r.session_handle@),
            RemoteDesktopEvent::NotifyPointerButton(r) => Some(r.session_handle@),
            RemoteDesktopEvent::NotifyPointerAxis(r) => Some(r.session_handle@),
            RemoteDesktopEvent::NotifyPointerAxisDiscrete(r) => Some(r.session_handle@),
            RemoteDesktopEvent::NotifyKeyboardKeycode(r) => Some(r.session_handle@),
            RemoteDesktopEvent::NotifyKeyboardKeysym(r) => Some(r.session_handle@),
            RemoteDesktopEvent::GetPropertiesAvailableDeviceTypes => None,
            RemoteDesktopEvent::GetPropertiesVersion => None,
        }
    }

    /// Whether this is the session-creating request of the family.
    pub open spec fn spec_is_create(self) -> bool {
        self matches RemoteDesktopEvent::CreateSession(_)
    }

    /// Whether the protocol owes the caller a reply for this request.
    ///
    /// The notify operations are one-way, with one designed exception: a
    /// symbolic-keysym notification is always answered, since no keymap is
    /// available to translate it.
    pub open spec fn spec_expects_reply(self) -> bool {
        match self {
            RemoteDesktopEvent::NotifyPointerMotion(_) => false,
            RemoteDesktopEvent::NotifyPointerMotionAbsolute(_) => false,
            RemoteDesktopEvent::NotifyPointerButton(_) => false,
            RemoteDesktopEvent::NotifyPointerAxis(_) => false,
            RemoteDesktopEvent::NotifyPointerAxisDiscrete(_) => false,
            RemoteDesktopEvent::NotifyKeyboardKeycode(_) => false,
            _ => true,
        }
    }

    /// The session this request addresses, read off the request itself.
    pub fn session(&self) -> (r: Option<&String>)
        ensures
            match r {
                Some(s) => self.spec_session() == Some::<Seq<char>>(s@),
                None => self.spec_session() is None,
            },
    {
        match self {
            RemoteDesktopEvent::CreateSession(r) => Some(&r.session_handle),
            RemoteDesktopEvent::SelectDevices(r) => Some(&r.session_handle),
            RemoteDesktopEvent::Start(r) => Some(&r.session_handle),
            RemoteDesktopEvent::NotifyPointerMotion(r) => Some(&r.session_handle),
            RemoteDesktopEvent::NotifyPointerMotionAbsolute(r) => Some(&r.session_handle),
            RemoteDesktopEvent::NotifyPointerButton(r) => Some(&r.session_handle),
            RemoteDesktopEvent::NotifyPointerAxis(r) => Some(&r.session_handle),
            RemoteDesktopEvent::NotifyPointerAxisDiscrete(r) => Some(&r.session_handle),
            RemoteDesktopEvent::NotifyKeyboardKeycode(r) => Some(&r.session_handle),
            RemoteDesktopEvent::NotifyKeyboardKeysym(r) => Some(&r.session_handle),
            RemoteDesktopEvent::GetPropertiesAvailableDeviceTypes => None,
            RemoteDesktopEvent::GetPropertiesVersion => None,
        }
    }
}

} // verus!
