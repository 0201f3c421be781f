//! Screen-cast requests, modeled as plain values.
//!
//! The screen-cast family mirrors the remote-desktop family structurally;
//! this backend only ever delegates it to another portal backend.

use vstd::prelude::*;

use crate::values::VariantValue;

verus! {

#[derive(Debug, PartialEq)]
pub struct CreateSession {
    pub handle: String,
    pub session_handle: String,
    pub app_id: String,
    pub options: Vec<(String, VariantValue)>,
}

#[derive(Debug, PartialEq)]
pub struct SelectSources {
    pub handle: String,
    pub session_handle: String,
    pub app_id: String,
    pub options: Vec<(String, VariantValue)>,
}

#[derive(Debug, PartialEq)]
pub struct Start {
    pub handle: String,
    pub session_handle: String,
    pub app_id: String,
    pub parent_window: String,
    pub options: Vec<(String, VariantValue)>,
}

#[derive(Debug, PartialEq)]
pub struct OpenPipeWireRemote {
    pub session_handle: String,
    pub app_id: String,
    pub options: Vec<(String, VariantValue)>,
}

#[derive(Debug, PartialEq)]
pub enum ScreenCastEvent {
    CreateSession(CreateSession),
    SelectSources(SelectSources),
    Start(Start),
    OpenPipeWireRemote(OpenPipeWireRemote),
    GetPropertiesAvailableSourceTypes,
    GetPropertiesAvailableCursorModes,
    GetPropertiesVersion,
}

impl ScreenCastEvent {
    /// The session this request addresses; property reads address none.
    pub open spec fn spec_session(self) -> Option<Seq<char>> {
        match self {
            ScreenCastEvent::CreateSession(r) => Some(r.session_handle@),
            ScreenCastEvent::SelectSources(r) => Some(r.session_handle@),
            ScreenCastEvent::Start(r) => Some(r.session_handle@),
            ScreenCastEvent::OpenPipeWireRemote(r) => Some(r.session_handle@),
            ScreenCastEvent::GetPropertiesAvailableSourceTypes => None,
            ScreenCastEvent::GetPropertiesAvailableCursorModes => None,
            ScreenCastEvent::GetPropertiesVersion => None,
        }
    }

    /// Whether this is the session-creating request of the family.
    pub open spec fn spec_is_create(self) -> bool {
        self matches ScreenCastEvent::CreateSession(_)
    }

    /// Every screen-cast request is a method call or a property read, so
    /// every one owes the caller a reply.
    pub open spec fn spec_expects_reply(self) -> bool {
        true
    }

    /// The session this request addresses, read off the request itself.
    pub fn session(&self) -> (r: Option<&String>)
        ensures
            match r {
                Some(s) => self.spec_session() == Some::<Seq<char>>(s@),
                None => self.spec_session() is None,
            },
    {
        match self {
            ScreenCastEvent::CreateSession(r) => Some(&r.session_handle),
            ScreenCastEvent::SelectSources(r) => Some(&r.session_handle),
            ScreenCastEvent::Start(r) => Some(&r.session_handle),
            ScreenCastEvent::OpenPipeWireRemote(r) => Some(&r.session_handle),
            ScreenCastEvent::GetPropertiesAvailableSourceTypes => None,
            ScreenCastEvent::GetPropertiesAvailableCursorModes => None,
            ScreenCastEvent::GetPropertiesVersion => None,
        }
    }
}

} // verus!
