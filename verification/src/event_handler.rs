//! The dispatcher: operating mode, session table, and request routing.
//!
//! Exactly one execution context owns an [`EventHandler`] and feeds it
//! requests pulled from an ingress queue. Handling a request either answers
//! it on the spot or returns the outside work that must be performed for it
//! (an asynchronous forwarding call, or a connection attempt); the caller of
//! this library performs that work and feeds its outcome back in. Replies
//! are plain values; the transport layer correlates them with callers.

use vstd::prelude::*;

use crate::values::VariantValue;

pub mod events;
pub mod proxy;
pub mod server;

use events::remote_desktop::RemoteDesktopEvent;
use events::screen_cast::ScreenCastEvent;
use proxy::remote_desktop::spec_action as rd_spec_action;
use proxy::remote_desktop::RemoteDesktopCall;
use proxy::remote_desktop::RemoteDesktopProxy;
use proxy::screen_cast::spec_action as sc_spec_action;
use proxy::screen_cast::ScreenCastCall;
use proxy::screen_cast::ScreenCastProxy;
use server::device::KernelEvent;
use server::remote_desktop::{server_step, RemoteDesktopServer, PROTOCOL_VERSION, SUPPORTED_DEVICE_TYPES};

verus! {

/// A reply to a protocol request: a status with a result map for method
/// calls, or a single value for property reads. Status `0` is success; a
/// failure carries a human-readable message in the result map.
#[derive(Debug, PartialEq, Eq)]
pub enum EventResponse {
    Standard(u32, Vec<(String, VariantValue)>),
    Value(VariantValue),
}

/// The remote destination a delegating backend forwards to.
#[derive(Debug, PartialEq)]
pub struct Destination {
    pub service_name: String,
    pub object_path: String,
}

impl Destination {
    /// A field-for-field copy.
    pub fn duplicate(&self) -> (r: Destination)
        ensures
            r == *self,
    {
        Destination { service_name: self.service_name.clone(), object_path: self.object_path.clone() }
    }
}

/// How this backend operates, fixed at startup: emulate input devices
/// itself, or delegate every request to another portal backend.
#[derive(Debug, PartialEq)]
pub enum WorkingMode {
    Server,
    Proxy(Destination),
}

/// The two request families a session can belong to.
#[derive(Debug, Clone, Copy, PartialEq, Eq, Structural)]
pub enum Family {
    RemoteDesktop,
    ScreenCast,
}

/// A request to resolve a client handle to the configured destination,
/// needed before a delegating session handler can be installed. The caller
/// performs the connection attempt and reports its outcome to
/// [`EventHandler::complete_connect`].
#[derive(Debug, PartialEq)]
pub struct ConnectRequest {
    pub family: Family,
    pub session_handle: String,
    pub destination: Destination,
}

/// Builds the success reply of a method call: status `0`, empty results.
pub fn ok_reply() -> (r: EventResponse)
    ensures
        r matches EventResponse::Standard(st, m) && st == 0 && m@.len() == 0,
{
    EventResponse::Standard(0, Vec::new())
}

/// Builds a failure reply: status `2` with the message in the result map.
pub fn failure_reply(message: &str) -> (r: EventResponse)
    ensures
        is_failure_with(r, message@),
{
    let mut results: Vec<(String, VariantValue)> = Vec::new();
    results.push(("error".to_owned(), VariantValue::Str(message.to_owned())));
    EventResponse::Standard(2, results)
}

/// Whether a reply signals failure with the protocol's failure status.
pub open spec fn is_failure(r: EventResponse) -> bool {
    r matches EventResponse::Standard(st, _) && st == 2
}

/// Whether a reply signals failure and carries exactly `msg` in the result
/// map's message slot.
pub open spec fn is_failure_with(r: EventResponse, msg: Seq<char>) -> bool {
    &&& r matches EventResponse::Standard(st, m)
    &&& st == 2
    &&& m@.len() == 1
    &&& m@[0].0@ == "error"@
    &&& m@[0].1 matches VariantValue::Str(s) && s@ == msg
}

/// Whether a reply is the plain success reply of a method call.
pub open spec fn is_ok_empty(r: EventResponse) -> bool {
    r matches EventResponse::Standard(st, m) && st == 0 && m@.len() == 0
}

/// The remote call a delegating handler forwards a request as. The caller
/// performs it asynchronously against the configured destination and feeds
/// the outcome to the family's `relay` function.
#[derive(Debug, PartialEq)]
pub enum RemoteCall {
    RemoteDesktop(RemoteDesktopCall),
    ScreenCast(ScreenCastCall),
}

/// The outcome of a performed remote call, shaped by what the call returns:
/// a method call yields a status and a result map, a one-way notification
/// yields a bare acknowledgement, a property read yields a value, and the
/// media-remote call yields an owned file descriptor.
#[derive(Debug, PartialEq)]
pub enum RemoteOutcome {
    Method(Result<(u32, Vec<(String, VariantValue)>), String>),
    Ack(Result<(), String>),
    Property(Result<u32, String>),
    Fd(Result<i32, String>),
}

/// What the dispatcher decided for one request: answer it now, hand back
/// outside work (a forwarding call or a connection attempt) whose outcome
/// will produce the answer, or — only for a one-way notification — nothing.
#[derive(Debug, PartialEq)]
pub enum DispatchAction {
    Reply(EventResponse),
    Forward(RemoteCall),
    Connect(ConnectRequest),
    NoReply,
}

/// Whether an action answers the request immediately with a failure reply.
pub open spec fn is_failure_action(r: DispatchAction) -> bool {
    r matches DispatchAction::Reply(resp) && is_failure(resp)
}

/// Whether an action answers the request immediately with plain success.
pub open spec fn is_ok_action(r: DispatchAction) -> bool {
    r matches DispatchAction::Reply(resp) && is_ok_empty(resp)
}

/// One inbound protocol request, tagged by family.
#[derive(Debug, PartialEq)]
pub enum Event {
    RemoteDesktop(RemoteDesktopEvent),
    ScreenCast(ScreenCastEvent),
}

impl Event {
    /// The session this request addresses; property reads address none.
    pub open spec fn spec_session(self) -> Option<Seq<char>> {
        match self {
            Event::RemoteDesktop(e) => e.spec_session(),
            Event::ScreenCast(e) => e.spec_session(),
        }
    }

    /// Whether this is a session-creating request.
    pub open spec fn spec_is_create(self) -> bool {
        match self {
            Event::RemoteDesktop(e) => e.spec_is_create(),
            Event::ScreenCast(e) => e.spec_is_create(),
        }
    }

    /// Whether the protocol owes the caller a reply for this request.
    pub open spec fn spec_expects_reply(self) -> bool {
        match self {
            Event::RemoteDesktop(e) => e.spec_expects_reply(),
            Event::ScreenCast(e) => e.spec_expects_reply(),
        }
    }

    /// The request family.
    pub open spec fn spec_family(self) -> Family {
        match self {
            Event::RemoteDesktop(_) => Family::RemoteDesktop,
            Event::ScreenCast(_) => Family::ScreenCast,
        }
    }

    /// The session this request addresses, read off the request itself.
    pub fn session(&self) -> (r: Option<&String>)
        ensures
            match r {
                Some(s) => self.spec_session() == Some::<Seq<char>>(s@),
                None => self.spec_session() is None,
            },
    {
        match self {
            Event::RemoteDesktop(e) => e.session(),
            Event::ScreenCast(e) => e.session(),
        }
    }

    /// Whether this is a session-creating request.
    pub fn is_create(&self) -> (r: bool)
        ensures
            r == self.spec_is_create(),
    {
        match self {
            Event::RemoteDesktop(RemoteDesktopEvent::CreateSession(_)) => true,
            Event::ScreenCast(ScreenCastEvent::CreateSession(_)) => true,
            _ => false,
        }
    }

    /// Whether the protocol owes the caller a reply for this request.
    pub fn expects_reply(&self) -> (r: bool)
        ensures
            r == self.spec_expects_reply(),
    {
        match self {
            Event::RemoteDesktop(RemoteDesktopEvent::NotifyPointerMotion(_)) => false,
            Event::RemoteDesktop(RemoteDesktopEvent::NotifyPointerMotionAbsolute(_)) => false,
            Event::RemoteDesktop(RemoteDesktopEvent::NotifyPointerButton(_)) => false,
            Event::RemoteDesktop(RemoteDesktopEvent::NotifyPointerAxis(_)) => false,
            Event::RemoteDesktop(RemoteDesktopEvent::NotifyPointerAxisDiscrete(_)) => false,
            Event::RemoteDesktop(RemoteDesktopEvent::NotifyKeyboardKeycode(_)) => false,
            _ => true,
        }
    }
}

/// A session's handler: the variant is fixed when the session is created,
/// by the operating mode then in force, and never changes.
pub enum SessionHandler {
    RemoteDesktopServer(RemoteDesktopServer),
    RemoteDesktopProxy(RemoteDesktopProxy),
    ScreenCastProxy(ScreenCastProxy),
}

/// How one request moves an existing session's handler from `pre` to
/// `post`, answered with `r`: a matching family steps the handler's own
/// machine; a request of the wrong family for the session is a protocol
/// error and changes nothing — answered with a failure if a reply is owed,
/// dropped otherwise.
pub open spec fn handler_step(
    pre: SessionHandler,
    event: Event,
    post: SessionHandler,
    r: DispatchAction,
) -> bool {
    match (pre, event) {
        (SessionHandler::RemoteDesktopServer(h1), Event::RemoteDesktop(e)) => {
            &&& post matches SessionHandler::RemoteDesktopServer(h2) && server_step(h1, e, h2, r)
        },
        (SessionHandler::RemoteDesktopProxy(_), Event::RemoteDesktop(e)) => {
            &&& post == pre
            &&& rd_spec_action(e, r)
        },
        (SessionHandler::ScreenCastProxy(_), Event::ScreenCast(e)) => {
            &&& post == pre
            &&& sc_spec_action(e, r)
        },
        _ => {
            &&& post == pre
            &&& if event.spec_expects_reply() {
                is_failure_action(r)
            } else {
                r == DispatchAction::NoReply
            }
        },
    }
}

/// Every request that owes the caller a reply is answered by a session
/// handler with an action that produces exactly one reply: a direct reply,
/// or a forwarding plan or connection handshake — and each of those is
/// completed by one call of the family's total `relay` function or of
/// [`EventHandler::complete_connect`], which return exactly one reply for
/// every outcome, a remote failure included. A request is never dropped
/// unanswered.
pub proof fn lemma_owed_reply_never_dropped(
    pre: SessionHandler,
    event: Event,
    post: SessionHandler,
    r: DispatchAction,
)
    requires
        handler_step(pre, event, post, r),
        event.spec_expects_reply(),
    ensures
        !(r is NoReply),
{
}

/// A session's handler variant is fixed at creation: no request changes it.
pub proof fn lemma_handler_variant_fixed(
    pre: SessionHandler,
    event: Event,
    post: SessionHandler,
    r: DispatchAction,
)
    requires
        handler_step(pre, event, post, r),
    ensures
        (post is RemoteDesktopServer) == (pre is RemoteDesktopServer),
        (post is RemoteDesktopProxy) == (pre is RemoteDesktopProxy),
        (post is ScreenCastProxy) == (pre is ScreenCastProxy),
{
}

/// How a request that addresses no session — a property read — is answered
/// under `mode`: in server mode, remote-desktop property reads are answered
/// with this backend's constants and screen-cast ones are rejected (there is
/// no local screen-cast implementation); in proxy mode the read is forwarded.
pub open spec fn property_action(mode: WorkingMode, event: Event, r: DispatchAction) -> bool {
    match event {
        Event::RemoteDesktop(e) => match mode {
            WorkingMode::Server => match e {
                RemoteDesktopEvent::GetPropertiesAvailableDeviceTypes => r
                    == DispatchAction::Reply(
                    EventResponse::Value(VariantValue::U32(SUPPORTED_DEVICE_TYPES)),
                ),
                RemoteDesktopEvent::GetPropertiesVersion => r == DispatchAction::Reply(
                    EventResponse::Value(VariantValue::U32(PROTOCOL_VERSION)),
                ),
                _ => true,
            },
            WorkingMode::Proxy(_) => rd_spec_action(e, r),
        },
        Event::ScreenCast(e) => match mode {
            WorkingMode::Server => is_failure_action(r),
            WorkingMode::Proxy(_) => sc_spec_action(e, r),
        },
    }
}

/// How an unknown session's creating request is handled under `mode`, with
/// the session table going from `m` to `post_m`: in server mode a fresh
/// local handler is installed for a remote-desktop session and a screen-cast
/// session is rejected; in proxy mode nothing is installed yet — the caller
/// must first resolve a client handle to the configured destination, so the
/// action hands back that connection request.
pub open spec fn creation_action(
    mode: WorkingMode,
    m: Map<Seq<char>, SessionHandler>,
    event: Event,
    k: Seq<char>,
    post_m: Map<Seq<char>, SessionHandler>,
    r: DispatchAction,
) -> bool {
    match mode {
        WorkingMode::Server => match event {
            Event::RemoteDesktop(_) => {
                &&& is_ok_action(r)
                &&& post_m.contains_key(k)
                &&& (post_m[k] matches SessionHandler::RemoteDesktopServer(h) && h.select() == 0
                    && !h.has_selection() && !h.active() && h.emitted() == Seq::<
                    KernelEvent,
                >::empty())
                &&& post_m == m.insert(k, post_m[k])
            },
            Event::ScreenCast(_) => post_m == m && is_failure_action(r),
        },
        WorkingMode::Proxy(d) => {
            &&& post_m == m
            &&& match event {
                Event::RemoteDesktop(RemoteDesktopEvent::CreateSession(cs)) => r
                    == DispatchAction::Connect(
                    ConnectRequest {
                        family: Family::RemoteDesktop,
                        session_handle: cs.session_handle,
                        destination: d,
                    },
                ),
                Event::ScreenCast(ScreenCastEvent::CreateSession(cs)) => r
                    == DispatchAction::Connect(
                    ConnectRequest {
                        family: Family::ScreenCast,
                        session_handle: cs.session_handle,
                        destination: d,
                    },
                ),
                _ => false,
            }
        },
    }
}

/// Whether the rows of a session table carry pairwise distinct session
/// paths.
spec fn keys_unique(rows: Seq<(String, SessionHandler)>) -> bool {
    forall|a: int, b: int| 0 <= a < b < rows.len() ==> rows[a].0@ != rows[b].0@
}

/// Whether some row carries the session path `k`.
spec fn has_key(rows: Seq<(String, SessionHandler)>, k: Seq<char>) -> bool {
    exists|j: int| 0 <= j < rows.len() && rows[j].0@ == k
}

/// The row index carrying the session path `k`, unique when the keys are.
spec fn key_index(rows: Seq<(String, SessionHandler)>, k: Seq<char>) -> int {
    choose|j: int| 0 <= j < rows.len() && rows[j].0@ == k
}

/// The session table's rows as a map from session path to handler.
spec fn table_map(rows: Seq<(String, SessionHandler)>) -> Map<
    Seq<char>,
    SessionHandler,
> {
    Map::new(|k: Seq<char>| has_key(rows, k), |k: Seq<char>| rows[key_index(rows, k)].1)
}

/// With distinct keys, row `i` is exactly what the table map holds at its
/// path.
proof fn lemma_row_value(rows: Seq<(String, SessionHandler)>, i: int)
    requires
        keys_unique(rows),
        0 <= i < rows.len(),
    ensures
        table_map(rows).contains_key(rows[i].0@),
        table_map(rows)[rows[i].0@] == rows[i].1,
{
    let k = rows[i].0@;
    assert(has_key(rows, k));
    let j = key_index(rows, k);
    assert(0 <= j < rows.len() && rows[j].0@ == k);
    if j < i {
        assert(rows[j].0@ != rows[i].0@);
    } else if i < j {
        assert(rows[i].0@ != rows[j].0@);
    }
}

/// Replacing row `i` by another row with the same path updates the table
/// map at that path and keeps the keys distinct.
proof fn lemma_update_row(rows: Seq<(String, SessionHandler)>, i: int, row: (String, SessionHandler))
    requires
        keys_unique(rows),
        0 <= i < rows.len(),
        row.0@ == rows[i].0@,
    ensures
        keys_unique(rows.remove(i).push(row)),
        table_map(rows.remove(i).push(row)) == table_map(rows).insert(rows[i].0@, row.1),
{
    let nr = rows.remove(i).push(row);
    let k = rows[i].0@;
    let n = rows.len() as int;
    assert(nr.len() == n);
    assert(forall|j: int| 0 <= j < i ==> nr[j] == rows[j]);
    assert(forall|j: int| i <= j < n - 1 ==> nr[j] == rows[j + 1]);
    assert(nr[n - 1] == row);
    assert forall|a: int, b: int| 0 <= a < b < n implies nr[a].0@ != nr[b].0@ by {
        if b < n - 1 {
            let oa: int = if a < i {
                a
            } else {
                a + 1
            };
            let ob: int = if b < i {
                b
            } else {
                b + 1
            };
            assert(nr[a] == rows[oa] && nr[b] == rows[ob]);
            assert(rows[oa].0@ != rows[ob].0@);
        } else {
            let oa: int = if a < i {
                a
            } else {
                a + 1
            };
            assert(nr[a] == rows[oa]);
            assert(oa != i);
            if oa < i {
                assert(rows[oa].0@ != rows[i].0@);
            } else {
                assert(rows[i].0@ != rows[oa].0@);
            }
        }
    }
    assert forall|k2: Seq<char>| has_key(nr, k2) == has_key(rows, k2) by {
        if has_key(nr, k2) {
            let j = choose|j: int| 0 <= j < nr.len() && nr[j].0@ == k2;
            if j < i {
                assert(rows[j].0@ == k2);
            } else if j < n - 1 {
                assert(rows[j + 1].0@ == k2);
            } else {
                assert(rows[i].0@ == k2);
            }
            assert(has_key(rows, k2));
        }
        if has_key(rows, k2) {
            let j = choose|j: int| 0 <= j < rows.len() && rows[j].0@ == k2;
            if j == i {
                assert(nr[n - 1].0@ == k2);
            } else if j < i {
                assert(nr[j].0@ == k2);
            } else {
                assert(nr[j - 1].0@ == k2);
            }
            assert(has_key(nr, k2));
        }
    }
    let target = table_map(rows).insert(k, row.1);
    assert forall|k2: Seq<char>| table_map(nr).contains_key(k2) implies table_map(nr)[k2]
        == target[k2] by {
        if k2 == k {
            lemma_row_value(nr, n - 1);
        } else {
            let j = choose|j: int| 0 <= j < rows.len() && rows[j].0@ == k2;
            assert(rows[j].0@ == k2);
            assert(j != i);
            lemma_row_value(rows, j);
            if j < i {
                assert(nr[j] == rows[j]);
                lemma_row_value(nr, j);
            } else {
                assert(nr[j - 1] == rows[j]);
                lemma_row_value(nr, j - 1);
            }
        }
    }
    assert(table_map(nr) =~= target);
}

/// Appending a row with a fresh path inserts it into the table map and
/// keeps the keys distinct.
proof fn lemma_push_row(rows: Seq<(String, SessionHandler)>, row: (String, SessionHandler))
    requires
        keys_unique(rows),
        !has_key(rows, row.0@),
    ensures
        keys_unique(rows.push(row)),
        table_map(rows.push(row)) == table_map(rows).insert(row.0@, row.1),
{
    let nr = rows.push(row);
    let n = rows.len() as int;
    assert(forall|j: int| 0 <= j < n ==> nr[j] == rows[j]);
    assert(nr[n] == row);
    assert forall|a: int, b: int| 0 <= a < b < n + 1 implies nr[a].0@ != nr[b].0@ by {
        if b < n {
            assert(rows[a].0@ != rows[b].0@);
        } else {
            assert(nr[a] == rows[a]);
            if nr[a].0@ == row.0@ {
                assert(has_key(rows, row.0@));
            }
        }
    }
    assert forall|k2: Seq<char>| has_key(nr, k2) == (has_key(rows, k2) || k2 == row.0@) by {
        if has_key(nr, k2) {
            let j = choose|j: int| 0 <= j < nr.len() && nr[j].0@ == k2;
            if j < n {
                assert(rows[j].0@ == k2);
                assert(has_key(rows, k2));
            }
        }
        if has_key(rows, k2) {
            let j = choose|j: int| 0 <= j < rows.len() && rows[j].0@ == k2;
            assert(nr[j].0@ == k2);
            assert(has_key(nr, k2));
        }
        if k2 == row.0@ {
            assert(nr[n].0@ == k2);
            assert(has_key(nr, k2));
        }
    }
    let target = table_map(rows).insert(row.0@, row.1);
    assert forall|k2: Seq<char>| table_map(nr).contains_key(k2) implies table_map(nr)[k2]
        == target[k2] by {
        if k2 == row.0@ {
            lemma_row_value(nr, n);
        } else {
            let j = choose|j: int| 0 <= j < rows.len() && rows[j].0@ == k2;
            assert(rows[j].0@ == k2);
            lemma_row_value(rows, j);
            assert(nr[j] == rows[j]);
            lemma_row_value(nr, j);
        }
    }
    assert(table_map(nr) =~= target);
}

/// The dispatcher: the operating mode, fixed at startup, and the session
/// table it alone mutates.
pub struct EventHandler {
    mode: WorkingMode,
    sessions: Vec<(String, SessionHandler)>,
}

impl EventHandler {
    /// The operating mode, as configured at startup.
    pub closed spec fn spec_mode(self) -> WorkingMode {
        self.mode
    }

    /// The session table: session path to handler.
    pub closed spec fn sessions_map(self) -> Map<Seq<char>, SessionHandler> {
        table_map(self.sessions@)
    }

    /// The session table's validity: pairwise distinct session paths.
    pub closed spec fn wf(self) -> bool {
        keys_unique(self.sessions@)
    }

    /// A fresh dispatcher with no sessions.
    pub fn new(mode: WorkingMode) -> (r: EventHandler)
        ensures
            r.wf(),
            r.spec_mode() == mode,
            r.sessions_map() == Map::<Seq<char>, SessionHandler>::empty(),
    {
        let r = EventHandler { mode, sessions: Vec::new() };
        proof {
            assert(r.sessions_map() =~= Map::<Seq<char>, SessionHandler>::empty());
        }
        r
    }

    /// The row holding `key`'s session, if any.
    fn find_session(&self, key: &String) -> (r: Option<usize>)
        requires
            self.wf(),
        ensures
            match r {
                Some(i) => {
                    &&& i < self.sessions@.len()
                    &&& self.sessions@[i as int].0@ == key@
                    &&& self.sessions_map().contains_key(key@)
                    &&& self.sessions_map()[key@] == self.sessions@[i as int].1
                },
                None => !self.sessions_map().contains_key(key@),
            },
    {
        let n = self.sessions.len();
        for i in 0..n
            invariant
                n == self.sessions@.len(),
                forall|j: int| 0 <= j < i ==> self.sessions@[j].0@ != key@,
                self.wf(),
        {
            if self.sessions[i].0 == *key {
                proof {
                    lemma_row_value(self.sessions@, i as int);
                }
                return Some(i);
            }
        }
        None
    }

    /// Whether a session exists under `key`.
    pub fn has_session(&self, key: &String) -> (r: bool)
        requires
            self.wf(),
        ensures
            r == self.sessions_map().contains_key(key@),
    {
        self.find_session(key).is_some()
    }

    /// Routes one request.
    ///
    /// A property read is answered (or forwarded) directly. A request whose
    /// session exists steps that session's handler and touches no other
    /// session. A session-creating request for an unknown session installs a
    /// handler per the operating mode — in proxy mode after the caller has
    /// connected, via the returned [`ConnectRequest`]. Any other request for
    /// an unknown session changes nothing: it is answered with a failure if
    /// a reply is owed, dropped otherwise. Every request that owes the
    /// caller a reply gets an action that produces exactly one.
    pub fn handle(&mut self, event: Event) -> (r: DispatchAction)
        requires
            old(self).wf(),
        ensures
            final(self).wf(),
            final(self).spec_mode() == old(self).spec_mode(),
            event.spec_expects_reply() ==> !(r is NoReply),
            ({
                let pre = *old(self);
                let post = *final(self);
                match event.spec_session() {
                    None => post.sessions_map() == pre.sessions_map() && property_action(
                        pre.spec_mode(),
                        event,
                        r,
                    ),
                    Some(k) => if pre.sessions_map().contains_key(k) {
                        &&& handler_step(
                            pre.sessions_map()[k],
                            event,
                            post.sessions_map()[k],
                            r,
                        )
                        &&& post.sessions_map() == pre.sessions_map().insert(
                            k,
                            post.sessions_map()[k],
                        )
                    } else if event.spec_is_create() {
                        creation_action(
                            pre.spec_mode(),
                            pre.sessions_map(),
                            event,
                            k,
                            post.sessions_map(),
                            r,
                        )
                    } else {
                        &&& post.sessions_map() == pre.sessions_map()
                        &&& if event.spec_expects_reply() {
                            is_failure_action(r)
                        } else {
                            r == DispatchAction::NoReply
                        }
                    },
                }
            }),
    {
        let found: Option<usize> = match event.session() {
            Some(key) => self.find_session(key),
            None => None,
        };
        if event.session().is_none() {
            // A property read: it addresses no session.
            return match &self.mode {
                WorkingMode::Server => match &event {
                    Event::RemoteDesktop(RemoteDesktopEvent::GetPropertiesAvailableDeviceTypes) => {
                        DispatchAction::Reply(
                            EventResponse::Value(VariantValue::U32(SUPPORTED_DEVICE_TYPES)),
                        )
                    },
                    Event::RemoteDesktop(RemoteDesktopEvent::GetPropertiesVersion) => {
                        DispatchAction::Reply(
                            EventResponse::Value(VariantValue::U32(PROTOCOL_VERSION)),
                        )
                    },
                    Event::RemoteDesktop(_) => DispatchAction::Reply(
                        failure_reply("not a property read"),
                    ),
                    Event::ScreenCast(_) => DispatchAction::Reply(
                        failure_reply("screen cast is not supported in server mode"),
                    ),
                },
                WorkingMode::Proxy(_) => match &event {
                    Event::RemoteDesktop(RemoteDesktopEvent::GetPropertiesAvailableDeviceTypes) => {
                        DispatchAction::Forward(
                            RemoteCall::RemoteDesktop(RemoteDesktopCall::AvailableDeviceTypes),
                        )
                    },
                    Event::RemoteDesktop(RemoteDesktopEvent::GetPropertiesVersion) => {
                        DispatchAction::Forward(
                            RemoteCall::RemoteDesktop(RemoteDesktopCall::Version),
                        )
                    },
                    Event::ScreenCast(ScreenCastEvent::GetPropertiesAvailableSourceTypes) => {
                        DispatchAction::Forward(
                            RemoteCall::ScreenCast(ScreenCastCall::AvailableSourceTypes),
                        )
                    },
                    Event::ScreenCast(ScreenCastEvent::GetPropertiesAvailableCursorModes) => {
                        DispatchAction::Forward(
                            RemoteCall::ScreenCast(ScreenCastCall::AvailableCursorModes),
                        )
                    },
                    Event::ScreenCast(ScreenCastEvent::GetPropertiesVersion) => {
                        DispatchAction::Forward(RemoteCall::ScreenCast(ScreenCastCall::Version))
                    },
                    _ => DispatchAction::Reply(failure_reply("not a property read")),
                },
            };
        }
        match found {
            Some(i) => {
                let ghost pre_rows = self.sessions@;
                let ghost k = pre_rows[i as int].0@;
                proof {
                    lemma_row_value(pre_rows, i as int);
                }
                let mut row = self.sessions.remove(i);
                let action = match (&mut row.1, event) {
                    (SessionHandler::RemoteDesktopServer(srv), Event::RemoteDesktop(e)) => srv
                        .handle(e),
                    (SessionHandler::RemoteDesktopProxy(p), Event::RemoteDesktop(e)) => p.handle(e),
                    (SessionHandler::ScreenCastProxy(p), Event::ScreenCast(e)) => p.handle(e),
                    (_, e) => {
                        if e.expects_reply() {
                            DispatchAction::Reply(failure_reply("wrong request family for session"))
                        } else {
                            DispatchAction::NoReply
                        }
                    },
                };
                proof {
                    lemma_update_row(pre_rows, i as int, row);
                }
                self.sessions.push(row);
                action
            },
            None => {
                if event.is_create() {
                    match &self.mode {
                        WorkingMode::Server => match event {
                            Event::RemoteDesktop(RemoteDesktopEvent::CreateSession(cs)) => {
                                let row = (
                                    cs.session_handle,
                                    SessionHandler::RemoteDesktopServer(RemoteDesktopServer::new()),
                                );
                                proof {
                                    lemma_push_row(self.sessions@, row);
                                }
                                self.sessions.push(row);
                                DispatchAction::Reply(ok_reply())
                            },
                            Event::ScreenCast(_) => DispatchAction::Reply(
                                failure_reply("screen cast is not supported in server mode"),
                            ),
                            _ => DispatchAction::Reply(failure_reply("not a session request")),
                        },
                        WorkingMode::Proxy(d) => {
                            let destination = d.duplicate();
                            match event {
                                Event::RemoteDesktop(RemoteDesktopEvent::CreateSession(cs)) => {
                                    DispatchAction::Connect(
                                        ConnectRequest {
                                            family: Family::RemoteDesktop,
                                            session_handle: cs.session_handle,
                                            destination,
                                        },
                                    )
                                },
                                Event::ScreenCast(ScreenCastEvent::CreateSession(cs)) => {
                                    DispatchAction::Connect(
                                        ConnectRequest {
                                            family: Family::ScreenCast,
                                            session_handle: cs.session_handle,
                                            destination,
                                        },
                                    )
                                },
                                _ => DispatchAction::Reply(failure_reply("not a session request")),
                            }
                        },
                    }
                } else if event.expects_reply() {
                    DispatchAction::Reply(failure_reply("no such session"))
                } else {
                    DispatchAction::NoReply
                }
            },
        }
    }

    /// Installs the delegating handler whose connection attempt, requested
    /// by [`EventHandler::handle`] through a [`ConnectRequest`], has
    /// completed. A successful connection installs the handler and answers
    /// the creating request with success; a failed one installs nothing —
    /// the reply reports the error, and a later creating request for the
    /// same path will retry.
    pub fn complete_connect(&mut self, request: ConnectRequest, outcome: Result<(), String>) -> (r:
        EventResponse)
        requires
            old(self).wf(),
        ensures
            final(self).wf(),
            final(self).spec_mode() == old(self).spec_mode(),
            ({
                let pre = *old(self);
                let post = *final(self);
                let k = request.session_handle@;
                match outcome {
                    Ok(_) => if !pre.sessions_map().contains_key(k) {
                        &&& is_ok_empty(r)
                        &&& post.sessions_map().contains_key(k)
                        &&& post.sessions_map() == pre.sessions_map().insert(
                            k,
                            post.sessions_map()[k],
                        )
                        &&& match request.family {
                            Family::RemoteDesktop => post.sessions_map()[k] matches
                                SessionHandler::RemoteDesktopProxy(p) && p.session() == k
                                && p.dest_service() == request.destination.service_name@
                                && p.dest_path() == request.destination.object_path@,
                            Family::ScreenCast => post.sessions_map()[k] matches
                                SessionHandler::ScreenCastProxy(p) && p.session() == k
                                && p.dest_service() == request.destination.service_name@
                                && p.dest_path() == request.destination.object_path@,
                        }
                    } else {
                        post.sessions_map() == pre.sessions_map() && is_failure(r)
                    },
                    Err(msg) => post.sessions_map() == pre.sessions_map() && is_failure_with(
                        r,
                        msg@,
                    ),
                }
            }),
    {
        match outcome {
            Ok(_) => {
                if self.find_session(&request.session_handle).is_some() {
                    return failure_reply("session already exists");
                }
                let key = request.session_handle.clone();
                let handler = match request.family {
                    Family::RemoteDesktop => SessionHandler::RemoteDesktopProxy(
                        RemoteDesktopProxy::new(request.session_handle, request.destination),
                    ),
                    Family::ScreenCast => SessionHandler::ScreenCastProxy(
                        ScreenCastProxy::new(request.session_handle, request.destination),
                    ),
                };
                let row = (key, handler);
                proof {
                    lemma_push_row(self.sessions@, row);
                }
                self.sessions.push(row);
                ok_reply()
            },
            Err(msg) => failure_reply(msg.as_str()),
        }
    }
}

} // verus!
