//! The local-emulation remote-desktop handler: a session state machine that
//! validates device selection, builds a kernel virtual device on start, and
//! translates notifications into kernel input events.
//!
//! The states are: no selection yet, device types selected, device active.
//! `SelectDevices` must come first and is accepted once — the selection is
//! immutable for the session's lifetime; `Start` before a valid selection is
//! rejected. Notifications before a successful `Start` are dropped silently:
//! nothing is injected and no failure is surfaced, except for the symbolic
//! keysym notification, which is always answered with a failure since no
//! keymap is available to translate it.

use vstd::prelude::*;

use crate::event_handler::events::remote_desktop::{
    NotifyPointerMotion, RemoteDesktopEvent, SelectDevices, Start,
};
use crate::event_handler::server::device::{
    KernelEvent, VirtualInput, ABS_X, ABS_Y, BTN_LEFT, BTN_MIDDLE, BTN_RIGHT, EV_ABS, EV_KEY,
    EV_REL, REL_HWHEEL, REL_WHEEL, REL_X, REL_Y,
};
use crate::event_handler::{
    failure_reply, is_failure_action, is_ok_action, ok_reply, DispatchAction, EventResponse,
};
use crate::float_bits::{
    f64_bits_is_zero, f64_trunc_i32, spec_f64_bits_is_zero, spec_f64_trunc_i32,
};
use crate::values::{get_u32, spec_get_u32};
use crate::values::VariantValue;

verus! {

/// Device-type bit for keyboard emulation.
pub const KEYBOARD: u32 = 1;

/// Device-type bit for pointer emulation.
pub const POINTER: u32 = 2;

/// The device types this backend supports: keyboard and pointer. Touch
/// (bit 4) is not supported, so a selection above this is rejected.
pub const SUPPORTED_DEVICE_TYPES: u32 = 3;

/// The protocol version this backend implements.
pub const PROTOCOL_VERSION: u32 = 1;

/// The key code a pointer-button number maps to: buttons 1, 2 and 3 are the
/// left, right and middle button; any other number passes through unchanged
/// (truncated to a key code).
pub open spec fn spec_button_code(button: i32) -> u16 {
    if button == 1 {
        BTN_LEFT
    } else if button == 2 {
        BTN_RIGHT
    } else if button == 3 {
        BTN_MIDDLE
    } else {
        button as u16
    }
}

/// The kernel input events a notification is injected as, on a device whose
/// selection bitmask is `select`. A notification whose device class was not
/// selected translates to nothing: the device was built without that
/// capability, so it is dropped rather than injected. Requests that are not
/// device notifications translate to nothing.
pub open spec fn spec_translation(select: u32, e: RemoteDesktopEvent) -> Seq<KernelEvent> {
    match e {
        RemoteDesktopEvent::NotifyPointerMotion(m) => if select & POINTER != 0 {
            seq![
                (KernelEvent { kind: EV_REL, code: REL_X, value: spec_f64_trunc_i32(m.dx_bits) }),
                (KernelEvent { kind: EV_REL, code: REL_Y, value: spec_f64_trunc_i32(m.dy_bits) }),
            ]
        } else {
            Seq::empty()
        },
        RemoteDesktopEvent::NotifyPointerMotionAbsolute(m) => if select & POINTER != 0 {
            seq![
                (KernelEvent { kind: EV_ABS, code: ABS_X, value: spec_f64_trunc_i32(m.x_bits) }),
                (KernelEvent { kind: EV_ABS, code: ABS_Y, value: spec_f64_trunc_i32(m.y_bits) }),
            ]
        } else {
            Seq::empty()
        },
        RemoteDesktopEvent::NotifyPointerButton(b) => if select & POINTER != 0 {
            seq![
                (KernelEvent {
                    kind: EV_KEY,
                    code: spec_button_code(b.button),
                    value: b.state as i32,
                }),
            ]
        } else {
            Seq::empty()
        },
        RemoteDesktopEvent::NotifyPointerAxis(a) => if select & POINTER != 0 {
            (if !spec_f64_bits_is_zero(a.dx_bits) {
                seq![
                    (KernelEvent {
                        kind: EV_REL,
                        code: REL_WHEEL,
                        value: spec_f64_trunc_i32(a.dx_bits),
                    }),
                ]
            } else {
                Seq::empty()
            }) + (if !spec_f64_bits_is_zero(a.dy_bits) {
                seq![
                    (KernelEvent {
                        kind: EV_REL,
                        code: REL_HWHEEL,
                        value: spec_f64_trunc_i32(a.dy_bits),
                    }),
                ]
            } else {
                Seq::empty()
            })
        } else {
            Seq::empty()
        },
        RemoteDesktopEvent::NotifyPointerAxisDiscrete(a) => if select & POINTER != 0 {
            seq![
                (KernelEvent {
                    kind: EV_REL,
                    code: if a.axis == 0 {
                        REL_WHEEL
                    } else {
                        REL_HWHEEL
                    },
                    value: a.steps,
                }),
            ]
        } else {
            Seq::empty()
        },
        RemoteDesktopEvent::NotifyKeyboardKeycode(k) => if select & KEYBOARD != 0 {
            seq![
                (KernelEvent { kind: EV_KEY, code: k.keycode as u16, value: k.state as i32 }),
            ]
        } else {
            Seq::empty()
        },
        _ => Seq::empty(),
    }
}

/// Computes the kernel input events `event` is injected as under the
/// selection bitmask `select`; exactly [`spec_translation`].
pub fn translate(select: u32, event: &RemoteDesktopEvent) -> (r: Vec<KernelEvent>)
    ensures
        r@ == spec_translation(select, *event),
{
    let mut r: Vec<KernelEvent> = Vec::new();
    match event {
        RemoteDesktopEvent::NotifyPointerMotion(m) => {
            if select & POINTER != 0 {
                r.push(KernelEvent { kind: EV_REL, code: REL_X, value: f64_trunc_i32(m.dx_bits) });
                r.push(KernelEvent { kind: EV_REL, code: REL_Y, value: f64_trunc_i32(m.dy_bits) });
            }
        },
        RemoteDesktopEvent::NotifyPointerMotionAbsolute(m) => {
            if select & POINTER != 0 {
                r.push(KernelEvent { kind: EV_ABS, code: ABS_X, value: f64_trunc_i32(m.x_bits) });
                r.push(KernelEvent { kind: EV_ABS, code: ABS_Y, value: f64_trunc_i32(m.y_bits) });
            }
        },
        RemoteDesktopEvent::NotifyPointerButton(b) => {
            if select & POINTER != 0 {
                let code: u16 = if b.button == 1 {
                    BTN_LEFT
                } else if b.button == 2 {
                    BTN_RIGHT
                } else if b.button == 3 {
                    BTN_MIDDLE
                } else {
                    #[verifier::truncate] (b.button as u16)
                };
                r.push(
                    KernelEvent {
                        kind: EV_KEY,
                        code,
                        value: #[verifier::truncate] (b.state as i32),
                    },
                );
            }
        },
        RemoteDesktopEvent::NotifyPointerAxis(a) => {
            if select & POINTER != 0 {
                if !f64_bits_is_zero(a.dx_bits) {
                    r.push(
                        KernelEvent {
                            kind: EV_REL,
                            code: REL_WHEEL,
                            value: f64_trunc_i32(a.dx_bits),
                        },
                    );
                }
                if !f64_bits_is_zero(a.dy_bits) {
                    r.push(
                        KernelEvent {
                            kind: EV_REL,
                            code: REL_HWHEEL,
                            value: f64_trunc_i32(a.dy_bits),
                        },
                    );
                }
            }
        },
        RemoteDesktopEvent::NotifyPointerAxisDiscrete(a) => {
            if select & POINTER != 0 {
                let code: u16 = if a.axis == 0 {
                    REL_WHEEL
                } else {
                    REL_HWHEEL
                };
                r.push(KernelEvent { kind: EV_REL, code, value: a.steps });
            }
        },
        RemoteDesktopEvent::NotifyKeyboardKeycode(k) => {
            if select & KEYBOARD != 0 {
                r.push(
                    KernelEvent {
                        kind: EV_KEY,
                        code: #[verifier::truncate] (k.keycode as u16),
                        value: #[verifier::truncate] (k.state as i32),
                    },
                );
            }
        },
        _ => {},
    }
    assert(r@ =~= spec_translation(select, *event));
    r
}

/// The local-emulation session handler: the accepted device-type selection
/// and, once started, the virtual device it injects into.
pub struct RemoteDesktopServer {
    device_select: u32,
    selected: bool,
    device: Option<VirtualInput>,
}

/// How one request moves a local-emulation session from `pre` to `post`,
/// answered with `r`. This is the session's whole observable state machine;
/// [`RemoteDesktopServer::handle`] is proved to satisfy it, and the
/// dispatcher's contract is stated over it.
pub open spec fn server_step(
    pre: RemoteDesktopServer,
    event: RemoteDesktopEvent,
    post: RemoteDesktopServer,
    r: DispatchAction,
) -> bool {
    match event {
        RemoteDesktopEvent::CreateSession(_) => post == pre && is_failure_action(r),
        RemoteDesktopEvent::SelectDevices(sd) => match spec_get_u32(sd.options@, "types"@) {
            Some(t) => if !pre.has_selection() && t <= SUPPORTED_DEVICE_TYPES {
                &&& is_ok_action(r)
                &&& post.select() == t
                &&& post.has_selection()
                &&& post.active() == pre.active()
                &&& post.emitted() == pre.emitted()
                &&& post.device_caps() == pre.device_caps()
            } else {
                post == pre && is_failure_action(r)
            },
            None => post == pre && is_failure_action(r),
        },
        RemoteDesktopEvent::Start(_) => {
            if !pre.has_selection() {
                post == pre && is_failure_action(r)
            } else {
                ||| {
                    &&& is_ok_action(r)
                    &&& post.select() == pre.select()
                    &&& post.has_selection()
                    &&& post.active()
                    &&& post.emitted() == Seq::<KernelEvent>::empty()
                    &&& post.device_caps() == Some(
                        ((pre.select() & KEYBOARD != 0), (pre.select() & POINTER != 0)),
                    )
                }
                ||| (is_failure_action(r) && post == pre)
            }
        },
        RemoteDesktopEvent::NotifyKeyboardKeysym(_) => post == pre && is_failure_action(r),
        RemoteDesktopEvent::GetPropertiesAvailableDeviceTypes => post == pre && r
            == DispatchAction::Reply(
            EventResponse::Value(VariantValue::U32(SUPPORTED_DEVICE_TYPES)),
        ),
        RemoteDesktopEvent::GetPropertiesVersion => post == pre && r == DispatchAction::Reply(
            EventResponse::Value(VariantValue::U32(PROTOCOL_VERSION)),
        ),
        _ => {
            &&& r == DispatchAction::NoReply
            &&& post.select() == pre.select()
            &&& post.has_selection() == pre.has_selection()
            &&& post.device_caps() == pre.device_caps()
            &&& (pre.active() ==> post.active() && post.emitted() == pre.emitted()
                + spec_translation(pre.select(), event))
            &&& (!pre.active() ==> post == pre)
        },
    }
}

impl RemoteDesktopServer {
    /// The accepted device-type selection bitmask; `0` until one is accepted.
    pub closed spec fn select(self) -> u32 {
        self.device_select
    }

    /// Whether a `SelectDevices` has been accepted.
    pub closed spec fn has_selection(self) -> bool {
        self.selected
    }

    /// Whether a virtual device is active (a `Start` succeeded).
    pub closed spec fn active(self) -> bool {
        self.device is Some
    }

    /// Every kernel event handed to the active device, in order; nothing
    /// while no device is active.
    pub closed spec fn emitted(self) -> Seq<KernelEvent> {
        match self.device {
            Some(d) => d.emitted(),
            None => Seq::empty(),
        }
    }

    /// The active device's capability classes (keyboard, pointer).
    pub closed spec fn device_caps(self) -> Option<(bool, bool)> {
        match self.device {
            Some(d) => Some((d.keys_enabled(), d.rel_enabled())),
            None => None,
        }
    }

    /// The accepted device-type selection bitmask, `0` until one is
    /// accepted.
    pub fn device_select(&self) -> (r: u32)
        ensures
            r == self.select(),
    {
        self.device_select
    }

    /// Whether a `SelectDevices` has been accepted.
    pub fn is_selected(&self) -> (r: bool)
        ensures
            r == self.has_selection(),
    {
        self.selected
    }

    /// Whether a virtual device is active.
    pub fn is_active(&self) -> (r: bool)
        ensures
            r == self.active(),
    {
        self.device.is_some()
    }

    /// A fresh handler: nothing selected, no device.
    pub fn new() -> (r: RemoteDesktopServer)
        ensures
            r.select() == 0,
            !r.has_selection(),
            !r.active(),
            r.emitted() == Seq::<KernelEvent>::empty(),
    {
        RemoteDesktopServer { device_select: 0, selected: false, device: None }
    }

    /// Handles one request of this session.
    ///
    /// - `SelectDevices` with a `types` option of at most
    ///   [`SUPPORTED_DEVICE_TYPES`] is accepted exactly once; a missing or
    ///   unsupported selection, or one after an accepted selection, is
    ///   rejected and changes nothing.
    /// - `Start` before an accepted selection is rejected. After one, it
    ///   builds a device with exactly the selected capability classes;
    ///   build failure is reported and changes nothing. A repeated `Start`
    ///   builds a fresh device and replaces the old one, which is torn down
    ///   when dropped.
    /// - Device notifications are one-way: with an active device the
    ///   translated kernel events are injected; otherwise they are dropped
    ///   silently. The keysym notification is the designed exception and is
    ///   always answered with a failure.
    /// - Property reads answer the supported device types and the version.
    pub fn handle(&mut self, event: RemoteDesktopEvent) -> (r: DispatchAction)
        ensures
            server_step(*old(self), event, *final(self), r),
    {
        match &event {
            RemoteDesktopEvent::CreateSession(_) => DispatchAction::Reply(
                failure_reply("session already exists"),
            ),
            RemoteDesktopEvent::SelectDevices(sd) => {
                if self.selected {
                    return DispatchAction::Reply(
                        failure_reply("device types were already selected"),
                    );
                }
                let types_key: String = "types".to_owned();
                match get_u32(&sd.options, &types_key) {
                    Some(types) => {
                        if types > SUPPORTED_DEVICE_TYPES {
                            DispatchAction::Reply(failure_reply("unsupported device types"))
                        } else {
                            self.device_select = types;
                            self.selected = true;
                            DispatchAction::Reply(ok_reply())
                        }
                    },
                    None => DispatchAction::Reply(failure_reply("missing device types option")),
                }
            },
            RemoteDesktopEvent::Start(_) => {
                if !self.selected {
                    return DispatchAction::Reply(failure_reply("no device types were selected"));
                }
                let keys_on = self.device_select & KEYBOARD != 0;
                let rel_on = self.device_select & POINTER != 0;
                match VirtualInput::build(keys_on, rel_on) {
                    Ok(device) => {
                        self.device = Some(device);
                        DispatchAction::Reply(ok_reply())
                    },
                    Err(_) => DispatchAction::Reply(failure_reply("failed to create virtual device")),
                }
            },
            RemoteDesktopEvent::NotifyKeyboardKeysym(_) => DispatchAction::Reply(
                failure_reply("keysym not supported"),
            ),
            RemoteDesktopEvent::GetPropertiesAvailableDeviceTypes => DispatchAction::Reply(
                EventResponse::Value(VariantValue::U32(SUPPORTED_DEVICE_TYPES)),
            ),
            RemoteDesktopEvent::GetPropertiesVersion => DispatchAction::Reply(
                EventResponse::Value(VariantValue::U32(PROTOCOL_VERSION)),
            ),
            _ => {
                match &mut self.device {
                    Some(d) => {
                        let events = translate(self.device_select, &event);
                        d.emit(&events);
                    },
                    None => {},
                }
                DispatchAction::NoReply
            },
        }
    }
}

/// A `SelectDevices` whose `types` selection exceeds the supported set — or
/// carries none — is always rejected with the failure status and leaves the
/// whole session state, the selection included, unchanged.
pub proof fn lemma_unsupported_selection_rejected(
    pre: RemoteDesktopServer,
    sd: SelectDevices,
    post: RemoteDesktopServer,
    r: DispatchAction,
)
    requires
        server_step(pre, RemoteDesktopEvent::SelectDevices(sd), post, r),
        match spec_get_u32(sd.options@, "types"@) {
            Some(t) => t > SUPPORTED_DEVICE_TYPES,
            None => true,
        },
    ensures
        is_failure_action(r),
        post == pre,
{
}

/// A `Start` before any accepted `SelectDevices` is rejected — this backend
/// chooses rejection over defaulting to an empty capability set — and
/// changes nothing; in particular no device exists, so nothing is injected.
pub proof fn lemma_start_before_selection_rejected(
    pre: RemoteDesktopServer,
    s: Start,
    post: RemoteDesktopServer,
    r: DispatchAction,
)
    requires
        server_step(pre, RemoteDesktopEvent::Start(s), post, r),
        !pre.has_selection(),
    ensures
        is_failure_action(r),
        post == pre,
{
}

/// After a successful `Start` with the pointer capability selected, a
/// pointer-motion notification injects exactly one relative-X and one
/// relative-Y kernel event, whose values are the deltas truncated to
/// integers.
pub proof fn lemma_pointer_motion_injected(
    pre: RemoteDesktopServer,
    m: NotifyPointerMotion,
    post: RemoteDesktopServer,
    r: DispatchAction,
)
    requires
        server_step(pre, RemoteDesktopEvent::NotifyPointerMotion(m), post, r),
        pre.active(),
        pre.select() & POINTER != 0,
    ensures
        r == DispatchAction::NoReply,
        post.emitted() == pre.emitted() + seq![
            (KernelEvent { kind: EV_REL, code: REL_X, value: spec_f64_trunc_i32(m.dx_bits) }),
            (KernelEvent { kind: EV_REL, code: REL_Y, value: spec_f64_trunc_i32(m.dy_bits) }),
        ],
{
}

/// Once accepted, the device-type selection is immutable for the session's
/// lifetime: no later request changes it.
pub proof fn lemma_selection_immutable(
    pre: RemoteDesktopServer,
    event: RemoteDesktopEvent,
    post: RemoteDesktopServer,
    r: DispatchAction,
)
    requires
        server_step(pre, event, post, r),
        pre.has_selection(),
    ensures
        post.has_selection(),
        post.select() == pre.select(),
{
}

/// Before a successful `Start` there is no device, so a one-way notification
/// changes nothing — no kernel event is ever emitted — and surfaces no
/// failure: it is dropped silently.
pub proof fn lemma_notify_before_start_dropped(
    pre: RemoteDesktopServer,
    event: RemoteDesktopEvent,
    post: RemoteDesktopServer,
    r: DispatchAction,
)
    requires
        server_step(pre, event, post, r),
        !pre.active(),
        !event.spec_expects_reply(),
    ensures
        post == pre,
        r == DispatchAction::NoReply,
{
}

} // verus!
