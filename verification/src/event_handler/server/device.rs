//! The kernel virtual input device, wrapped for verification.
//!
//! A [`VirtualInput`] owns one uinput device together with a ghost record of
//! every kernel event handed to it, so that contracts can speak about what
//! was injected. The device itself, and the capability sets it is built
//! from, come from the `evdev` crate through trusted declarations.

use vstd::prelude::*;

use evdev::uinput::VirtualDevice;
use evdev::{AttributeSet, KeyCode, RelativeAxisCode};

verus! {

/// Kernel input event type for key presses and releases.
pub const EV_KEY: u16 = 1;

/// Kernel input event type for relative axis motion.
pub const EV_REL: u16 = 2;

/// Kernel input event type for absolute axis motion.
pub const EV_ABS: u16 = 3;

/// Relative axis codes: horizontal and vertical motion, wheels.
pub const REL_X: u16 = 0x00;

pub const REL_Y: u16 = 0x01;

pub const REL_HWHEEL: u16 = 0x06;

pub const REL_WHEEL: u16 = 0x08;

/// Absolute axis codes: horizontal and vertical position.
pub const ABS_X: u16 = 0x00;

pub const ABS_Y: u16 = 0x01;

/// Key codes of the three standard pointer buttons.
pub const BTN_LEFT: u16 = 0x110;

pub const BTN_RIGHT: u16 = 0x111;

pub const BTN_MIDDLE: u16 = 0x112;

/// One past the last standard keyboard key code this backend exposes.
pub const KEY_RANGE_END: u16 = 0x2e7;

/// One past the last key code a capability set can hold.
pub const KEY_SET_CAPACITY: u16 = 0x300;

/// One past the last standard relative axis code this backend exposes.
pub const REL_RANGE_END: u16 = 0x0c;

/// One past the last relative axis code a capability set can hold.
pub const REL_SET_CAPACITY: u16 = 0x10;

/// One kernel input event: an event type, a code within it, and a value.
#[derive(Debug, Clone, Copy, PartialEq, Eq, Structural)]
pub struct KernelEvent {
    pub kind: u16,
    pub code: u16,
    pub value: i32,
}

#[verifier::external_type_specification]
#[verifier::external_body]
pub struct ExVirtualDevice(VirtualDevice);

/// A set of key codes a device can be built with. Holds an
/// `evdev::AttributeSet<KeyCode>`, opaque to the verifier; [`key_codes`]
/// names its contents.
#[verifier::external_body]
pub struct KeySet {
    set: AttributeSet<KeyCode>,
}

/// The key codes a [`KeySet`] holds.
pub uninterp spec fn key_codes(s: KeySet) -> Set<u16>;

impl KeySet {
    /// Relies on `AttributeSet::new`: the fresh set holds no codes.
    #[verifier::external_body]
    pub fn new() -> (r: KeySet)
        ensures
            key_codes(r) == Set::<u16>::empty(),
    {
        KeySet { set: AttributeSet::new() }
    }

    /// Relies on `AttributeSetRef::insert`: sets the bit of the given code
    /// and nothing else. The bound keeps the index inside the set's backing
    /// array, which the insert would otherwise overrun.
    #[verifier::external_body]
    pub fn insert(&mut self, code: u16)
        requires
            code < KEY_SET_CAPACITY,
        ensures
            key_codes(*final(self)) == key_codes(*old(self)).insert(code),
    {
        self.set.insert(KeyCode::new(code));
    }

    /// Relies on `AttributeSetRef::contains`: whether the code's bit is set;
    /// a code beyond the backing array reads as absent.
    #[verifier::external_body]
    pub fn contains(&self, code: u16) -> (r: bool)
        ensures
            r == key_codes(*self).contains(code),
    {
        self.set.contains(KeyCode::new(code))
    }
}

/// A set of relative axis codes a device can be built with. Holds an
/// `evdev::AttributeSet<RelativeAxisCode>`, opaque to the verifier;
/// [`axis_codes`] names its contents.
#[verifier::external_body]
pub struct RelAxisSet {
    set: AttributeSet<RelativeAxisCode>,
}

/// The axis codes a [`RelAxisSet`] holds.
pub uninterp spec fn axis_codes(s: RelAxisSet) -> Set<u16>;

impl RelAxisSet {
    /// Relies on `AttributeSet::new`: the fresh set holds no codes.
    #[verifier::external_body]
    pub fn new() -> (r: RelAxisSet)
        ensures
            axis_codes(r) == Set::<u16>::empty(),
    {
        RelAxisSet { set: AttributeSet::new() }
    }

    /// Relies on `AttributeSetRef::insert`: sets the bit of the given code
    /// and nothing else. The bound keeps the index inside the set's backing
    /// array, which the insert would otherwise overrun.
    #[verifier::external_body]
    pub fn insert(&mut self, code: u16)
        requires
            code < REL_SET_CAPACITY,
        ensures
            axis_codes(*final(self)) == axis_codes(*old(self)).insert(code),
    {
        self.set.insert(RelativeAxisCode(code));
    }

    /// Relies on `AttributeSetRef::contains`: whether the code's bit is set;
    /// a code beyond the backing array reads as absent.
    #[verifier::external_body]
    pub fn contains(&self, code: u16) -> (r: bool)
        ensures
            r == axis_codes(*self).contains(code),
    {
        self.set.contains(RelativeAxisCode(code))
    }
}

/// The set of every standard keyboard key code.
pub fn full_key_range() -> (r: KeySet)
    ensures
        key_codes(r) == Set::new(|c: u16| c < KEY_RANGE_END),
{
    let mut s = KeySet::new();
    assert(key_codes(s) =~= Set::new(|c: u16| c < 0));
    let mut i: u16 = 0;
    while i < KEY_RANGE_END
        invariant
            i <= KEY_RANGE_END,
            key_codes(s) == Set::new(|c: u16| c < i),
        decreases KEY_RANGE_END - i,
    {
        s.insert(i);
        assert(Set::new(|c: u16| c < i).insert(i) =~= Set::new(|c: u16| c < i + 1));
        i = i + 1;
    }
    s
}

/// The set of every standard relative pointer axis code.
pub fn full_rel_axis_range() -> (r: RelAxisSet)
    ensures
        axis_codes(r) == Set::new(|c: u16| c < REL_RANGE_END),
{
    let mut s = RelAxisSet::new();
    assert(axis_codes(s) =~= Set::new(|c: u16| c < 0));
    let mut i: u16 = 0;
    while i < REL_RANGE_END
        invariant
            i <= REL_RANGE_END,
            axis_codes(s) == Set::new(|c: u16| c < i),
        decreases REL_RANGE_END - i,
    {
        s.insert(i);
        assert(Set::new(|c: u16| c < i).insert(i) =~= Set::new(|c: u16| c < i + 1));
        i = i + 1;
    }
    s
}

/// Relies on evdev's virtual-device builder chain: `VirtualDevice::builder`
/// opens the uinput node, `name` labels the device (the label stays well
/// under the length bound the builder asserts on), `with_keys` and
/// `with_relative_axes` register exactly the capabilities contained in the
/// two sets, and `build` creates the kernel device. Every step may fail with
/// an I/O error, returned here as its message; nothing is promised about
/// which outcome occurs.
#[verifier::external_body]
fn build_device(keys: &KeySet, axes: &RelAxisSet) -> (r: Result<VirtualDevice, String>) {
    let b = match VirtualDevice::builder() {
        Ok(b) => b,
        Err(e) => return Err(e.to_string()),
    };
    let b = b.name("xdg-desktop-portal-bypass virtual input device");
    let b = match b.with_keys(&keys.set) {
        Ok(b) => b,
        Err(e) => return Err(e.to_string()),
    };
    let b = match b.with_relative_axes(&axes.set) {
        Ok(b) => b,
        Err(e) => return Err(e.to_string()),
    };
    b.build().map_err(|e| e.to_string())
}

/// Relies on `VirtualDevice::emit`: hands the events to the kernel for
/// injection. An injection error is ignored beyond being dropped, as the
/// protocol prescribes for one-way notifications; nothing is claimed about
/// the outcome.
#[verifier::external_body]
fn device_emit(dev: &mut VirtualDevice, events: &Vec<KernelEvent>) {
    let raw: Vec<evdev::InputEvent> = events
        .iter()
        .map(|e| evdev::InputEvent::new(e.kind, e.code, e.value))
        .collect();
    let _ = dev.emit(&raw);
}

/// A live kernel virtual input device: the uinput handle, which capability
/// classes it was built with, and the ghost record of every event handed to
/// it since it was built.
pub struct VirtualInput {
    dev: VirtualDevice,
    keys_on: bool,
    rel_on: bool,
    log: Ghost<Seq<KernelEvent>>,
}

impl VirtualInput {
    /// Whether the device was built with the keyboard key range.
    pub closed spec fn keys_enabled(self) -> bool {
        self.keys_on
    }

    /// Whether the device was built with the relative pointer axis range.
    pub closed spec fn rel_enabled(self) -> bool {
        self.rel_on
    }

    /// Every kernel event handed to this device, in order.
    pub closed spec fn emitted(self) -> Seq<KernelEvent> {
        self.log@
    }

    /// Builds a device exposing the full standard keyboard key range when
    /// `keys_on`, and the full standard relative pointer axis range when
    /// `rel_on`, and nothing else. Creation is up to the kernel and may
    /// fail; a fresh device has emitted nothing.
    pub fn build(keys_on: bool, rel_on: bool) -> (r: Result<VirtualInput, String>)
        ensures
            r matches Ok(v) ==> v.keys_enabled() == keys_on && v.rel_enabled() == rel_on
                && v.emitted() == Seq::<KernelEvent>::empty(),
    {
        let keys = if keys_on {
            full_key_range()
        } else {
            KeySet::new()
        };
        let axes = if rel_on {
            full_rel_axis_range()
        } else {
            RelAxisSet::new()
        };
        match build_device(&keys, &axes) {
            Ok(dev) => Ok(
                VirtualInput { dev, keys_on, rel_on, log: Ghost(Seq::empty()) },
            ),
            Err(e) => Err(e),
        }
    }

    /// Hands `events` to the kernel for injection, in order, and records
    /// them. Injection errors are dropped, as the protocol prescribes for
    /// one-way notifications.
    pub fn emit(&mut self, events: &Vec<KernelEvent>)
        ensures
            final(self).keys_enabled() == old(self).keys_enabled(),
            final(self).rel_enabled() == old(self).rel_enabled(),
            final(self).emitted() == old(self).emitted() + events@,
    {
        device_emit(&mut self.dev, events);
        self.log = Ghost(self.log@ + events@);
    }
}

} // verus!
