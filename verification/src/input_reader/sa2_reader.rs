//! Polled sampling of a target process's controller memory.
//!
//! The source locates a process by name, then reads a fixed table of
//! absolute memory offsets at a fixed poll rate: a digital-button bitfield,
//! two analog stick pairs and two trigger pressures. While no process is
//! attached — at startup, or after a failed read — every poll returns the
//! neutral state and the source retries the name search once per recovery
//! interval; process absence is always recovered locally, never surfaced.

use vstd::arithmetic::div_mod::{lemma_add_mod_noop, lemma_mod_twice, lemma_small_mod};
use vstd::prelude::*;

use crate::controller_state::ControllerState;

verus! {

/// The process name the source attaches to when no override is supplied,
/// compared case-insensitively.
pub const SONIC_2_APP_EXE: &'static str = "sonic2app.exe";

/// Absolute address of the digital-button bitfield in the target process.
pub const BUTTON_ADDR: u64 = 0x0000000001A52C4C;

/// Absolute address of the main stick's X axis.
pub const JOY_X_ADDR: u64 = 0x0000000001A52C50;

/// Absolute address of the main stick's Y axis.
pub const JOY_Y_ADDR: u64 = 0x0000000001A52C54;

/// Absolute address of the C stick's X axis.
pub const C_X_ADDR: u64 = 0x0000000001A52C58;

/// Absolute address of the C stick's Y axis.
pub const C_Y_ADDR: u64 = 0x0000000001A52C5C;

/// Absolute address of the left trigger's pressure.
pub const L_ANALOG_ADDR: u64 = 0x0000000001A52C60;

/// Absolute address of the right trigger's pressure.
pub const R_ANALOG_ADDR: u64 = 0x0000000001A52C64;

/// Microseconds between two polls of an attached process (120 Hz).
pub const POLL_INTERVAL_US: u64 = 1_000_000 / 120;

/// Microseconds the source waits before it re-runs the name search while
/// detached.
pub const RECOVERY_INTERVAL_US: u64 = 1_000_000;

/// One raw sample of the fixed offset table: the button bitfield and the six
/// signed axis words, exactly as read from the target's memory.
#[derive(Clone, Copy, Debug, PartialEq, Eq)]
pub struct Sa2Sample {
    pub buttons: u32,
    pub joy_x: i32,
    pub joy_y: i32,
    pub c_x: i32,
    pub c_y: i32,
    pub l_analog: i32,
    pub r_analog: i32,
}

/// A raw stick-axis word narrowed to a byte after the fixed +128 offset.
pub open spec fn axis_byte(raw: i32) -> u8 {
    ((raw + 128) % 256) as u8
}

/// A raw trigger word narrowed to a byte, with no offset.
pub open spec fn trigger_byte(raw: i32) -> u8 {
    (raw % 256) as u8
}

/// The controller state one raw sample denotes: each button one bit of the
/// little-endian bitfield at its fixed position, sticks offset by +128,
/// triggers narrowed as they are. The bitfield carries no Z bit, so Z always
/// reads released.
pub open spec fn sample_state(s: Sa2Sample) -> ControllerState {
    ControllerState {
        left: s.buttons & 0x0001 != 0,
        right: s.buttons & 0x0002 != 0,
        down: s.buttons & 0x0004 != 0,
        up: s.buttons & 0x0008 != 0,
        r_digital: s.buttons & 0x0020 != 0,
        l_digital: s.buttons & 0x0040 != 0,
        a: s.buttons & 0x0100 != 0,
        b: s.buttons & 0x0200 != 0,
        x: s.buttons & 0x0400 != 0,
        y: s.buttons & 0x0800 != 0,
        start: s.buttons & 0x1000 != 0,
        z: false,
        analog: (axis_byte(s.joy_x), axis_byte(s.joy_y)),
        c: (axis_byte(s.c_x), axis_byte(s.c_y)),
        l_analog: trigger_byte(s.l_analog),
        r_analog: trigger_byte(s.r_analog),
    }
}

/// The low byte of a raw word equals its value modulo 256.
proof fn lemma_low_byte(raw: i32)
    ensures
        raw & 0xff == raw % 256,
        0 <= raw & 0xff < 256,
{
    assert(raw & 0xff == raw % 256) by (bit_vector);
    assert(0 <= raw & 0xff < 256) by (bit_vector);
}

/// Applies the fixed +128 stick offset and narrows to a byte.
pub fn offset_axis(raw: i32) -> (r: u8)
    ensures
        r == axis_byte(raw),
{
    let low: i32 = raw & 0xff;
    proof {
        lemma_low_byte(raw);
        lemma_small_mod(128nat, 256nat);
        lemma_add_mod_noop(raw as int, 128int, 256int);
        lemma_mod_twice(raw as int, 256int);
        assert((low + 128) % 256 == (raw + 128) % 256);
    }
    ((low + 128) % 256) as u8
}

/// Narrows a raw trigger word to a byte.
pub fn narrow_trigger(raw: i32) -> (r: u8)
    ensures
        r == trigger_byte(raw),
{
    proof {
        lemma_low_byte(raw);
    }
    (raw & 0xff) as u8
}

/// Decodes one raw sample into the controller state it denotes.
pub fn get_controller_state(sample: &Sa2Sample) -> (s: ControllerState)
    ensures
        s == sample_state(*sample),
{
    let mut state = ControllerState::default();
    state.left = sample.buttons & 0x0001 != 0;
    state.right = sample.buttons & 0x0002 != 0;
    state.down = sample.buttons & 0x0004 != 0;
    state.up = sample.buttons & 0x0008 != 0;
    state.r_digital = sample.buttons & 0x0020 != 0;
    state.l_digital = sample.buttons & 0x0040 != 0;
    state.a = sample.buttons & 0x0100 != 0;
    state.b = sample.buttons & 0x0200 != 0;
    state.x = sample.buttons & 0x0400 != 0;
    state.y = sample.buttons & 0x0800 != 0;
    state.start = sample.buttons & 0x1000 != 0;
    state.analog = (offset_axis(sample.joy_x), offset_axis(sample.joy_y));
    state.c = (offset_axis(sample.c_x), offset_axis(sample.c_y));
    state.l_analog = narrow_trigger(sample.l_analog);
    state.r_analog = narrow_trigger(sample.r_analog);
    state
}

/// What `str::to_lowercase` returns: a function of the characters alone.
pub uninterp spec fn lower_of(s: Seq<char>) -> Seq<char>;

/// Relies on `str::to_lowercase` of std: the lowercase form of the string,
/// depending on its characters alone.
#[verifier::external_body]
fn lowercase(s: &str) -> (r: String)
    ensures
        r@ == lower_of(s@),
{
    s.to_lowercase()
}

/// Whether a process name selects the target: an exact match on the
/// caller-supplied override, else a case-insensitive match on the default
/// executable name.
pub open spec fn is_target_name(pname: Seq<char>, over: Option<String>) -> bool {
    match over {
        Some(n) => pname == n@,
        None => lower_of(pname) == SONIC_2_APP_EXE@,
    }
}

/// Decides whether an enumerated process name selects the target.
pub fn matches_target(pname: &String, exe_name: &Option<String>) -> (r: bool)
    ensures
        r == is_target_name(pname@, *exe_name),
{
    match exe_name {
        Some(name) => pname.eq(name),
        None => {
            let lower = lowercase(pname.as_str());
            let target: String = SONIC_2_APP_EXE.to_owned();
            lower == target
        },
    }
}

/// The remote-process source: either attached to a live process handle held
/// by the unverified shell, or waiting to re-locate the target by name.
pub struct Sa2Reader {
    attached: bool,
    exe_name: Option<String>,
}

impl Sa2Reader {
    /// Whether a process handle is currently attached.
    pub closed spec fn attached(self) -> bool {
        self.attached
    }

    /// The caller-supplied name override, if any.
    pub closed spec fn exe_name(self) -> Option<String> {
        self.exe_name
    }

    /// Builds the source from the outcome of the construction-time name
    /// search. A target that is not yet running is not an error: the source
    /// starts detached and keeps retrying at poll time.
    pub fn new(exe_name: Option<String>, attached: bool) -> (r: Sa2Reader)
        ensures
            r.attached() == attached,
            r.exe_name() == exe_name,
    {
        Sa2Reader { attached, exe_name }
    }

    /// Whether the next poll should read memory (attached) or re-run the
    /// name search (detached).
    pub fn is_attached(&self) -> (r: bool)
        ensures
            r == self.attached(),
    {
        self.attached
    }

    /// One poll while detached. The caller slept one recovery interval and
    /// re-ran the name search; `found` is its outcome. The poll returns the
    /// neutral state regardless of the re-attach outcome, and never blocks
    /// waiting for the target.
    pub fn poll_detached(&mut self, found: bool) -> (r: ControllerState)
        requires
            !old(self).attached(),
        ensures
            final(self).attached() == found,
            final(self).exe_name() == old(self).exe_name(),
            r.is_neutral(),
    {
        self.attached = found;
        ControllerState::default()
    }

    /// One poll while attached. `sample` is the outcome of the fixed-table
    /// memory read: a full sample decodes to its controller state; a failed
    /// read means the process has gone away, so the source detaches and
    /// returns the neutral state. The failure is recovered here, never
    /// surfaced to the acquisition loop.
    pub fn poll_attached(&mut self, sample: Option<Sa2Sample>) -> (r: ControllerState)
        requires
            old(self).attached(),
        ensures
            final(self).exe_name() == old(self).exe_name(),
            match sample {
                Some(s) => final(self).attached() && r == sample_state(s),
                None => !final(self).attached() && r.is_neutral(),
            },
    {
        match sample {
            Some(s) => get_controller_state(&s),
            None => {
                self.attached = false;
                ControllerState::default()
            },
        }
    }
}

} // verus!
