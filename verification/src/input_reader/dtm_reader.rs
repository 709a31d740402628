//! Fixed-rate playback of a pre-recorded replay.
//!
//! The replay file itself is decoded by an external collaborator; this module
//! consumes the result as an ordered, finite sequence of per-frame records,
//! maps each record's named fields 1:1 onto a controller state, and gates
//! frame `i` behind the deadline `epoch + i/60` seconds. The cursor never
//! advances past the final record: once there, every further poll keeps
//! returning that record.

use vstd::arithmetic::div_mod::{lemma_div_is_ordered, lemma_hoist_over_denominator};
use vstd::prelude::*;

use crate::controller_state::ControllerState;
use crate::error::Error;

verus! {

/// Frames per second of the fixed-rate playback gate.
pub const REPLAY_FRAME_RATE: u64 = 60;

/// Microseconds per second, the unit the pacing deadlines are stated in.
pub const MICROS_PER_SECOND: u64 = 1_000_000;

/// Timestamps (microseconds) are kept below half the `u64` range so that a
/// deadline offset can never overflow.
pub const MAX_TIMESTAMP_US: u64 = 0x8000_0000_0000_0000;

/// One pre-decoded replay record, with one named field per controller
/// control, exactly as the external replay decoder hands them over.
#[derive(Clone, Copy, Debug, PartialEq)]
pub struct ReplayFrame {
    pub a: bool,
    pub b: bool,
    pub x: bool,
    pub y: bool,
    pub up: bool,
    pub down: bool,
    pub left: bool,
    pub right: bool,
    pub start: bool,
    pub analog_x: u8,
    pub analog_y: u8,
    pub c_x: u8,
    pub c_y: u8,
    pub l_pressure: u8,
    pub r_pressure: u8,
    pub l: bool,
    pub r: bool,
    pub z: bool,
}

impl ReplayFrame {
    /// The controller state whose fields mirror this record's, 1:1.
    pub open spec fn as_state(self) -> ControllerState {
        ControllerState {
            a: self.a,
            b: self.b,
            x: self.x,
            y: self.y,
            up: self.up,
            down: self.down,
            left: self.left,
            right: self.right,
            start: self.start,
            analog: (self.analog_x, self.analog_y),
            c: (self.c_x, self.c_y),
            l_analog: self.l_pressure,
            r_analog: self.r_pressure,
            l_digital: self.l,
            r_digital: self.r,
            z: self.z,
        }
    }

    /// Maps the record's named fields onto a controller state. This mapping
    /// is total: it cannot fail once the replay itself decoded successfully.
    pub fn to_controller_state(&self) -> (s: ControllerState)
        ensures
            s == self.as_state(),
    {
        let mut state = ControllerState::default();
        state.a = self.a;
        state.b = self.b;
        state.x = self.x;
        state.y = self.y;
        state.up = self.up;
        state.down = self.down;
        state.left = self.left;
        state.right = self.right;
        state.start = self.start;
        state.analog = (self.analog_x, self.analog_y);
        state.c = (self.c_x, self.c_y);
        state.l_analog = self.l_pressure;
        state.r_analog = self.r_pressure;
        state.l_digital = self.l;
        state.r_digital = self.r;
        state.z = self.z;
        state
    }
}

/// Where the cursor stands after one more poll: one frame further, except
/// that the final frame freezes it.
pub open spec fn next_cursor(cursor: int, len: int) -> int {
    if cursor + 1 < len {
        cursor + 1
    } else {
        cursor
    }
}

/// Where the cursor stands after `k` more polls.
pub open spec fn cursor_after(cursor: int, len: int, k: nat) -> int
    decreases k,
{
    if k == 0 {
        cursor
    } else {
        next_cursor(cursor_after(cursor, len, (k - 1) as nat), len)
    }
}

/// The pacing deadline of frame `cursor`: `epoch` plus `cursor` sixtieths of
/// a second, in microseconds.
pub open spec fn frame_deadline(epoch: u64, cursor: int) -> int {
    epoch + cursor * MICROS_PER_SECOND / REPLAY_FRAME_RATE as int
}

/// Plays a decoded replay back at the fixed frame rate.
pub struct DtmReader {
    frames: Vec<ReplayFrame>,
    frame: usize,
    playback_start: Option<u64>,
}

impl DtmReader {
    /// The decoded per-frame records, read-only after construction.
    pub closed spec fn frames(self) -> Seq<ReplayFrame> {
        self.frames@
    }

    /// The zero-based cursor of the next frame to return.
    pub closed spec fn cursor(self) -> int {
        self.frame as int
    }

    /// The playback epoch, set lazily on the first poll.
    pub closed spec fn epoch(self) -> Option<u64> {
        self.playback_start
    }

    /// The reader's invariant: at least one frame, few enough to pace, the
    /// cursor inside the sequence, and the epoch small enough to offset.
    pub open spec fn wf(self) -> bool {
        &&& 0 < self.frames().len() <= u32::MAX
        &&& 0 <= self.cursor() < self.frames().len()
        &&& self.epoch() matches Some(e) ==> e < MAX_TIMESTAMP_US
    }

    /// Wraps a decoded replay. An empty or oversized record sequence is a
    /// decode-level failure, surfaced at construction and never at poll time.
    pub fn new(frames: Vec<ReplayFrame>) -> (r: Result<DtmReader, Error>)
        ensures
            r matches Ok(reader) ==> {
                &&& 0 < frames@.len() <= u32::MAX
                &&& reader.wf()
                &&& reader.frames() == frames@
                &&& reader.cursor() == 0
                &&& reader.epoch() is None
            },
            r is Err ==> (frames@.len() == 0 || frames@.len() > u32::MAX) && r == Err::<
                DtmReader,
                Error,
            >(Error::ReplayDecode),
    {
        if frames.len() == 0 || frames.len() > u32::MAX as usize {
            return Err(Error::ReplayDecode);
        }
        Ok(DtmReader { frames, frame: 0, playback_start: None })
    }

    /// One poll of the replay source, with the caller's clock reading in
    /// microseconds. Returns the deadline before which the frame must not be
    /// surfaced (the caller sleeps until it) and the frame under the cursor;
    /// then the cursor advances, freezing on the final frame. The first poll
    /// records `now_us` as the playback epoch. Never fails at runtime.
    pub fn read_next_input(&mut self, now_us: u64) -> (r: (u64, ControllerState))
        requires
            old(self).wf(),
            now_us < MAX_TIMESTAMP_US,
        ensures
            final(self).wf(),
            final(self).frames() == old(self).frames(),
            final(self).epoch() == Some(
                match old(self).epoch() {
                    Some(e) => e,
                    None => now_us,
                },
            ),
            final(self).cursor() == next_cursor(old(self).cursor(), old(self).frames().len() as int),
            r.0 == frame_deadline(final(self).epoch()->Some_0, old(self).cursor()),
            r.1 == old(self).frames()[old(self).cursor()].as_state(),
    {
        let epoch: u64 = match self.playback_start {
            Some(e) => e,
            None => {
                self.playback_start = Some(now_us);
                now_us
            },
        };
        let deadline: u64 = epoch + (self.frame as u64) * MICROS_PER_SECOND / REPLAY_FRAME_RATE;
        let state = self.frames[self.frame].to_controller_state();
        if self.frame + 1 != self.frames.len() {
            self.frame = self.frame + 1;
        }
        (deadline, state)
    }
}

/// Law (freeze on end): after `k` polls the cursor has advanced by `k`
/// frames, but never past the final record; in particular, once at least
/// `len - 1 - cursor` polls have gone by, it stands at the final record and
/// stays there, so every later poll returns the final frame.
pub proof fn lemma_replay_freeze(cursor: int, len: int, k: nat)
    requires
        0 <= cursor < len,
    ensures
        cursor_after(cursor, len, k) == if cursor + k < len {
            cursor + k
        } else {
            len - 1
        },
    decreases k,
{
    if k > 0 {
        lemma_replay_freeze(cursor, len, (k - 1) as nat);
    }
}

/// Law (pacing): each frame's deadline stands a full sixtieth of a second —
/// 16666 microseconds — after the previous frame's, so two back-to-back
/// polls are never surfaced closer together than the frame gate allows.
pub proof fn lemma_pacing_gap(epoch: u64, cursor: int)
    requires
        0 <= cursor,
    ensures
        frame_deadline(epoch, cursor + 1) - frame_deadline(epoch, cursor) >= 16666,
        frame_deadline(epoch, cursor) >= epoch,
{
    let m = MICROS_PER_SECOND as int;
    let r = REPLAY_FRAME_RATE as int;
    assert((cursor + 1) * m == cursor * m + 40 + 16666 * r) by (nonlinear_arith)
        requires
            m == 1_000_000,
            r == 60,
    ;
    lemma_hoist_over_denominator(cursor * m + 40, 16666, 60);
    assert((cursor * m + 40) / r + 16666 == (cursor * m + 40 + 16666 * r) / r);
    lemma_div_is_ordered(cursor * m, cursor * m + 40, r);
    assert(cursor * m >= 0) by (nonlinear_arith)
        requires
            cursor >= 0,
            m > 0,
    ;

    lemma_div_is_ordered(0, cursor * m, r);
}

} // verus!
