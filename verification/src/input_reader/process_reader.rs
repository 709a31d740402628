//! Plain-value pieces of the remote-process reader: process identifiers,
//! a walk over an enumerated process list, and the little-endian assembly
//! of the four-byte values read out of the target's memory.
//!
//! Enumerating processes and reading their memory are platform calls made by
//! the unverified shell; everything that can be computed from the bytes they
//! hand back is verified here.

use vstd::prelude::*;

verus! {

/// An operating-system process identifier.
#[derive(Clone, Copy, Debug, PartialEq, Eq)]
pub struct ProcessId(pub u32);

/// Walks a snapshot of enumerated process identifiers, one at a time.
#[derive(Debug)]
pub struct ProcessIterator {
    pids: Vec<u32>,
    pos: usize,
}

impl ProcessIterator {
    /// The identifiers left to hand out.
    pub closed spec fn remaining(self) -> Seq<u32> {
        self.pids@.skip(self.pos as int)
    }

    /// The walk's invariant: the position never passes the snapshot's end.
    pub closed spec fn wf(self) -> bool {
        self.pos <= self.pids@.len()
    }

    /// Wraps one enumeration snapshot.
    pub fn new(pids: Vec<u32>) -> (r: ProcessIterator)
        ensures
            r.wf(),
            r.remaining() == pids@,
    {
        let r = ProcessIterator { pids, pos: 0 };
        proof {
            assert(r.remaining() =~= r.pids@);
        }
        r
    }

    /// Hands out the next identifier, or nothing once the snapshot is
    /// exhausted.
    pub fn next(&mut self) -> (r: Option<ProcessId>)
        requires
            old(self).wf(),
        ensures
            final(self).wf(),
            old(self).remaining().len() == 0 ==> r is None && final(self).remaining()
                == old(self).remaining(),
            old(self).remaining().len() > 0 ==> r == Some(ProcessId(old(self).remaining()[0]))
                && final(self).remaining() == old(self).remaining().skip(1),
    {
        if self.pos < self.pids.len() {
            let pid = self.pids[self.pos];
            self.pos = self.pos + 1;
            proof {
                assert(old(self).remaining()[0] == old(self).pids@[old(self).pos as int]);
                assert(self.remaining() =~= old(self).remaining().skip(1));
            }
            Some(ProcessId(pid))
        } else {
            None
        }
    }
}

/// The unsigned value the four bytes spell little-endian.
pub open spec fn le_value(b0: u8, b1: u8, b2: u8, b3: u8) -> int {
    b0 + 256 * b1 + 0x1_0000 * b2 + 0x100_0000 * b3
}

/// Assembles an unsigned 32-bit value from four little-endian bytes, as read
/// out of the target process's memory.
pub fn u32_from_le_bytes(b0: u8, b1: u8, b2: u8, b3: u8) -> (r: u32)
    ensures
        r == le_value(b0, b1, b2, b3),
{
    b0 as u32 + 256 * (b1 as u32) + 0x1_0000 * (b2 as u32) + 0x100_0000 * (b3 as u32)
}

/// The signed reading of the same four little-endian bytes, two's
/// complement.
pub open spec fn le_value_signed(b0: u8, b1: u8, b2: u8, b3: u8) -> int {
    if le_value(b0, b1, b2, b3) <= i32::MAX {
        le_value(b0, b1, b2, b3)
    } else {
        le_value(b0, b1, b2, b3) - 0x1_0000_0000
    }
}

/// Assembles a signed 32-bit value from four little-endian bytes, as read
/// out of the target process's memory.
pub fn i32_from_le_bytes(b0: u8, b1: u8, b2: u8, b3: u8) -> (r: i32)
    ensures
        r == le_value_signed(b0, b1, b2, b3),
{
    let u = u32_from_le_bytes(b0, b1, b2, b3);
    proof {
        assert(u <= 0x7fff_ffffu32 ==> (u as i32) == u) by (bit_vector);
        assert(u > 0x7fff_ffffu32 ==> (u as i32) == u - 0x1_0000_0000) by (bit_vector);
    }
    #[verifier::truncate]
    (u as i32)
}

} // verus!
