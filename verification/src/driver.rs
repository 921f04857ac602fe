//! Bookkeeping of the shared-memory ring buffer read by the virtual
//! microphone driver, and recognising the driver's device.

use vstd::prelude::*;
use crate::text::{contains_seq, str_contains};

verus! {

/// Capacity of the ring, in samples: 4 seconds of f32 at 22050 Hz.
pub const RING_CAP: usize = 22050 * 4;

/// The slot of the ring that the write position `write_pos` addresses.
pub fn ring_slot(write_pos: u32) -> (r: usize)
    ensures
        r == (write_pos as int) % (RING_CAP as int),
        r < RING_CAP,
{
    (write_pos % 88200) as usize
}

/// The write position after one more sample is written at `write_pos`; the
/// writer overwrites the oldest sample on overflow.
pub fn ring_next(write_pos: u32) -> (r: u32)
    ensures
        r == (write_pos + 1) % (RING_CAP as int),
{
    ((write_pos as u64 + 1) % 88200) as u32
}

/// The write position after `n` samples are written from `write_pos`.
pub open spec fn ring_advanced(write_pos: nat, n: nat) -> nat {
    (write_pos + n) % (RING_CAP as nat)
}

/// Law: writing samples one at a time moves the write position as writing
/// them all at once: n single steps from `p` land on `(p + n) mod RING_CAP`.
pub proof fn lemma_ring_steps_compose(p: nat, n: nat)
    ensures
        ring_advanced(ring_advanced(p, n), 1) == ring_advanced(p, n + 1),
{
    assert(((p + n) % 88200 + 1) % 88200 == (p + n + 1) % 88200) by (nonlinear_arith);
}

/// Whether an audio system report lists the "Voce Microphone" device.
pub fn lists_voce_microphone(report: &str) -> (r: bool)
    ensures
        r == contains_seq(report@, "Voce Microphone"@),
{
    str_contains(report, "Voce Microphone")
}

} // verus!
