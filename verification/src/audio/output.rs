//! Routing decisions of the output side: which audio device plays what, and
//! what the speaker gate lets through to it.

use std::collections::VecDeque;
use vstd::prelude::*;
use crate::text::{contains_seq, lowercase, str_contains, to_lowercase};

verus! {

broadcast use vstd::std_specs::vecdeque::group_vec_dequeue_axioms;

/// Legacy keyword kept for backward-compat detection (used in UI events).
pub const BLACKHOLE_KEYWORD: &'static str = "blackhole";

/// What an output device is looked up for.
#[derive(Debug, Clone, Copy, PartialEq, Eq, Structural)]
pub enum DeviceRole {
    /// The BlackHole virtual device (fallback output of the filter).
    BlackHole,
    /// A real output device: neither BlackHole, nor Voce, nor a loopback device.
    RealOutput,
    /// A speaker for test playback: neither BlackHole nor Voce.
    Playback,
}

/// Whether a device named `name` serves `role`; names are compared in lowercase.
pub open spec fn has_role(name: Seq<char>, role: DeviceRole) -> bool {
    let lower = lowercase(name);
    match role {
        DeviceRole::BlackHole => contains_seq(lower, "blackhole"@),
        DeviceRole::RealOutput => {
            &&& !contains_seq(lower, "blackhole"@)
            &&& !contains_seq(lower, "voce"@)
            &&& !contains_seq(lower, "loopback"@)
        },
        DeviceRole::Playback => !contains_seq(lower, "blackhole"@) && !contains_seq(lower, "voce"@),
    }
}

/// Whether a device named `name` serves `role`.
pub fn name_has_role(name: &str, role: DeviceRole) -> (r: bool)
    ensures
        r == has_role(name@, role),
{
    let lower = to_lowercase(name);
    let l = lower.as_str();
    match role {
        DeviceRole::BlackHole => str_contains(l, BLACKHOLE_KEYWORD),
        DeviceRole::RealOutput => !str_contains(l, "blackhole") && !str_contains(l, "voce") && !str_contains(
            l,
            "loopback",
        ),
        DeviceRole::Playback => !str_contains(l, "blackhole") && !str_contains(l, "voce"),
    }
}

/// Whether the device at `i` of `names` (`None`: its name could not be read)
/// serves `role`.
pub open spec fn device_matches(names: Seq<Option<String>>, i: int, role: DeviceRole) -> bool {
    names[i] matches Some(n) && has_role(n@, role)
}

/// The first device, in enumeration order, that serves `role`; a device
/// whose name cannot be read serves none.
pub fn find_device(names: &Vec<Option<String>>, role: DeviceRole) -> (r: Option<usize>)
    ensures
        r matches Some(i) ==> i < names@.len() && device_matches(names@, i as int, role),
        r matches Some(i) ==> forall|j: int| 0 <= j < i ==> !#[trigger] device_matches(names@, j, role),
        r is None ==> forall|j: int| 0 <= j < names@.len() ==> !#[trigger] device_matches(names@, j, role),
{
    let mut i: usize = 0;
    while i < names.len()
        invariant
            i <= names@.len(),
            forall|j: int| 0 <= j < i ==> !#[trigger] device_matches(names@, j, role),
        decreases names@.len() - i,
    {
        match &names[i] {
            Some(n) => {
                if name_has_role(n.as_str(), role) {
                    return Some(i);
                }
            },
            None => {},
        }
        i = i + 1;
    }
    None
}

/// Queue microphone samples for playout.
pub fn enqueue_samples<T: Copy>(buf: &mut VecDeque<T>, samples: &[T])
    ensures
        final(buf)@ == old(buf)@ + samples@,
{
    let ghost before = buf@;
    let n = samples.len();
    let mut i: usize = 0;
    while i < n
        invariant
            n == samples@.len(),
            i <= n,
            buf@ == before + samples@.subrange(0, i as int),
        decreases n - i,
    {
        buf.push_back(samples[i]);
        i = i + 1;
        assert(samples@.subrange(0, i as int) == samples@.subrange(0, i - 1 as int).push(samples@[i - 1]));
    }
    assert(samples@.subrange(0, n as int) == samples@);
}

/// What `frames` output frames carry, drawn from the queued samples: one
/// queued sample per frame (silence once the queue runs dry), replaced by
/// silence while the speaker gate is closed.
pub open spec fn playout<T>(queued: Seq<T>, frames: nat, pass: bool, silence: T) -> Seq<T> {
    Seq::new(frames, |i: int| if pass && i < queued.len() { queued[i] } else { silence })
}

/// Fill `frames` output frames from the queue. Every frame consumes one
/// queued sample, passed or not, so the queue keeps pace with the device.
pub fn drain_gated<T: Copy>(buf: &mut VecDeque<T>, frames: usize, pass: bool, silence: T) -> (r: Vec<T>)
    ensures
        r@ == playout(old(buf)@, frames as nat, pass, silence),
        final(buf)@ == if frames <= old(buf)@.len() { old(buf)@.skip(frames as int) } else { Seq::<T>::empty() },
{
    let ghost queued = buf@;
    let mut out: Vec<T> = Vec::with_capacity(frames);
    let mut i: usize = 0;
    while i < frames
        invariant
            i <= frames,
            out@ == playout(queued, i as nat, pass, silence),
            buf@ == if i <= queued.len() { queued.skip(i as int) } else { Seq::<T>::empty() },
        decreases frames - i,
    {
        let sample = match buf.pop_front() {
            Some(s) => s,
            None => silence,
        };
        if pass {
            out.push(sample);
        } else {
            out.push(silence);
        }
        i = i + 1;
        assert(out@ =~= playout(queued, i as nat, pass, silence));
        assert(i <= queued.len() ==> buf@ =~= queued.skip(i as int));
    }
    out
}

} // verus!
