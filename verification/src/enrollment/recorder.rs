use vstd::prelude::*;

verus! {

/// Samples per second of the enrollment recordings (16 kHz mono).
pub const SAMPLE_RATE: u32 = 16000;
/// A recording stops by itself after 20 s.
pub const TARGET_DURATION_SAMPLES: u32 = 16000 * 20;
/// A recording needs at least 10 s of speech.
pub const MIN_SPEECH_SAMPLES: u32 = 16000 * 10;

#[derive(Debug)]
pub enum EnrollmentStatus {
    InProgress { elapsed_s: u32, speech_s: u32 },
    Complete { speech_s: u32 },
    Invalid { reason: &'static str },
}

/// The status a session reports after `total` samples of which `speech` were speech.
pub open spec fn status_matches(r: EnrollmentStatus, total: nat, speech: nat) -> bool {
    if total >= TARGET_DURATION_SAMPLES {
        if speech >= MIN_SPEECH_SAMPLES {
            r == (EnrollmentStatus::Complete { speech_s: (speech / SAMPLE_RATE as nat) as u32 })
        } else {
            r matches EnrollmentStatus::Invalid { reason } && reason@ == "insufficient_speech"@
        }
    } else {
        r == (EnrollmentStatus::InProgress {
            elapsed_s: (total / SAMPLE_RATE as nat) as u32,
            speech_s: (speech / SAMPLE_RATE as nat) as u32,
        })
    }
}

/// The samples of a run of pushes (chunk, marked as speech), in order.
pub open spec fn recorded<T>(pushes: Seq<(Seq<T>, bool)>) -> Seq<T>
    decreases pushes.len(),
{
    if pushes.len() == 0 {
        Seq::empty()
    } else {
        recorded(pushes.drop_last()) + pushes.last().0
    }
}

/// How many samples a run of pushes holds.
pub open spec fn total_len<T>(pushes: Seq<(Seq<T>, bool)>) -> nat
    decreases pushes.len(),
{
    if pushes.len() == 0 {
        0
    } else {
        total_len(pushes.drop_last()) + pushes.last().0.len()
    }
}

/// How many samples of a run of pushes were marked as speech.
pub open spec fn speech_len<T>(pushes: Seq<(Seq<T>, bool)>) -> nat
    decreases pushes.len(),
{
    if pushes.len() == 0 {
        0
    } else {
        speech_len(pushes.drop_last()) + if pushes.last().1 { pushes.last().0.len() } else { 0 }
    }
}

pub struct EnrollmentSession<T> {
    pub buffer: Vec<T>,
    speech_samples: u32,
    total_samples: u32,
}

impl<T: Copy> EnrollmentSession<T> {
    /// The recorded samples.
    pub closed spec fn samples(&self) -> Seq<T> {
        self.buffer@
    }

    /// Samples pushed so far that were marked as speech.
    pub closed spec fn speech(&self) -> nat {
        self.speech_samples as nat
    }

    /// Samples pushed so far.
    pub closed spec fn total(&self) -> nat {
        self.total_samples as nat
    }

    /// Samples pushed so far.
    pub fn total_samples(&self) -> (r: u32)
        ensures
            r == self.total(),
    {
        self.total_samples
    }

    /// Samples pushed so far that were marked as speech.
    pub fn speech_samples(&self) -> (r: u32)
        ensures
            r == self.speech(),
    {
        self.speech_samples
    }

    /// The session has recorded exactly the run of pushes `pushes`.
    pub open spec fn holds(&self, pushes: Seq<(Seq<T>, bool)>) -> bool {
        &&& self.samples() == recorded(pushes)
        &&& self.total() == total_len(pushes)
        &&& self.speech() == speech_len(pushes)
    }

    /// One push: `after` is `before` with `chunk` recorded (as speech when
    /// `is_speech`), and `r` is the status it reports.
    pub open spec fn pushed(before: Self, after: Self, chunk: Seq<T>, is_speech: bool, r: EnrollmentStatus) -> bool {
        &&& after.samples() == before.samples() + chunk
        &&& after.total() == before.total() + (chunk.len() as u32)
        &&& after.speech() == before.speech() + if is_speech { (chunk.len() as u32) as nat } else { 0 }
        &&& status_matches(r, after.total(), after.speech())
    }

    pub fn new() -> (r: Self)
        ensures
            r.holds(Seq::empty()),
            r.samples() == Seq::<T>::empty(),
            r.speech() == 0,
            r.total() == 0,
    {
        Self { buffer: Vec::with_capacity(TARGET_DURATION_SAMPLES as usize), speech_samples: 0, total_samples: 0 }
    }

    /// Record a chunk; `is_speech` says whether voice activity was detected in it.
    pub fn push_chunk(&mut self, chunk: &[T], is_speech: bool) -> (r: EnrollmentStatus)
        requires
            old(self).total() + (chunk@.len() as u32) <= u32::MAX,
            is_speech ==> old(self).speech() + (chunk@.len() as u32) <= u32::MAX,
        ensures
            final(self).samples() == old(self).samples() + chunk@,
            final(self).total() == old(self).total() + (chunk@.len() as u32),
            final(self).speech() == old(self).speech() + if is_speech { (chunk@.len() as u32) as nat } else { 0 },
            status_matches(r, final(self).total(), final(self).speech()),
            Self::pushed(*old(self), *final(self), chunk@, is_speech, r),
    {
        let ghost before = self.buffer@;
        let n = chunk.len();
        let mut i: usize = 0;
        while i < n
            invariant
                n == chunk@.len(),
                i <= n,
                self.buffer@ == before + chunk@.subrange(0, i as int),
                self.speech_samples == old(self).speech_samples,
                self.total_samples == old(self).total_samples,
            decreases n - i,
        {
            self.buffer.push(chunk[i]);
            i = i + 1;
            assert(chunk@.subrange(0, i as int) == chunk@.subrange(0, i - 1 as int).push(chunk@[i - 1]));
        }
        assert(chunk@.subrange(0, n as int) == chunk@);

        let len = chunk.len() as u32;
        if is_speech {
            self.speech_samples = self.speech_samples + len;
        }
        self.total_samples = self.total_samples + len;

        let elapsed_s = self.total_samples / SAMPLE_RATE;
        let speech_s = self.speech_samples / SAMPLE_RATE;

        if self.total_samples >= TARGET_DURATION_SAMPLES {
            if self.speech_samples >= MIN_SPEECH_SAMPLES {
                EnrollmentStatus::Complete { speech_s }
            } else {
                EnrollmentStatus::Invalid { reason: "insufficient_speech" }
            }
        } else {
            EnrollmentStatus::InProgress { elapsed_s, speech_s }
        }
    }

    pub fn take_buffer(self) -> (r: Vec<T>)
        ensures
            r@ == self.samples(),
    {
        self.buffer
    }
}

/// Law: a session never counts more speech than it has recorded — pushing a
/// chunk keeps the speech count within the total.
pub proof fn lemma_speech_within_total(total: nat, speech: nat, len: nat, is_speech: bool)
    requires
        speech <= total,
    ensures
        speech + (if is_speech { len } else { 0 }) <= total + len,
{
}

/// Law: a finished recording is reported complete exactly when it holds the
/// minimum amount of speech, and invalid otherwise; before the target
/// duration it is always in progress.
pub proof fn lemma_outcome_by_speech(r: EnrollmentStatus, total: nat, speech: nat)
    requires
        status_matches(r, total, speech),
    ensures
        r is InProgress <==> total < TARGET_DURATION_SAMPLES,
        r is Complete <==> (total >= TARGET_DURATION_SAMPLES && speech >= MIN_SPEECH_SAMPLES),
        r is Invalid <==> (total >= TARGET_DURATION_SAMPLES && speech < MIN_SPEECH_SAMPLES),
{
}

/// Law: a session reports on everything pushed since it was made — after
/// chunks c_1..c_k (each marked as speech or not), it holds c_1 ++ ... ++ c_k,
/// counts all their samples and the speech samples among them, and reports
/// the status of those totals: in progress before 20 s, then complete with at
/// least 10 s of speech and invalid with less.
pub proof fn lemma_session_follows_pushes<T: Copy>(
    before: EnrollmentSession<T>,
    after: EnrollmentSession<T>,
    pushes: Seq<(Seq<T>, bool)>,
    chunk: Seq<T>,
    is_speech: bool,
    r: EnrollmentStatus,
)
    requires
        before.holds(pushes),
        chunk.len() <= u32::MAX,
        EnrollmentSession::pushed(before, after, chunk, is_speech, r),
    ensures
        after.holds(pushes.push((chunk, is_speech))),
        status_matches(r, total_len(pushes.push((chunk, is_speech))), speech_len(pushes.push((chunk, is_speech)))),
{
    let next = pushes.push((chunk, is_speech));
    assert(next.drop_last() =~= pushes);
    assert(next.last() == (chunk, is_speech));
}

} // verus!
