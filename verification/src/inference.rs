//! The inference task's decisions.
//!
//! The task owns the models and processes audio chunks for enrollment and
//! real-time filtering. Everything it decides lives here, as a state machine
//! from (state, input) to (next state, effects); running the models, sharing
//! the speaker gate flag and delivering the events is left to the caller.

use vstd::prelude::*;
use crate::app_state::AppState;
use crate::audio::buffer::{AudioChunk, EmbeddingWindowAccumulator, last_n, HOP_SAMPLES, WINDOW_SAMPLES};
use crate::audio::gating::{gated, extend_gated};
use crate::enrollment::recorder::{EnrollmentSession, EnrollmentStatus, status_matches, TARGET_DURATION_SAMPLES, SAMPLE_RATE};
use crate::events::InferenceCmd;
use crate::filter::gate::{SlidingVoteGate, updated_by};

verus! {

broadcast use vstd::std_specs::vecdeque::group_vec_dequeue_axioms;

/// Samples per second of the filter's audio.
pub const FILTER_RATE: usize = 16000;
/// A test capture stops by itself after this many samples (10 s).
pub const TEST_CAPTURE_LIMIT: usize = 16000 * 10;
/// Filter statistics are reported once per this many scored windows.
pub const STATS_EVERY: u32 = 22;

/// Result of processing one pre-accumulated window through the full pipeline.
pub struct FrameResult<S> {
    /// Cosine similarity vs. enrolled embedding (zero if non-speech).
    pub similarity: S,
    /// Whether the speaker gate passed this frame.
    pub passed: bool,
    /// True when VAD classified the window as non-speech.
    pub is_nonspeech: bool,
}

/// What the models found in one window.
pub enum WindowMeasure<S> {
    /// The fast energy check found the window silent; no model ran.
    Silent,
    /// Voice activity detection put the speech probability below one half.
    NonSpeech,
    /// The window's speaker embedding has this similarity to the enrolled one.
    Scored(S),
    /// The speaker embedding could not be extracted.
    EmbeddingFailed,
}

/// Processing a window failed: its speaker embedding could not be extracted.
#[derive(Debug, PartialEq, Eq, Structural)]
pub struct WindowError;

/// Run one measured window through the speaker gate.
///
/// Returns `Ok(None)` when the window is below the fast-silence energy
/// threshold (gate is not updated; caller should treat as pass). Returns
/// `Ok(Some(r))` for every audible window with the similarity score and gate
/// decision; a non-speech window passes with a zero similarity and leaves the
/// gate unchanged.
pub fn process_window<S: PartialOrd + Copy + Default>(
    measure: WindowMeasure<S>,
    gate: &mut SlidingVoteGate<S>,
) -> (r: Result<Option<FrameResult<S>>, WindowError>)
    ensures
        match measure {
            WindowMeasure::Silent => r == Ok::<Option<FrameResult<S>>, WindowError>(None) && *final(gate) == *old(gate),
            WindowMeasure::NonSpeech => {
                &&& r matches Ok(Some(f))
                &&& call_ensures(S::default, (), f.similarity)
                &&& f.passed
                &&& f.is_nonspeech
                &&& *final(gate) == *old(gate)
            },
            WindowMeasure::Scored(s) => {
                &&& r matches Ok(Some(f))
                &&& f.similarity == s
                &&& !f.is_nonspeech
                &&& f.passed == final(gate).passing()
                &&& updated_by(*old(gate), *final(gate), s)
            },
            WindowMeasure::EmbeddingFailed => r == Err::<Option<FrameResult<S>>, WindowError>(WindowError) && *final(gate) == *old(gate),
        },
{
    match measure {
        WindowMeasure::Silent => Ok(None),
        WindowMeasure::NonSpeech => Ok(Some(FrameResult { similarity: S::default(), passed: true, is_nonspeech: true })),
        WindowMeasure::Scored(similarity) => {
            let passed = gate.update(similarity);
            Ok(Some(FrameResult { similarity, passed, is_nonspeech: false }))
        },
        WindowMeasure::EmbeddingFailed => Err(WindowError),
    }
}


/// A 10-second test recording taken while the filter runs.
pub struct TestCapture<T> {
    pub buffer: Vec<T>,
    pub elapsed_samples: usize,
}

/// State the inference task can be in.
pub enum Mode<T, E, S> {
    /// Waiting for a command.
    Idle,
    /// Accumulating a 20-second enrollment recording.
    Enrolling { index: u8, session: EnrollmentSession<T> },
    /// Both recordings complete; computing the profile (no audio consumed).
    ComputingProfile,
    /// Real-time speaker-gate filtering.
    /// `test_capture` is `Some` while a 10-second test recording is active.
    Filtering {
        enrolled: E,
        gate: SlidingVoteGate<S>,
        accumulator: EmbeddingWindowAccumulator<T>,
        test_capture: Option<TestCapture<T>>,
    },
}

/// Messages the inference task sends to the main thread.
pub enum InferenceEvent<T, E, S> {
    StateChanged(AppState),
    RecordingProgress { index: u8, elapsed_s: u32, speech_s: u32 },
    RecordingComplete { index: u8, speech_s: u32 },
    RecordingInvalid { index: u8 },
    FilterStats { similarity: S, passing: bool },
    TestProgress { elapsed_s: u32 },
    TestCaptureComplete { samples: Vec<T> },
    EnrolledProfileReady(E),
}

/// The content of an [`InferenceEvent`], with sample buffers as sequences.
pub ghost enum Notice<T, E, S> {
    StateChanged(AppState),
    RecordingProgress { index: u8, elapsed_s: u32, speech_s: u32 },
    RecordingComplete { index: u8, speech_s: u32 },
    RecordingInvalid { index: u8 },
    FilterStats { similarity: S, passing: bool },
    TestProgress { elapsed_s: u32 },
    TestCaptureComplete { samples: Seq<T> },
    EnrolledProfileReady(E),
}

impl<T, E, S> View for InferenceEvent<T, E, S> {
    type V = Notice<T, E, S>;

    open spec fn view(&self) -> Notice<T, E, S> {
        match self {
            InferenceEvent::StateChanged(s) => Notice::StateChanged(*s),
            InferenceEvent::RecordingProgress { index, elapsed_s, speech_s } => Notice::RecordingProgress {
                index: *index,
                elapsed_s: *elapsed_s,
                speech_s: *speech_s,
            },
            InferenceEvent::RecordingComplete { index, speech_s } => Notice::RecordingComplete { index: *index, speech_s: *speech_s },
            InferenceEvent::RecordingInvalid { index } => Notice::RecordingInvalid { index: *index },
            InferenceEvent::FilterStats { similarity, passing } => Notice::FilterStats { similarity: *similarity, passing: *passing },
            InferenceEvent::TestProgress { elapsed_s } => Notice::TestProgress { elapsed_s: *elapsed_s },
            InferenceEvent::TestCaptureComplete { samples } => Notice::TestCaptureComplete { samples: samples@ },
            InferenceEvent::EnrolledProfileReady(e) => Notice::EnrolledProfileReady(*e),
        }
    }
}

/// The sample sequences held by a list of buffers.
pub open spec fn buffer_views<T>(v: Seq<Vec<T>>) -> Seq<Seq<T>> {
    v.map_values(|b: Vec<T>| b@)
}

/// The effects of one step of the task, to be carried out by its caller in
/// this order: store `gate` into the shared gate flag, send `events`, then,
/// when `profile_input` is present, compute and save the voice profile from
/// those recordings.
pub struct Step<T, E, S> {
    pub gate: Option<bool>,
    pub events: Vec<InferenceEvent<T, E, S>>,
    pub profile_input: Option<Vec<Vec<T>>>,
}

/// The content of a [`Step`].
pub ghost struct StepView<T, E, S> {
    pub gate: Option<bool>,
    pub notices: Seq<Notice<T, E, S>>,
    pub profile_input: Option<Seq<Seq<T>>>,
}

impl<T, E, S> View for Step<T, E, S> {
    type V = StepView<T, E, S>;

    open spec fn view(&self) -> StepView<T, E, S> {
        StepView {
            gate: self.gate,
            notices: self.events@.map_values(|e: InferenceEvent<T, E, S>| e@),
            profile_input: match self.profile_input {
                Some(b) => Some(buffer_views(b@)),
                None => None,
            },
        }
    }
}

impl<T, E, S> Step<T, E, S> {
    fn none() -> (r: Self)
        ensures
            r@ == (StepView::<T, E, S> { gate: None, notices: seq![], profile_input: None }),
    {
        let r = Step { gate: None, events: Vec::new(), profile_input: None };
        assert(r@.notices =~= seq![]);
        r
    }

    fn emit(&mut self, e: InferenceEvent<T, E, S>)
        ensures
            final(self)@ == (StepView { notices: old(self)@.notices.push(e@), ..old(self)@ }),
    {
        self.events.push(e);
        assert(self@.notices =~= old(self)@.notices.push(e@));
    }
}

/// The test capture after a chunk arrives while the speaker gate decision is `pass`:
/// the speaker gated samples are recorded, progress is reported on every 22nd chunk,
/// and once 10 seconds are recorded the capture ends and is handed over.
pub open spec fn capture_follows<T, E, S>(
    before: Option<TestCapture<T>>,
    after: Option<TestCapture<T>>,
    notices: Seq<Notice<T, E, S>>,
    chunk: Seq<T>,
    seq: u64,
    pass: bool,
    silence: T,
) -> bool {
    match before {
        None => after is None && notices == Seq::<Notice<T, E, S>>::empty(),
        Some(tc) => {
            let buf = tc.buffer@ + gated(chunk, pass, silence);
            let elapsed = tc.elapsed_samples + chunk.len();
            let progress = if seq % 22 == 0 {
                seq![Notice::<T, E, S>::TestProgress { elapsed_s: (elapsed / FILTER_RATE as int) as u32 }]
            } else {
                Seq::<Notice<T, E, S>>::empty()
            };
            if elapsed >= TEST_CAPTURE_LIMIT {
                &&& after is None
                &&& notices == progress.push(Notice::TestCaptureComplete { samples: buf })
            } else {
                &&& after matches Some(t) && t.buffer@ == buf && t.elapsed_samples == elapsed
                &&& notices == progress
            }
        },
    }
}

/// The accumulator's bookkeeping as the filter keeps it: default window and
/// hop, and either a full window of history with less than a hop pending, or
/// (before the first window) exactly the pending samples, fewer than a window.
pub open spec fn accumulator_ok<T: Copy>(a: EmbeddingWindowAccumulator<T>) -> bool {
    &&& a.window_len() == WINDOW_SAMPLES
    &&& a.hop_len() == HOP_SAMPLES
    &&& ({
        ||| a.ring().len() >= WINDOW_SAMPLES && a.pending() < HOP_SAMPLES
        ||| a.ring().len() == a.pending() && a.pending() < WINDOW_SAMPLES
    })
}

/// The task's state: its mode, the enrollment recordings completed so far,
/// and the count of scored windows since filter statistics were last sent.
pub struct InferenceState<T, E, S> {
    pub mode: Mode<T, E, S>,
    pub enrollment_buffers: Vec<Vec<T>>,
    pub stats_counter: u32,
}


/// Where a chunk goes while the filter runs: a full window the caller must
/// measure (then call [`InferenceState::finish_window`]), or a finished step.
pub enum ChunkProgress<T, E, S> {
    Done(Step<T, E, S>),
    Window(Vec<T>),
}


/// Keeping the filter's accumulator bookkeeping across a push of `len` samples.
proof fn lemma_accumulator_ok_step(ring: nat, pending: nat, len: nat)
    requires
        (ring >= WINDOW_SAMPLES && pending < HOP_SAMPLES) || (ring == pending && pending < WINDOW_SAMPLES),
    ensures
        !(pending + len >= HOP_SAMPLES && ring + len >= WINDOW_SAMPLES) ==> (
            (ring + len >= WINDOW_SAMPLES && pending + len < HOP_SAMPLES)
            || (ring + len == pending + len && pending + len < WINDOW_SAMPLES)),
{
}

/// What an enrollment chunk does: the recording grows; while under the
/// target duration it stays in progress (reporting on every 11th chunk);
/// at the target it completes when there was enough speech — the recording
/// joins the finished ones, and with two finished the profile is computed —
/// and is otherwise discarded as invalid.
pub open spec fn enroll_follows<T: Copy, E, S>(
    before: InferenceState<T, E, S>,
    after: InferenceState<T, E, S>,
    st: StepView<T, E, S>,
    index: u8,
    session: EnrollmentSession<T>,
    chunk: Seq<T>,
    seq: u64,
    is_speech: bool,
) -> bool {
    let len = (chunk.len() as u32) as nat;
    let total = session.total() + len;
    let speech = session.speech() + if is_speech { len } else { 0 };
    let samples = session.samples() + chunk;
    let speech_s = (speech / SAMPLE_RATE as nat) as u32;
    &&& after.stats_counter == before.stats_counter
    &&& st.gate is None
    &&& if total < TARGET_DURATION_SAMPLES {
        &&& after.enrollment_buffers == before.enrollment_buffers
        &&& after.mode matches Mode::Enrolling { index: i, session: s }
        &&& i == index
        &&& s.samples() == samples
        &&& s.total() == total
        &&& s.speech() == speech
        &&& st.profile_input is None
        &&& st.notices == if seq % 11 == 0 {
            seq![Notice::<T, E, S>::RecordingProgress {
                index,
                elapsed_s: (total / SAMPLE_RATE as nat) as u32,
                speech_s,
            }]
        } else {
            Seq::<Notice<T, E, S>>::empty()
        }
    } else if speech >= crate::enrollment::recorder::MIN_SPEECH_SAMPLES {
        let finished = buffer_views(before.enrollment_buffers@).push(samples);
        if finished.len() >= 2 {
            &&& after.mode is ComputingProfile
            &&& after.enrollment_buffers@.len() == 0
            &&& st.notices == seq![
                Notice::<T, E, S>::RecordingComplete { index, speech_s },
                Notice::<T, E, S>::StateChanged(AppState::Adapting),
            ]
            &&& st.profile_input == Some(finished)
        } else {
            &&& after.mode is Idle
            &&& buffer_views(after.enrollment_buffers@) == finished
            &&& st.notices == seq![Notice::<T, E, S>::RecordingComplete { index, speech_s }]
            &&& st.profile_input is None
        }
    } else {
        &&& after.mode is Idle
        &&& after.enrollment_buffers == before.enrollment_buffers
        &&& st.notices == seq![Notice::<T, E, S>::RecordingInvalid { index }]
        &&& st.profile_input is None
    }
}

/// Record a chunk into the test capture, if one runs.
fn capture_chunk<T: Copy, E, S>(
    test_capture: Option<TestCapture<T>>,
    chunk: &AudioChunk<T>,
    pass: bool,
    silence: T,
    step: &mut Step<T, E, S>,
) -> (r: Option<TestCapture<T>>)
    requires
        test_capture matches Some(tc) ==> tc.elapsed_samples < TEST_CAPTURE_LIMIT,
        test_capture matches Some(tc) ==> tc.elapsed_samples + chunk.samples@.len() <= usize::MAX,
    ensures
        capture_follows(
            test_capture,
            r,
            final(step)@.notices.skip(old(step)@.notices.len() as int),
            chunk.samples@,
            chunk.seq,
            pass,
            silence,
        ),
        final(step)@.notices.take(old(step)@.notices.len() as int) == old(step)@.notices,
        final(step)@.gate == old(step)@.gate,
        final(step)@.profile_input == old(step)@.profile_input,
        r matches Some(tc) ==> tc.elapsed_samples < TEST_CAPTURE_LIMIT,
{
    let ghost start = step@.notices;
    match test_capture {
        None => {
            assert(step@.notices.skip(start.len() as int) =~= Seq::<Notice<T, E, S>>::empty());
            assert(step@.notices.take(start.len() as int) =~= start);
            None
        },
        Some(tc) => {
            let mut buffer = tc.buffer;
            extend_gated(&mut buffer, chunk.samples.as_slice(), pass, silence);
            let elapsed = tc.elapsed_samples + chunk.samples.len();
            if chunk.seq % 22 == 0 {
                step.emit(InferenceEvent::TestProgress { elapsed_s: (elapsed / FILTER_RATE) as u32 });
            }
            let ghost mid = step@.notices;
            let ghost progress = if chunk.seq % 22 == 0 {
                seq![Notice::<T, E, S>::TestProgress { elapsed_s: (elapsed as int / FILTER_RATE as int) as u32 }]
            } else {
                Seq::<Notice<T, E, S>>::empty()
            };
            assert(mid.take(start.len() as int) =~= start);
            assert(mid.skip(start.len() as int) =~= progress);
            if elapsed >= TEST_CAPTURE_LIMIT {
                // 10-second safety cap — stop even if user forgets to press Stop
                step.emit(InferenceEvent::TestCaptureComplete { samples: buffer });
                assert(step@.notices.take(start.len() as int) =~= start);
                assert(step@.notices.skip(start.len() as int) =~= progress.push(
                    Notice::TestCaptureComplete { samples: tc.buffer@ + gated(chunk.samples@, pass, silence) },
                ));
                None
            } else {
                assert(step@.notices.take(start.len() as int) =~= start);
                Some(TestCapture { buffer, elapsed_samples: elapsed })
            }
        },
    }
}

impl<T: Copy, E, S: PartialOrd + Copy + Default> InferenceState<T, E, S> {
    /// Whether the task's sample counters can take in a chunk of `len`
    /// samples (a chunk is recorded as speech unless `silent`): the
    /// enrollment counters are 32-bit, the others native-sized, and an
    /// overflowing count is an error.
    pub open spec fn accepts(&self, len: nat, silent: bool) -> bool {
        match self.mode {
            Mode::Enrolling { session, .. } => {
                &&& session.total() + (len as u32) <= u32::MAX
                &&& !silent ==> session.speech() + (len as u32) <= u32::MAX
            },
            Mode::Filtering { accumulator, test_capture, .. } => {
                &&& !silent ==> accumulator.pending() + len <= usize::MAX
                &&& test_capture matches Some(tc) ==> tc.elapsed_samples + len <= usize::MAX
            },
            _ => true,
        }
    }

    /// Whether the task can take in a chunk of `len` samples; see [`Self::accepts`].
    pub fn accepts_chunk(&self, len: usize, silent: bool) -> (r: bool)
        ensures
            r == self.accepts(len as nat, silent),
    {
        match &self.mode {
            Mode::Enrolling { session, .. } => {
                let n = len as u32;
                session.total_samples() as u64 + n as u64 <= u32::MAX as u64
                    && (silent || session.speech_samples() as u64 + n as u64 <= u32::MAX as u64)
            },
            Mode::Filtering { accumulator, test_capture, .. } => {
                (silent || accumulator.pending_samples() <= usize::MAX - len) && match test_capture {
                    Some(tc) => tc.elapsed_samples <= usize::MAX - len,
                    None => true,
                }
            },
            _ => true,
        }
    }

    /// The task's invariant: counters stay where the task keeps them.
    pub open spec fn wf(&self) -> bool {
        &&& self.stats_counter < STATS_EVERY
        &&& match self.mode {
            Mode::Enrolling { session, .. } => {
                &&& session.total() < TARGET_DURATION_SAMPLES
                &&& session.speech() <= session.total()
            },
            Mode::Filtering { accumulator, test_capture, .. } => {
                &&& accumulator_ok(accumulator)
                &&& test_capture matches Some(tc) ==> tc.elapsed_samples < TEST_CAPTURE_LIMIT
            },
            _ => true,
        }
    }

    pub fn new() -> (r: Self)
        ensures
            r.wf(),
            r.mode is Idle,
            r.enrollment_buffers@.len() == 0,
            r.stats_counter == 0,
    {
        InferenceState { mode: Mode::Idle, enrollment_buffers: Vec::new(), stats_counter: 0 }
    }

    /// Carry out a command from the main thread. `threshold` and `vote_window`
    /// are the speaker gate threshold and the number of failing frames before
    /// it mutes, as configured when the command arrives.
    pub fn apply_command(&mut self, cmd: InferenceCmd<E>, threshold: S, vote_window: usize) -> (r: Step<T, E, S>)
        requires
            old(self).wf(),
        ensures
            final(self).wf(),
            final(self).enrollment_buffers == old(self).enrollment_buffers,
            final(self).stats_counter == old(self).stats_counter,
            r@.profile_input is None,
            match cmd {
                InferenceCmd::StartEnrollment { index } => {
                    &&& final(self).mode matches Mode::Enrolling { index: i, session }
                    &&& i == index
                    &&& session.samples() == Seq::<T>::empty()
                    &&& session.total() == 0
                    &&& session.speech() == 0
                    &&& r@.gate is None
                    &&& r@.notices == seq![
                        Notice::<T, E, S>::StateChanged(AppState::Recording { index: if index == 1 { 1 } else { 2 } }),
                    ]
                },
                InferenceCmd::StartFilter { enrolled } => {
                    &&& final(self).mode matches Mode::Filtering { enrolled: e, gate, accumulator, test_capture }
                    &&& e == enrolled
                    &&& gate.votes() == Seq::<bool>::empty()
                    &&& gate.window() == vote_window
                    &&& gate.threshold_of() == threshold
                    &&& gate.passing()
                    &&& call_ensures(S::default, (), gate.last_similarity_of())
                    &&& accumulator.ring() == Seq::<T>::empty()
                    &&& accumulator.pending() == 0
                    &&& accumulator.window_len() == WINDOW_SAMPLES
                    &&& accumulator.hop_len() == HOP_SAMPLES
                    &&& test_capture is None
                    &&& r@.gate == Some(true)
                    &&& r@.notices == seq![Notice::<T, E, S>::StateChanged(AppState::Filtering)]
                },
                InferenceCmd::StopFilter => {
                    &&& final(self).mode is Idle
                    &&& r@.gate == Some(true)
                    &&& r@.notices == seq![Notice::<T, E, S>::StateChanged(AppState::ActiveStandby)]
                },
                InferenceCmd::StartTest => {
                    &&& r@.gate is None
                    &&& match old(self).mode {
                        Mode::Filtering { enrolled, gate, accumulator, .. } => {
                            &&& final(self).mode matches Mode::Filtering { enrolled: e, gate: g, accumulator: a, test_capture: Some(tc) }
                            &&& e == enrolled && g == gate && a == accumulator
                            &&& tc.buffer@ == Seq::<T>::empty()
                            &&& tc.elapsed_samples == 0
                            &&& r@.notices == seq![Notice::<T, E, S>::StateChanged(AppState::Testing)]
                        },
                        _ => final(self).mode == old(self).mode && r@.notices == Seq::<Notice<T, E, S>>::empty(),
                    }
                },
                InferenceCmd::StopTest => {
                    &&& r@.gate is None
                    &&& match old(self).mode {
                        Mode::Filtering { enrolled, gate, accumulator, test_capture: Some(tc) } => {
                            &&& final(self).mode matches Mode::Filtering { enrolled: e, gate: g, accumulator: a, test_capture: None }
                            &&& e == enrolled && g == gate && a == accumulator
                            &&& r@.notices == seq![Notice::<T, E, S>::TestCaptureComplete { samples: tc.buffer@ }]
                        },
                        _ => final(self).mode == old(self).mode && r@.notices == Seq::<Notice<T, E, S>>::empty(),
                    }
                },
            },
    {
        let mut step = Step::none();
        match cmd {
            InferenceCmd::StartEnrollment { index } => {
                self.mode = Mode::Enrolling { index, session: EnrollmentSession::new() };
                let shown = if index == 1 { AppState::Recording { index: 1 } } else { AppState::Recording { index: 2 } };
                step.emit(InferenceEvent::StateChanged(shown));
            },
            InferenceCmd::StartFilter { enrolled } => {
                self.mode = Mode::Filtering {
                    enrolled,
                    gate: SlidingVoteGate::new(threshold, vote_window),
                    accumulator: EmbeddingWindowAccumulator::new(),
                    test_capture: None,
                };
                step.gate = Some(true);
                step.emit(InferenceEvent::StateChanged(AppState::Filtering));
            },
            InferenceCmd::StopFilter => {
                step.gate = Some(true);  // fail-open
                self.mode = Mode::Idle;
                step.emit(InferenceEvent::StateChanged(AppState::ActiveStandby));
            },
            InferenceCmd::StartTest => {
                // Test capture runs *inside* the filtering loop so the speaker gate
                // continues to update while we record.
                let mut mode = Mode::Idle;
                std::mem::swap(&mut mode, &mut self.mode);
                match mode {
                    Mode::Filtering { enrolled, gate, accumulator, .. } => {
                        self.mode = Mode::Filtering {
                            enrolled,
                            gate,
                            accumulator,
                            test_capture: Some(TestCapture { buffer: Vec::with_capacity(FILTER_RATE * 30), elapsed_samples: 0 }),
                        };
                        step.emit(InferenceEvent::StateChanged(AppState::Testing));
                    },
                    other => {
                        self.mode = other;
                    },
                }
            },
            InferenceCmd::StopTest => {
                let mut mode = Mode::Idle;
                std::mem::swap(&mut mode, &mut self.mode);
                match mode {
                    Mode::Filtering { enrolled, gate, accumulator, test_capture: Some(tc) } => {
                        self.mode = Mode::Filtering { enrolled, gate, accumulator, test_capture: None };
                        step.emit(InferenceEvent::TestCaptureComplete { samples: tc.buffer });
                    },
                    other => {
                        self.mode = other;
                    },
                }
            },
        }
        step
    }

    /// Handle one audio chunk from the microphone.
    ///
    /// `silent` is the fast energy check on the chunk, `gate_now` the shared
    /// gate flag as it stands, and `silence` the sample that replaces gated
    /// audio in a test capture. While enrolling the chunk is recorded (as
    /// speech unless silent); while filtering a silent chunk passes, a chunk
    /// that completes a window hands the window back for measuring, and any
    /// other chunk keeps the current gate decision. Idle and profile
    /// computation discard audio.
    pub fn begin_chunk(&mut self, chunk: &AudioChunk<T>, silent: bool, gate_now: bool, silence: T) -> (r: ChunkProgress<T, E, S>)
        requires
            old(self).wf(),
            old(self).accepts(chunk.samples@.len(), silent),
        ensures
            final(self).wf(),
            // Fail-open: a chunk that completes no window never mutes.
            r matches ChunkProgress::Done(st) ==> st@.gate != Some(false),
            (old(self).mode is Idle || old(self).mode is ComputingProfile) ==> {
                &&& *final(self) == *old(self)
                &&& r matches ChunkProgress::Done(st)
                &&& st@ == (StepView::<T, E, S> { gate: None, notices: seq![], profile_input: None })
            },
            old(self).mode matches Mode::Enrolling { index, session } ==> {
                &&& r matches ChunkProgress::Done(st)
                &&& enroll_follows(*old(self), *final(self), st@, index, session, chunk.samples@, chunk.seq, !silent)
            },
            old(self).mode matches Mode::Filtering { enrolled, gate, accumulator, test_capture } ==> {
                &&& final(self).enrollment_buffers == old(self).enrollment_buffers
                &&& final(self).stats_counter == old(self).stats_counter
                &&& final(self).mode matches Mode::Filtering { enrolled: e, gate: g, accumulator: a, test_capture: t }
                &&& e == enrolled
                &&& g == gate
                &&& (silent ==> {
                    &&& a == accumulator
                    &&& r matches ChunkProgress::Done(st)
                    &&& st@.gate == Some(true)
                    &&& st@.profile_input is None
                    &&& capture_follows(test_capture, t, st@.notices, chunk.samples@, chunk.seq, true, silence)
                })
                &&& (!silent && accumulator.emits(chunk.samples@) ==> {
                    &&& r matches ChunkProgress::Window(w)
                    &&& w@ == last_n(accumulator.ring() + chunk.samples@, WINDOW_SAMPLES as nat)
                    &&& a.ring() == last_n(accumulator.ring() + chunk.samples@, WINDOW_SAMPLES as nat)
                    &&& a.pending() == 0
                    &&& a.window_len() == accumulator.window_len()
                    &&& a.hop_len() == accumulator.hop_len()
                    &&& t == test_capture
                })
                &&& (!silent && !accumulator.emits(chunk.samples@) ==> {
                    &&& a.ring() == accumulator.ring() + chunk.samples@
                    &&& a.pending() == accumulator.pending() + chunk.samples@.len()
                    &&& a.window_len() == accumulator.window_len()
                    &&& a.hop_len() == accumulator.hop_len()
                    &&& r matches ChunkProgress::Done(st)
                    &&& st@.gate is None
                    &&& st@.profile_input is None
                    &&& capture_follows(test_capture, t, st@.notices, chunk.samples@, chunk.seq, gate_now, silence)
                })
            },
    {
        let mut mode = Mode::Idle;
        std::mem::swap(&mut mode, &mut self.mode);
        match mode {
            // ---- Idle / ComputingProfile: discard audio ----
            Mode::Idle => {
                ChunkProgress::Done(Step::none())
            },
            Mode::ComputingProfile => {
                self.mode = Mode::ComputingProfile;
                ChunkProgress::Done(Step::none())
            },
            // ---- Enrollment recording ----
            Mode::Enrolling { index, session } => {
                let mut session = session;
                let mut step = Step::none();
                let status = session.push_chunk(chunk.samples.as_slice(), !silent);
                match status {
                    EnrollmentStatus::InProgress { elapsed_s, speech_s } => {
                        if chunk.seq % 11 == 0 {
                            step.emit(InferenceEvent::RecordingProgress { index, elapsed_s, speech_s });
                            assert(step@.notices =~= seq![Notice::<T, E, S>::RecordingProgress { index, elapsed_s, speech_s }]);
                        }
                        self.mode = Mode::Enrolling { index, session };
                    },
                    EnrollmentStatus::Complete { speech_s } => {
                        let ghost before = self.enrollment_buffers@;
                        let buffer = session.take_buffer();
                        self.enrollment_buffers.push(buffer);
                        assert(buffer_views(self.enrollment_buffers@) =~= buffer_views(before).push(buffer@));
                        step.emit(InferenceEvent::RecordingComplete { index, speech_s });
                        if self.enrollment_buffers.len() >= 2 {
                            self.mode = Mode::ComputingProfile;
                            step.emit(InferenceEvent::StateChanged(AppState::Adapting));
                            assert(step@.notices =~= seq![
                                Notice::<T, E, S>::RecordingComplete { index, speech_s },
                                Notice::<T, E, S>::StateChanged(AppState::Adapting),
                            ]);
                            let mut finished: Vec<Vec<T>> = Vec::new();
                            std::mem::swap(&mut finished, &mut self.enrollment_buffers);
                            step.profile_input = Some(finished);
                        } else {
                            assert(step@.notices =~= seq![Notice::<T, E, S>::RecordingComplete { index, speech_s }]);
                            self.mode = Mode::Idle;
                        }
                    },
                    EnrollmentStatus::Invalid { .. } => {
                        step.emit(InferenceEvent::RecordingInvalid { index });
                        assert(step@.notices =~= seq![Notice::<T, E, S>::RecordingInvalid { index }]);
                        self.mode = Mode::Idle;
                    },
                }
                ChunkProgress::Done(step)
            },
            // ---- Real-time filtering (+ optional test capture) ----
            Mode::Filtering { enrolled, gate, accumulator, test_capture } => {
                let mut accumulator = accumulator;
                let mut step = Step::none();
                let pass: bool;
                if silent {
                    step.gate = Some(true);
                    pass = true;
                } else {
                    proof {
                        lemma_accumulator_ok_step(accumulator.ring().len(), accumulator.pending(), chunk.samples@.len());
                    }
                    match accumulator.push_chunk(chunk.samples.as_slice()) {
                        Some(window) => {
                            // Full embedding window available — the caller measures it.
                            self.mode = Mode::Filtering { enrolled, gate, accumulator, test_capture };
                            return ChunkProgress::Window(window);
                        },
                        None => {
                            // Window not yet full — keep the current gate state.
                            pass = gate_now;
                        },
                    }
                }
                let test_capture = capture_chunk(test_capture, chunk, pass, silence, &mut step);
                proof {
                    assert(step@.notices.skip(0) =~= step@.notices);
                }
                self.mode = Mode::Filtering { enrolled, gate, accumulator, test_capture };
                ChunkProgress::Done(step)
            },
        }
    }


    /// Finish a chunk whose window was measured: the measurement goes through
    /// the speaker gate (see [`process_window`]); a silent, non-speech or failed
    /// window passes (fail-open), a scored one passes as the speaker gate decides and
    /// counts toward the filter statistics, sent with every 22nd score. The
    /// chunk then goes into the test capture under that decision.
    pub fn finish_window(&mut self, chunk: &AudioChunk<T>, measure: WindowMeasure<S>, silence: T) -> (r: Step<T, E, S>)
        requires
            old(self).wf(),
            old(self).mode is Filtering,
            old(self).accepts(chunk.samples@.len(), true),
        ensures
            final(self).wf(),
            final(self).enrollment_buffers == old(self).enrollment_buffers,
            r@.profile_input is None,
            // Fail-open: only a scored window that the speaker gate rejects mutes.
            r@.gate is Some,
            r@.gate == Some(false) ==> measure is Scored,
            r@.gate == Some(false) ==> (final(self).mode matches Mode::Filtering { gate: g, .. } && !g.passing()),
            old(self).mode matches Mode::Filtering { enrolled, gate, accumulator, test_capture } ==> {
                &&& final(self).mode matches Mode::Filtering { enrolled: e, gate: g, accumulator: a, test_capture: t }
                &&& e == enrolled
                &&& a == accumulator
                &&& match measure {
                    WindowMeasure::Scored(s) => {
                        let c = old(self).stats_counter + 1;
                        let stats = if c >= STATS_EVERY {
                            seq![Notice::<T, E, S>::FilterStats { similarity: s, passing: g.passing() }]
                        } else {
                            Seq::<Notice<T, E, S>>::empty()
                        };
                        &&& updated_by(gate, g, s)
                        &&& r@.gate == Some(g.passing())
                        &&& final(self).stats_counter == if c >= STATS_EVERY { 0 } else { c }
                        &&& r@.notices.take(stats.len() as int) == stats
                        &&& capture_follows(test_capture, t, r@.notices.skip(stats.len() as int), chunk.samples@, chunk.seq, g.passing(), silence)
                    },
                    _ => {
                        &&& g == gate
                        &&& r@.gate == Some(true)
                        &&& final(self).stats_counter == old(self).stats_counter
                        &&& capture_follows(test_capture, t, r@.notices, chunk.samples@, chunk.seq, true, silence)
                    },
                }
            },
    {
        let mut mode = Mode::Idle;
        std::mem::swap(&mut mode, &mut self.mode);
        match mode {
            Mode::Filtering { enrolled, gate, accumulator, test_capture } => {
                let mut gate = gate;
                let mut step = Step::none();
                let pass: bool;
                match process_window(measure, &mut gate) {
                    Ok(None) => {
                        // Silent window — fail-open
                        step.gate = Some(true);
                        pass = true;
                    },
                    Ok(Some(result)) => {
                        step.gate = Some(result.passed);
                        pass = result.passed;
                        if !result.is_nonspeech {
                            self.stats_counter = self.stats_counter + 1;
                            if self.stats_counter >= STATS_EVERY {
                                self.stats_counter = 0;
                                step.emit(InferenceEvent::FilterStats { similarity: result.similarity, passing: result.passed });
                            }
                        }
                    },
                    Err(_) => {
                        step.gate = Some(true);
                        pass = true;
                    },
                }
                let ghost before = step@.notices;
                let test_capture = capture_chunk(test_capture, chunk, pass, silence, &mut step);
                proof {
                    assert(step@.notices.skip(0) =~= step@.notices);
                    assert(before.len() == 0 || before.len() == 1);
                }
                self.mode = Mode::Filtering { enrolled, gate, accumulator, test_capture };
                step
            },
            other => {
                self.mode = other;
                Step::none()
            },
        }
    }

}

/// How computing and saving the voice profile went.
pub enum ProfileOutcome<E> {
    /// The profile was saved; `enrolled` is its embedding when it has the
    /// full dimension.
    Saved { enrolled: Option<E> },
    /// The profile was computed but could not be saved.
    SaveFailed,
    /// No profile could be computed from the recordings.
    ComputeFailed,
}

/// What the task reports once the profile computation is over: a saved
/// profile makes the test ready and, with a full embedding, starts the filter
/// fail-open; a failed computation reports the recordings invalid (index 255);
/// a failed save reports nothing.
pub fn profile_step<T, E, S>(outcome: ProfileOutcome<E>) -> (r: Step<T, E, S>)
    ensures
        r@.profile_input is None,
        match outcome {
            ProfileOutcome::Saved { enrolled: Some(e) } => {
                &&& r@.gate == Some(true)
                &&& r@.notices == seq![
                    Notice::<T, E, S>::StateChanged(AppState::TestReady),
                    Notice::<T, E, S>::EnrolledProfileReady(e),
                ]
            },
            ProfileOutcome::Saved { enrolled: None } => {
                &&& r@.gate is None
                &&& r@.notices == seq![Notice::<T, E, S>::StateChanged(AppState::TestReady)]
            },
            ProfileOutcome::SaveFailed => r@.gate is None && r@.notices == Seq::<Notice<T, E, S>>::empty(),
            ProfileOutcome::ComputeFailed => {
                &&& r@.gate is None
                &&& r@.notices == seq![Notice::<T, E, S>::RecordingInvalid { index: 255 }]
            },
        },
{
    let ghost given = outcome;
    let mut step = Step::none();
    match outcome {
        ProfileOutcome::Saved { enrolled } => {
            step.emit(InferenceEvent::StateChanged(AppState::TestReady));
            if let Some(e) = enrolled {
                step.gate = Some(true);
                step.emit(InferenceEvent::EnrolledProfileReady(e));
            }
        },
        ProfileOutcome::SaveFailed => {},
        ProfileOutcome::ComputeFailed => {
            step.emit(InferenceEvent::RecordingInvalid { index: 255 });
        },
    }
    assert(step@.notices.len() <= 2);
    proof {
        match given {
            ProfileOutcome::Saved { enrolled: Some(e) } => {
                assert(step@.notices =~= seq![
                    Notice::<T, E, S>::StateChanged(AppState::TestReady),
                    Notice::<T, E, S>::EnrolledProfileReady(e),
                ]);
            },
            ProfileOutcome::Saved { enrolled: None } => {
                assert(step@.notices =~= seq![Notice::<T, E, S>::StateChanged(AppState::TestReady)]);
            },
            ProfileOutcome::ComputeFailed => {
                assert(step@.notices =~= seq![Notice::<T, E, S>::RecordingInvalid { index: 255 }]);
            },
            _ => {},
        }
    }
    step
}

/// Law: enrollment takes two recordings — when the second recording
/// completes with enough speech, the task stops taking audio and hands both
/// recordings, in the order they were made, to the profile computation.
pub proof fn lemma_second_recording_starts_profile<T: Copy, E, S>(
    before: InferenceState<T, E, S>,
    after: InferenceState<T, E, S>,
    st: StepView<T, E, S>,
    index: u8,
    session: EnrollmentSession<T>,
    chunk: Seq<T>,
    seq: u64,
    is_speech: bool,
)
    requires
        enroll_follows(before, after, st, index, session, chunk, seq, is_speech),
        before.enrollment_buffers@.len() == 1,
        session.total() + ((chunk.len() as u32) as nat) >= TARGET_DURATION_SAMPLES,
        session.speech() + (if is_speech { (chunk.len() as u32) as nat } else { 0 }) >= crate::enrollment::recorder::MIN_SPEECH_SAMPLES,
    ensures
        after.mode is ComputingProfile,
        after.enrollment_buffers@.len() == 0,
        st.profile_input == Some(seq![before.enrollment_buffers@[0]@, session.samples() + chunk]),
{
    let finished = buffer_views(before.enrollment_buffers@).push(session.samples() + chunk);
    assert(finished =~= seq![before.enrollment_buffers@[0]@, session.samples() + chunk]);
}

/// Law: the first completed recording never starts the profile computation;
/// the task returns to idle holding it.
pub proof fn lemma_first_recording_is_kept<T: Copy, E, S>(
    before: InferenceState<T, E, S>,
    after: InferenceState<T, E, S>,
    st: StepView<T, E, S>,
    index: u8,
    session: EnrollmentSession<T>,
    chunk: Seq<T>,
    seq: u64,
    is_speech: bool,
)
    requires
        enroll_follows(before, after, st, index, session, chunk, seq, is_speech),
        before.enrollment_buffers@.len() == 0,
        session.total() + ((chunk.len() as u32) as nat) >= TARGET_DURATION_SAMPLES,
        session.speech() + (if is_speech { (chunk.len() as u32) as nat } else { 0 }) >= crate::enrollment::recorder::MIN_SPEECH_SAMPLES,
    ensures
        after.mode is Idle,
        st.profile_input is None,
        buffer_views(after.enrollment_buffers@) == seq![session.samples() + chunk],
{
    assert(buffer_views(before.enrollment_buffers@).push(session.samples() + chunk) =~= seq![session.samples() + chunk]);
}

/// Law: the test capture records exactly what the filter let through —
/// passed chunks as they were, muted chunks as silence — and never holds
/// more than ten seconds.
pub proof fn lemma_capture_is_gated_audio<T, E, S>(
    tc: TestCapture<T>,
    after: Option<TestCapture<T>>,
    notices: Seq<Notice<T, E, S>>,
    chunk: Seq<T>,
    seq: u64,
    pass: bool,
    silence: T,
)
    requires
        capture_follows(Some(tc), after, notices, chunk, seq, pass, silence),
    ensures
        (after matches Some(t) ==> (t.buffer@ == tc.buffer@ + gated(chunk, pass, silence) && t.elapsed_samples < TEST_CAPTURE_LIMIT)),
        (after is None ==> (notices.last() == (Notice::<T, E, S>::TestCaptureComplete { samples: tc.buffer@ + gated(chunk, pass, silence) }))),
{
}

/// Law: a recording that reaches 20 s without enough speech changes nothing
/// of the recordings already completed — it is reported invalid, the task
/// goes idle and nothing is handed to the profile computation — so a retried
/// recording 2 still finds recording 1.
pub proof fn lemma_invalid_recording_keeps_completed<T: Copy, E, S>(
    before: InferenceState<T, E, S>,
    after: InferenceState<T, E, S>,
    st: StepView<T, E, S>,
    index: u8,
    session: EnrollmentSession<T>,
    chunk: Seq<T>,
    seq: u64,
    is_speech: bool,
)
    requires
        enroll_follows(before, after, st, index, session, chunk, seq, is_speech),
        session.total() + ((chunk.len() as u32) as nat) >= TARGET_DURATION_SAMPLES,
        session.speech() + (if is_speech { (chunk.len() as u32) as nat } else { 0 }) < crate::enrollment::recorder::MIN_SPEECH_SAMPLES,
    ensures
        after.enrollment_buffers == before.enrollment_buffers,
        after.mode is Idle,
        st.profile_input is None,
        st.notices == seq![Notice::<T, E, S>::RecordingInvalid { index }],
{
}

/// Law: a recording still under 20 s changes nothing of the recordings
/// already completed and hands nothing to the profile computation.
pub proof fn lemma_recording_in_progress_keeps_completed<T: Copy, E, S>(
    before: InferenceState<T, E, S>,
    after: InferenceState<T, E, S>,
    st: StepView<T, E, S>,
    index: u8,
    session: EnrollmentSession<T>,
    chunk: Seq<T>,
    seq: u64,
    is_speech: bool,
)
    requires
        enroll_follows(before, after, st, index, session, chunk, seq, is_speech),
        session.total() + ((chunk.len() as u32) as nat) < TARGET_DURATION_SAMPLES,
    ensures
        after.enrollment_buffers == before.enrollment_buffers,
        after.mode is Enrolling,
        st.profile_input is None,
        forall|i: int| 0 <= i < st.notices.len() ==> #[trigger] st.notices[i] is RecordingProgress,
{
}

/// Law: a running test capture goes on recording until 10 s of audio are in
/// it: while fewer than 160000 samples have been taken, the capture continues,
/// holding every sample so far (gated as the filter decided), and it is not
/// handed over.
pub proof fn lemma_capture_runs_to_ten_seconds<T, E, S>(
    tc: TestCapture<T>,
    after: Option<TestCapture<T>>,
    notices: Seq<Notice<T, E, S>>,
    chunk: Seq<T>,
    seq: u64,
    pass: bool,
    silence: T,
)
    requires
        capture_follows(Some(tc), after, notices, chunk, seq, pass, silence),
        tc.elapsed_samples + chunk.len() < 16000 * 10,
    ensures
        after matches Some(t) && t.buffer@ == tc.buffer@ + gated(chunk, pass, silence)
            && t.elapsed_samples == tc.elapsed_samples + chunk.len(),
        forall|i: int| 0 <= i < notices.len() ==> !(#[trigger] notices[i] is TestCaptureComplete),
{
}

/// Law: once 10 s of audio are in a running test capture it ends by itself,
/// handing over everything it recorded, the last chunk included.
pub proof fn lemma_capture_stops_at_ten_seconds<T, E, S>(
    tc: TestCapture<T>,
    after: Option<TestCapture<T>>,
    notices: Seq<Notice<T, E, S>>,
    chunk: Seq<T>,
    seq: u64,
    pass: bool,
    silence: T,
)
    requires
        capture_follows(Some(tc), after, notices, chunk, seq, pass, silence),
        tc.elapsed_samples + chunk.len() >= 16000 * 10,
    ensures
        after is None,
        notices.len() > 0,
        notices.last() == (Notice::<T, E, S>::TestCaptureComplete { samples: tc.buffer@ + gated(chunk, pass, silence) }),
{
}

} // verus!
