use voce::app_state::AppState;
use voce::audio::buffer::AudioChunk;
use voce::events::InferenceCmd;
use voce::inference::{
    process_window, profile_step, ChunkProgress, FrameResult, InferenceEvent, InferenceState, Mode, ProfileOutcome, Step,
    WindowError, WindowMeasure,
};
use voce::filter::gate::SlidingVoteGate;

type Task = InferenceState<f32, u32, f32>;

fn chunk(seq: u64, value: f32, len: usize) -> AudioChunk<f32> {
    AudioChunk { samples: vec![value; len], seq }
}

fn done(p: ChunkProgress<f32, u32, f32>) -> Step<f32, u32, f32> {
    match p {
        ChunkProgress::Done(s) => s,
        ChunkProgress::Window(_) => panic!("unexpected window"),
    }
}

fn states(step: &Step<f32, u32, f32>) -> Vec<AppState> {
    step.events
        .iter()
        .filter_map(|e| match e {
            InferenceEvent::StateChanged(s) => Some(*s),
            _ => None,
        })
        .collect()
}

#[test]
fn enrollment_of_two_recordings_computes_profile() {
    let mut task: Task = InferenceState::new();
    let step = task.apply_command(InferenceCmd::StartEnrollment { index: 1 }, 0.75, 3);
    assert_eq!(states(&step), vec![AppState::Recording { index: 1 }]);
    // 20 s at 16000 Hz in 16000-sample chunks, all speech.
    for i in 0..19u64 {
        let step = done(task.begin_chunk(&chunk(11 * i + 1, 0.1, 16000), false, true, 0.0));
        assert!(step.events.is_empty());
    }
    let step = done(task.begin_chunk(&chunk(20, 0.1, 16000), false, true, 0.0));
    assert!(matches!(step.events[0], InferenceEvent::RecordingComplete { index: 1, speech_s: 20 }));
    assert!(step.profile_input.is_none());
    assert!(matches!(task.mode, Mode::Idle));
    assert_eq!(task.enrollment_buffers.len(), 1);

    // Second recording: index 2; anything other than 1 is reported as 2.
    let step = task.apply_command(InferenceCmd::StartEnrollment { index: 2 }, 0.75, 3);
    assert_eq!(states(&step), vec![AppState::Recording { index: 2 }]);
    for i in 0..20u64 {
        let step = done(task.begin_chunk(&chunk(11 * i + 1, 0.2, 16000), false, true, 0.0));
        if i == 19 {
            assert!(matches!(step.events[0], InferenceEvent::RecordingComplete { index: 2, speech_s: 20 }));
            assert_eq!(states(&step), vec![AppState::Adapting]);
            let input = step.profile_input.expect("profile must be computed");
            assert_eq!(input.len(), 2);
            assert_eq!(input[0].len(), 16000 * 20);
            assert_eq!(input[0][0], 0.1);
            assert_eq!(input[1][0], 0.2);
        }
    }
    assert!(matches!(task.mode, Mode::ComputingProfile));
    assert!(task.enrollment_buffers.is_empty());
    // Audio is discarded while the profile is computed.
    let step = done(task.begin_chunk(&chunk(5, 0.3, 512), false, true, 0.0));
    assert!(step.events.is_empty() && step.gate.is_none());
}

#[test]
fn enrollment_progress_every_eleventh_chunk() {
    let mut task: Task = InferenceState::new();
    task.apply_command(InferenceCmd::StartEnrollment { index: 1 }, 0.75, 3);
    let step = done(task.begin_chunk(&chunk(11, 0.1, 16000 * 2), false, false, 0.0));
    match step.events[0] {
        InferenceEvent::RecordingProgress { index, elapsed_s, speech_s } => {
            assert_eq!((index, elapsed_s, speech_s), (1, 2, 2));
        }
        _ => panic!("progress expected"),
    }
    let step = done(task.begin_chunk(&chunk(12, 0.1, 16000), true, false, 0.0));
    assert!(step.events.is_empty());
}

#[test]
fn silent_enrollment_is_invalid() {
    let mut task: Task = InferenceState::new();
    task.apply_command(InferenceCmd::StartEnrollment { index: 2 }, 0.75, 3);
    let step = done(task.begin_chunk(&chunk(1, 0.0, 16000 * 20), true, false, 0.0));
    assert!(matches!(step.events[0], InferenceEvent::RecordingInvalid { index: 2 }));
    assert!(matches!(task.mode, Mode::Idle));
    assert!(task.enrollment_buffers.is_empty());
}

#[test]
fn filter_windows_drive_gate_and_stats() {
    let mut task: Task = InferenceState::new();
    let step = task.apply_command(InferenceCmd::StartFilter { enrolled: 9 }, 0.75, 3);
    assert_eq!(step.gate, Some(true));
    assert_eq!(states(&step), vec![AppState::Filtering]);

    // Silent chunks pass and leave the accumulator alone.
    let step = done(task.begin_chunk(&chunk(1, 0.0, 512), true, false, 0.0));
    assert_eq!(step.gate, Some(true));

    // Non-silent chunks keep the current gate until a window is full.
    let mut windows = 0;
    let mut scored = 0;
    for i in 0..2000u64 {
        let c = chunk(i, 0.5, 512);
        match task.begin_chunk(&c, false, false, 0.0) {
            ChunkProgress::Done(step) => assert!(step.gate.is_none()),
            ChunkProgress::Window(w) => {
                assert_eq!(w.len(), 48000);
                windows += 1;
                let step = task.finish_window(&c, WindowMeasure::Scored(0.1), 0.0);
                scored += 1;
                // Three failing votes close the speaker gate.
                assert_eq!(step.gate, Some(scored < 3));
                let stats = step.events.iter().filter(|e| matches!(e, InferenceEvent::FilterStats { .. })).count();
                assert_eq!(stats, if scored % 22 == 0 { 1 } else { 0 });
            }
        }
    }
    assert!(windows >= 22);
    assert_eq!(task.stats_counter, (scored % 22) as u32);
}

#[test]
fn failed_or_nonspeech_windows_fail_open() {
    let mut task: Task = InferenceState::new();
    task.apply_command(InferenceCmd::StartFilter { enrolled: 1 }, 0.75, 3);
    let c = chunk(0, 0.5, 512);
    let step = task.finish_window(&c, WindowMeasure::EmbeddingFailed, 0.0);
    assert_eq!(step.gate, Some(true));
    let step = task.finish_window(&c, WindowMeasure::NonSpeech, 0.0);
    assert_eq!(step.gate, Some(true));
    assert_eq!(task.stats_counter, 0);
    let step = task.finish_window(&c, WindowMeasure::Silent, 0.0);
    assert_eq!(step.gate, Some(true));
}

#[test]
fn test_capture_records_gated_audio_and_stops_after_ten_seconds() {
    let mut task: Task = InferenceState::new();
    // Not filtering: ignored.
    let step = task.apply_command(InferenceCmd::StartTest, 0.75, 3);
    assert!(step.events.is_empty());
    task.apply_command(InferenceCmd::StartFilter { enrolled: 1 }, 0.75, 3);
    let step = task.apply_command(InferenceCmd::StartTest, 0.75, 3);
    assert_eq!(states(&step), vec![AppState::Testing]);
    // A passed chunk, then a muted one.
    let step = done(task.begin_chunk(&chunk(1, 0.5, 4), true, false, 0.0));
    assert!(step.events.is_empty());
    let step = done(task.begin_chunk(&chunk(22, 0.5, 4), false, false, -1.0));
    match &step.events[0] {
        InferenceEvent::TestProgress { elapsed_s } => assert_eq!(*elapsed_s, 0),
        _ => panic!("progress expected on chunk 22"),
    }
    let step = task.apply_command(InferenceCmd::StopTest, 0.75, 3);
    match &step.events[0] {
        InferenceEvent::TestCaptureComplete { samples } => {
            assert_eq!(samples, &vec![0.5, 0.5, 0.5, 0.5, -1.0, -1.0, -1.0, -1.0]);
        }
        _ => panic!("capture expected"),
    }
    // Auto stop at the 10-second cap.
    task.apply_command(InferenceCmd::StartTest, 0.75, 3);
    let step = done(task.begin_chunk(&chunk(3, 0.25, 160000), true, false, 0.0));
    match &step.events[0] {
        InferenceEvent::TestCaptureComplete { samples } => assert_eq!(samples.len(), 160000),
        _ => panic!("capture expected at the cap"),
    }
    let step = task.apply_command(InferenceCmd::StopTest, 0.75, 3);
    assert!(step.events.is_empty());
}

#[test]
fn stop_filter_fails_open() {
    let mut task: Task = InferenceState::new();
    task.apply_command(InferenceCmd::StartFilter { enrolled: 1 }, 0.75, 3);
    let step = task.apply_command(InferenceCmd::StopFilter, 0.75, 3);
    assert_eq!(step.gate, Some(true));
    assert_eq!(states(&step), vec![AppState::ActiveStandby]);
    assert!(matches!(task.mode, Mode::Idle));
}

#[test]
fn process_window_outcomes() {
    let mut gate: SlidingVoteGate<f32> = SlidingVoteGate::new(0.8, 1);
    assert!(matches!(process_window(WindowMeasure::Silent, &mut gate), Ok(None)));
    match process_window(WindowMeasure::NonSpeech, &mut gate) {
        Ok(Some(FrameResult { similarity, passed, is_nonspeech })) => {
            assert_eq!(similarity, 0.0);
            assert!(passed && is_nonspeech);
        }
        _ => panic!("non-speech result expected"),
    }
    match process_window(WindowMeasure::Scored(0.5), &mut gate) {
        Ok(Some(r)) => assert!(!r.passed && !r.is_nonspeech && r.similarity == 0.5),
        _ => panic!("scored result expected"),
    }
    assert!(matches!(process_window(WindowMeasure::EmbeddingFailed, &mut gate), Err(WindowError)));
}

#[test]
fn profile_outcomes() {
    let s: Step<f32, u32, f32> = profile_step(ProfileOutcome::Saved { enrolled: Some(4) });
    assert_eq!(s.gate, Some(true));
    assert_eq!(states(&s), vec![AppState::TestReady]);
    assert!(matches!(s.events[1], InferenceEvent::EnrolledProfileReady(4)));
    let s: Step<f32, u32, f32> = profile_step(ProfileOutcome::Saved { enrolled: None });
    assert_eq!(s.events.len(), 1);
    assert!(s.gate.is_none());
    let s: Step<f32, u32, f32> = profile_step(ProfileOutcome::SaveFailed);
    assert!(s.events.is_empty());
    let s: Step<f32, u32, f32> = profile_step(ProfileOutcome::ComputeFailed);
    assert!(matches!(s.events[0], InferenceEvent::RecordingInvalid { index: 255 }));
}

#[test]
fn configured_vote_window_sets_frames_before_muting() {
    let mut task: Task = InferenceState::new();
    task.apply_command(InferenceCmd::StartFilter { enrolled: 1 }, 0.75, 5);
    match &task.mode {
        Mode::Filtering { gate, .. } => assert_eq!(gate.threshold, 0.75),
        _ => panic!("filtering expected"),
    }
    let mut scored = 0;
    for i in 0..2000u64 {
        let c = chunk(i, 0.5, 512);
        if let ChunkProgress::Window(_) = task.begin_chunk(&c, false, false, 0.0) {
            let step = task.finish_window(&c, WindowMeasure::Scored(0.1), 0.0);
            scored += 1;
            // Five failing votes are needed to close the speaker gate.
            assert_eq!(step.gate, Some(scored < 5));
            if scored == 6 {
                break;
            }
        }
    }
    assert_eq!(scored, 6);
}
