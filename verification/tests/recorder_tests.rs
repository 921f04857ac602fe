use voce::enrollment::recorder::{EnrollmentSession, EnrollmentStatus, TARGET_DURATION_SAMPLES};

const CHUNK: usize = 512;

fn push_n_chunks(session: &mut EnrollmentSession<f32>, n: usize, is_speech: bool) -> EnrollmentStatus {
    let chunk = vec![0.0f32; CHUNK];
    let mut last = EnrollmentStatus::InProgress { elapsed_s: 0, speech_s: 0 };
    for _ in 0..n {
        last = session.push_chunk(&chunk, is_speech);
    }
    last
}

#[test]
fn complete_with_sufficient_speech() {
    let mut s = EnrollmentSession::new();
    // Push TARGET_DURATION_SAMPLES samples all as speech
    let total_chunks = (TARGET_DURATION_SAMPLES as usize + CHUNK - 1) / CHUNK;
    let status = push_n_chunks(&mut s, total_chunks, true);
    assert!(matches!(status, EnrollmentStatus::Complete { .. }));
}

#[test]
fn invalid_with_insufficient_speech() {
    let mut s = EnrollmentSession::new();
    // Fill total duration but mark nothing as speech
    let total_chunks = (TARGET_DURATION_SAMPLES as usize + CHUNK - 1) / CHUNK;
    let status = push_n_chunks(&mut s, total_chunks, false);
    assert!(matches!(status, EnrollmentStatus::Invalid { reason: "insufficient_speech" }));
}

#[test]
fn in_progress_before_target_duration() {
    let mut s = EnrollmentSession::new();
    // Push half the target
    let half_chunks = (TARGET_DURATION_SAMPLES as usize / CHUNK) / 2;
    let status = push_n_chunks(&mut s, half_chunks, true);
    assert!(matches!(status, EnrollmentStatus::InProgress { .. }));
}

#[test]
fn take_buffer_length() {
    let mut s = EnrollmentSession::new();
    let n = 10;
    let chunk = vec![1.0f32; CHUNK];
    for _ in 0..n {
        s.push_chunk(&chunk, false);
    }
    assert_eq!(s.take_buffer().len(), n * CHUNK);
}

#[test]
fn progress_reports_whole_seconds() {
    let mut s = EnrollmentSession::new();
    let speech = vec![0.0f32; 16000 * 3];
    let quiet = vec![0.0f32; 16000 * 2 + 100];
    s.push_chunk(&speech, true);
    match s.push_chunk(&quiet, false) {
        EnrollmentStatus::InProgress { elapsed_s, speech_s } => {
            assert_eq!(elapsed_s, 5);
            assert_eq!(speech_s, 3);
        }
        other => panic!("unexpected status {other:?}"),
    }
}

#[test]
fn exactly_minimum_speech_completes() {
    let mut s = EnrollmentSession::new();
    let speech = vec![0i16; 16000 * 10];
    let quiet = vec![0i16; 16000 * 10];
    s.push_chunk(&speech, true);
    match s.push_chunk(&quiet, false) {
        EnrollmentStatus::Complete { speech_s } => assert_eq!(speech_s, 10),
        other => panic!("unexpected status {other:?}"),
    }
}

#[test]
fn just_under_minimum_speech_is_invalid() {
    let mut s = EnrollmentSession::new();
    let speech = vec![0i16; 16000 * 10 - 1];
    let quiet = vec![0i16; 16000 * 10 + 1];
    s.push_chunk(&speech, true);
    assert!(matches!(s.push_chunk(&quiet, false), EnrollmentStatus::Invalid { .. }));
}

#[test]
fn buffer_keeps_samples_in_order() {
    let mut s = EnrollmentSession::new();
    s.push_chunk(&[1u8, 2], true);
    s.push_chunk(&[3u8], false);
    assert_eq!(s.take_buffer(), vec![1, 2, 3]);
}

#[test]
fn twenty_seconds_of_speech_at_16_khz_completes() {
    let mut s = EnrollmentSession::new();
    match s.push_chunk(&vec![0.0f32; 320000], true) {
        EnrollmentStatus::Complete { speech_s } => assert_eq!(speech_s, 20),
        other => panic!("unexpected status {other:?}"),
    }
}
