use voce::config::{config_path, data_path_in, default_true, enrolled_embedding_path, models_dir, voce_dir, voce_dir_in};
use voce::driver::{lists_voce_microphone, ring_next, ring_slot, RING_CAP};
use voce::eval::{chunk_passes, gate_after_window, padding_to_multiple, wav_encoding, WavEncoding};
use voce::inference::FrameResult;
use voce::model::download::{is_present, retry_delay_secs, ModelUrls};
use voce::text::{str_contains, str_eq};

#[test]
fn data_paths_live_under_voce_dir() {
    assert!(default_true());
    if let Some(dir) = voce_dir() {
        assert!(dir.ends_with(b"/.voce"));
        let under = |name: &[u8]| {
            let mut p = dir.clone();
            p.push(b'/');
            p.extend_from_slice(name);
            p
        };
        assert_eq!(models_dir().unwrap(), under(b"models"));
        assert_eq!(enrolled_embedding_path().unwrap(), under(b"enrolled_embedding.json"));
        assert_eq!(config_path().unwrap(), under(b"config.json"));
    }
}

#[test]
fn ring_positions_wrap() {
    assert_eq!(RING_CAP, 88200);
    assert_eq!(ring_slot(5), 5);
    assert_eq!(ring_slot(88200), 0);
    assert_eq!(ring_next(88199), 0);
    assert_eq!(ring_next(41), 42);
    assert_eq!(ring_next(u32::MAX), ((u32::MAX as u64 + 1) % 88200) as u32);
}

#[test]
fn voce_device_in_report() {
    assert!(lists_voce_microphone("Devices:\n    Voce Microphone:\n"));
    assert!(!lists_voce_microphone("voce microphone"));
}

#[test]
fn wav_formats() {
    assert_eq!(wav_encoding(false, 16), Some(WavEncoding::Int16));
    assert_eq!(wav_encoding(false, 32), Some(WavEncoding::Int32));
    assert_eq!(wav_encoding(true, 32), Some(WavEncoding::Float32));
    assert_eq!(wav_encoding(false, 24), None);
    assert_eq!(wav_encoding(true, 64), None);
}

#[test]
fn padding_and_gate_tracking() {
    assert_eq!(padding_to_multiple(4096, 4096), 0);
    assert_eq!(padding_to_multiple(5000, 4096), 3192);
    assert_eq!(padding_to_multiple(0, 4096), 0);
    let scored = FrameResult { similarity: 0.2f32, passed: false, is_nonspeech: false };
    assert!(!gate_after_window(true, &Some(scored)));
    assert!(gate_after_window(true, &None::<FrameResult<f32>>));
    assert!(!gate_after_window(false, &None::<FrameResult<f32>>));
    assert!(chunk_passes(false, true));
    assert!(!chunk_passes(true, true));
    assert!(!chunk_passes(false, false));
}

#[test]
fn model_download_policy() {
    let urls = ModelUrls::standard();
    assert!(urls.vad.ends_with("voice_activity_detector.onnx"));
    assert!(urls.embedder.contains("voxblink2_samresnet34_ft.onnx"));
    assert!(!is_present(0));
    assert!(is_present(1));
    assert_eq!(retry_delay_secs(1), Some(2));
    assert_eq!(retry_delay_secs(2), Some(4));
    assert_eq!(retry_delay_secs(3), None);
}

#[test]
fn text_matching() {
    assert!(str_contains("hello world", "o w"));
    assert!(str_contains("abc", ""));
    assert!(!str_contains("ab", "abc"));
    assert!(str_contains("ñandú", "dú"));
    assert!(str_eq("quit", "quit"));
    assert!(!str_eq("quit", "quits"));
}

#[test]
fn data_paths_under_a_given_home() {
    assert_eq!(voce_dir_in(b"/Users/ann".to_vec()), b"/Users/ann/.voce".to_vec());
    assert_eq!(voce_dir_in(b"/Users/ann/".to_vec()), b"/Users/ann/.voce".to_vec());
    assert_eq!(voce_dir_in(Vec::new()), b".voce".to_vec());
    assert_eq!(data_path_in(b"/Users/ann".to_vec(), "models"), b"/Users/ann/.voce/models".to_vec());
    assert_eq!(data_path_in(b"/".to_vec(), "config.json"), b"/.voce/config.json".to_vec());
}
