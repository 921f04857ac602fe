use std::collections::VecDeque;
use voce::audio::frames::{padded_chunks, rate_conversion, RateConversion, supports_target_rate, ChunkSplitter, FrameSplitter};
use voce::audio::gating::gated_copy;
use voce::audio::output::{drain_gated, enqueue_samples, find_device, name_has_role, DeviceRole};

#[test]
fn device_roles_by_name() {
    assert!(name_has_role("BlackHole 2ch", DeviceRole::BlackHole));
    assert!(!name_has_role("MacBook Pro Speakers", DeviceRole::BlackHole));
    assert!(name_has_role("MacBook Pro Speakers", DeviceRole::RealOutput));
    assert!(!name_has_role("Voce Microphone", DeviceRole::RealOutput));
    assert!(!name_has_role("Loopback Audio", DeviceRole::RealOutput));
    assert!(name_has_role("Loopback Audio", DeviceRole::Playback));
    assert!(!name_has_role("BLACKHOLE 16ch", DeviceRole::Playback));
}

#[test]
fn first_matching_device_wins() {
    let names = vec![
        None,
        Some("BlackHole 2ch".to_string()),
        Some("External Headphones".to_string()),
        Some("MacBook Pro Speakers".to_string()),
    ];
    assert_eq!(find_device(&names, DeviceRole::BlackHole), Some(1));
    assert_eq!(find_device(&names, DeviceRole::RealOutput), Some(2));
    let none = vec![None, Some("Voce Microphone".to_string())];
    assert_eq!(find_device(&none, DeviceRole::Playback), None);
}

#[test]
fn playout_follows_gate_and_consumes_queue() {
    let mut q: VecDeque<f32> = VecDeque::new();
    enqueue_samples(&mut q, &[0.1, 0.2, 0.3]);
    assert_eq!(drain_gated(&mut q, 2, true, 0.0), vec![0.1, 0.2]);
    assert_eq!(drain_gated(&mut q, 3, true, 0.0), vec![0.3, 0.0, 0.0]);
    enqueue_samples(&mut q, &[0.4, 0.5]);
    assert_eq!(drain_gated(&mut q, 1, false, 0.0), vec![0.0]);
    assert_eq!(q.len(), 1);
}

#[test]
fn gated_copy_mutes() {
    assert_eq!(gated_copy(&[1, 2, 3], true, 0), vec![1, 2, 3]);
    assert_eq!(gated_copy(&[1, 2, 3], false, 0), vec![0, 0, 0]);
}

#[test]
fn frame_splitter_keeps_remainder() {
    let mut s = FrameSplitter::new(160);
    let input: Vec<u32> = (0..400).collect();
    let frames = s.push(&input);
    assert_eq!(frames.len(), 2);
    assert_eq!(frames[1][0], 160);
    let frames = s.push(&(400..480).collect::<Vec<u32>>());
    assert_eq!(frames.len(), 1);
    assert_eq!(frames[0][0], 320);
    assert_eq!(frames[0][159], 479);
}

#[test]
fn chunk_splitter_numbers_chunks() {
    let mut s = ChunkSplitter::new();
    assert!(s.push(&[0.0f32; 500]).is_empty());
    let chunks = s.push(&[1.0f32; 1100]);
    assert_eq!(chunks.len(), 3);
    assert_eq!(chunks.iter().map(|c| c.seq).collect::<Vec<u64>>(), vec![0, 1, 2]);
    assert_eq!(chunks[0].samples[499], 0.0);
    assert_eq!(chunks[0].samples[500], 1.0);
    assert!(chunks.iter().all(|c| c.samples.len() == 512));
    let more = s.push(&[2.0f32; 512]);
    assert_eq!(more[0].seq, 3);
}

#[test]
fn decimation_and_rates() {
    assert_eq!(rate_conversion(48000), RateConversion::Decimate { factor: 3 });
    assert_eq!(rate_conversion(32000), RateConversion::Decimate { factor: 2 });
    assert_eq!(rate_conversion(16000), RateConversion::Native);
    assert_eq!(rate_conversion(44100), RateConversion::Resample { from: 44100 });
    assert_eq!(rate_conversion(8000), RateConversion::Resample { from: 8000 });
    assert_eq!(rate_conversion(48001), RateConversion::Resample { from: 48001 });
    assert!(supports_target_rate(&vec![(8000, 48000)]));
    assert!(!supports_target_rate(&vec![(44100, 48000), (96000, 96000)]));
    assert!(supports_target_rate(&vec![(44100, 48000), (16000, 16000)]));
    assert!(!supports_target_rate(&vec![]));
}

#[test]
fn vad_chunks_pad_the_last() {
    let w: Vec<f32> = vec![1.0; 1100];
    let chunks = padded_chunks(&w, 512, 0.0);
    assert_eq!(chunks.len(), 3);
    assert!(chunks.iter().all(|c| c.len() == 512));
    assert_eq!(chunks[2][75], 1.0);
    assert_eq!(chunks[2][76], 0.0);
    assert!(padded_chunks(&Vec::<f32>::new(), 512, 0.0).is_empty());
    assert_eq!(padded_chunks(&vec![1.0f32; 1024], 512, 0.0).len(), 2);
}
