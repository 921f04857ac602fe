use voce::audio::buffer::EmbeddingWindowAccumulator;

const WINDOW: usize = 48000;
const HOP: usize = 24000;
const CHUNK: usize = 512;

#[test]
fn no_window_before_first_hop_fills() {
    let mut acc = EmbeddingWindowAccumulator::new();
    // Push just under one hop worth of data
    let chunk = vec![0.0f32; CHUNK];
    let mut emitted = 0usize;
    let mut total = 0usize;
    while total + CHUNK <= HOP - CHUNK {
        if acc.push_chunk(&chunk).is_some() {
            emitted += 1;
        }
        total += CHUNK;
    }
    assert_eq!(emitted, 0, "no window should emit before first hop fills");
}

#[test]
fn emits_window_after_one_hop_with_enough_data() {
    let mut acc = EmbeddingWindowAccumulator::new();
    let chunk = vec![0.5f32; CHUNK];
    let mut window = None;
    // Push enough for a full window (WINDOW samples) in CHUNK-sized pieces
    let chunks_needed = WINDOW / CHUNK + 1;
    for _ in 0..chunks_needed {
        if let Some(w) = acc.push_chunk(&chunk) {
            window = Some(w);
            break;
        }
    }
    let w = window.expect("should emit a window once WINDOW samples are available");
    assert_eq!(w.len(), WINDOW);
}

#[test]
fn emits_second_window_after_one_hop() {
    let mut acc = EmbeddingWindowAccumulator::new();
    let chunk = vec![0.1f32; CHUNK];
    let mut windows = 0usize;
    // Push 2 * WINDOW samples → expect at least 2 windows
    let chunks_needed = (2 * WINDOW) / CHUNK + 2;
    for _ in 0..chunks_needed {
        if acc.push_chunk(&chunk).is_some() {
            windows += 1;
        }
    }
    assert!(windows >= 2, "expected at least 2 windows, got {windows}");
}

#[test]
fn window_is_latest_samples_of_stream() {
    // Number the samples so the window's content can be checked.
    let mut acc = EmbeddingWindowAccumulator::new();
    let mut next = 0u32;
    let mut windows: Vec<(u32, Vec<u32>)> = Vec::new();
    for _ in 0..300 {
        let chunk: Vec<u32> = (next..next + CHUNK as u32).collect();
        next += CHUNK as u32;
        if let Some(w) = acc.push_chunk(&chunk) {
            windows.push((next, w));
        }
    }
    assert!(windows.len() >= 2);
    for (end, w) in &windows {
        assert_eq!(w.len(), WINDOW);
        assert_eq!(*w.last().unwrap(), end - 1);
        assert_eq!(w[0], end - WINDOW as u32);
    }
    // First window once 48000 samples arrived (94 chunks = 48128 samples).
    assert_eq!(windows[0].0, 94 * CHUNK as u32);
    // Later windows come after at least one hop of new samples.
    for pair in windows.windows(2) {
        assert!(pair[1].0 - pair[0].0 >= HOP as u32);
    }
}

#[test]
fn reset_forgets_history() {
    let mut acc = EmbeddingWindowAccumulator::new();
    let chunk = vec![1u8; 30000];
    assert!(acc.push_chunk(&chunk).is_none());
    acc.reset();
    assert!(acc.push_chunk(&chunk).is_none());
    assert!(acc.push_chunk(&chunk).is_some());
}

#[test]
fn custom_sizes_are_honoured() {
    let mut acc = EmbeddingWindowAccumulator::new();
    acc.window_size = 4;
    acc.hop_size = 2;
    assert!(acc.push_chunk(&[1, 2, 3]).is_none());
    assert_eq!(acc.push_chunk(&[4]), Some(vec![1, 2, 3, 4]));
    assert_eq!(acc.push_chunk(&[5]), None);
    assert_eq!(acc.push_chunk(&[6]), Some(vec![3, 4, 5, 6]));
}
