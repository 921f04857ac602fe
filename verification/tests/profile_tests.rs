use voce::enrollment::profile::{
    flatten_embeddings, profile_support, recording_cross_similarity, window_starts, ProfileSupport, VoiceProfile, HOP,
    WINDOW,
};

// Similarity of two recordings as the application measures it: cosine of
// their L2-normalised mean embeddings.
fn mean(embs: &Vec<[f32; 256]>) -> [f32; 256] {
    let n = embs.len() as f32;
    let mut m = [0f32; 256];
    for e in embs {
        for (i, v) in e.iter().enumerate() {
            m[i] += v / n;
        }
    }
    m
}

fn normalised(mut v: [f32; 256]) -> [f32; 256] {
    let norm = v.iter().map(|x| x * x).sum::<f32>().sqrt().max(1e-8);
    for x in &mut v {
        *x /= norm;
    }
    v
}

fn mean_cosine(a: &Vec<[f32; 256]>, b: &Vec<[f32; 256]>) -> f32 {
    let a = normalised(mean(a));
    let b = normalised(mean(b));
    a.iter().zip(b.iter()).map(|(x, y)| x * y).sum()
}

#[test]
fn as_array_correct_dim() {
    let profile = VoiceProfile { version: 1, dim: 256, embedding: vec![0.0f32; 256] };
    assert!(profile.as_array().is_some());
}

#[test]
fn as_array_wrong_dim() {
    let profile = VoiceProfile { version: 1, dim: 128, embedding: vec![0.0f32; 128] };
    assert!(profile.as_array().is_none());
}

#[test]
fn as_array_keeps_values() {
    let embedding: Vec<f32> = (0..256).map(|i| i as f32).collect();
    let profile = VoiceProfile { version: 1, dim: 256, embedding: embedding.clone() };
    assert_eq!(profile.as_array().unwrap().to_vec(), embedding);
}

#[test]
fn cross_similarity_identical_recordings() {
    let emb = [0.5f32; 256];
    let per_rec = vec![vec![emb], vec![emb]];
    let sim = recording_cross_similarity(&per_rec, mean_cosine).unwrap();
    assert!((sim - 1.0).abs() < 1e-5, "identical embeddings → sim ≈ 1.0, got {sim}");
}

#[test]
fn cross_similarity_orthogonal_recordings() {
    let mut a = [0.0f32; 256];
    let mut b = [0.0f32; 256];
    a[0] = 1.0;
    b[1] = 1.0;
    let per_rec = vec![vec![a], vec![b]];
    let sim = recording_cross_similarity(&per_rec, mean_cosine).unwrap();
    assert!(sim.abs() < 1e-5, "orthogonal embeddings → sim ≈ 0.0, got {sim}");
}

#[test]
fn cross_similarity_none_for_single_recording() {
    let per_rec = vec![vec![[0.5f32; 256]]];
    assert!(recording_cross_similarity(&per_rec, mean_cosine).is_none());
}

#[test]
fn cross_similarity_none_for_empty_recording() {
    let per_rec: Vec<Vec<[f32; 256]>> = vec![vec![[0.5f32; 256]], vec![]];
    assert!(recording_cross_similarity(&per_rec, mean_cosine).is_none());
}

#[test]
fn cross_similarity_passes_recordings_in_order() {
    let per_rec = vec![vec![1u8, 2], vec![3u8]];
    let r = recording_cross_similarity(&per_rec, |a: &Vec<u8>, b: &Vec<u8>| (a.len(), b[0]));
    assert_eq!(r, Some((2, 3)));
    let three = vec![vec![1u8], vec![2u8], vec![3u8]];
    assert_eq!(recording_cross_similarity(&three, |a: &Vec<u8>, _b: &Vec<u8>| a[0]), None);
}

#[test]
fn window_starts_cover_whole_windows() {
    assert!(window_starts(WINDOW - 1).is_empty());
    assert_eq!(window_starts(WINDOW), vec![0]);
    assert_eq!(window_starts(WINDOW + HOP - 1), vec![0]);
    assert_eq!(window_starts(WINDOW + HOP), vec![0, HOP]);
    // A 20 s recording at 16 kHz gives 20 one-second windows.
    let starts = window_starts(16000 * 20);
    assert_eq!(starts.len(), 20);
    assert_eq!(starts, (0..20).map(|k| k * 16000).collect::<Vec<usize>>());
}

#[test]
fn flatten_keeps_recording_order() {
    let per_rec = vec![vec![1, 2], vec![], vec![3]];
    assert_eq!(flatten_embeddings(&per_rec), vec![1, 2, 3]);
    let none: Vec<Vec<u8>> = Vec::new();
    assert!(flatten_embeddings(&none).is_empty());
}

#[test]
fn profile_support_counts_windows_of_all_recordings() {
    let none: Vec<Vec<u8>> = vec![vec![], vec![]];
    assert_eq!(profile_support(&none), ProfileSupport::NoWindows);
    assert_eq!(profile_support(&Vec::<Vec<u8>>::new()), ProfileSupport::NoWindows);
    assert_eq!(profile_support(&vec![vec![1u8], vec![2, 3]]), ProfileSupport::FewWindows);
    assert_eq!(profile_support(&vec![vec![1u8, 2], vec![3, 4]]), ProfileSupport::Enough);
    assert_eq!(profile_support(&vec![vec![], vec![1u8; 40]]), ProfileSupport::Enough);
}
