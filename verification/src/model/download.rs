//! Which model files the application needs and how it fetches them.

use vstd::prelude::*;

verus! {

/// Where each model is downloaded from.
pub struct ModelUrls {
    pub vad: &'static str,
    pub embedder: &'static str,
}

impl ModelUrls {
    /// The download locations of the voice activity detector and of the
    /// WeSpeaker VoxBlink2 + VoxCeleb2 FT SimAMResNet34 (256-dim embeddings).
    pub fn standard() -> (r: ModelUrls)
        ensures
            r.vad@ == "https://github.com/mzdk100/voxudio/releases/download/model/voice_activity_detector.onnx"@,
            r.embedder@ == "https://wenet.org.cn/downloads?models=wespeaker&version=voxblink2_samresnet34_ft.onnx"@,
    {
        ModelUrls {
            vad: "https://github.com/mzdk100/voxudio/releases/download/model/voice_activity_detector.onnx",
            embedder: "https://wenet.org.cn/downloads?models=wespeaker&version=voxblink2_samresnet34_ft.onnx",
        }
    }
}

/// File name of the voice activity detector model.
pub const VAD_MODEL_FILE: &'static str = "voice_activity_detector.onnx";
/// File name of the speaker embedding model: it is downloaded to and loaded
/// from this file.
pub const EMBEDDER_MODEL_FILE: &'static str = "speaker_embedding_extractor.onnx";
/// Download attempts per file.
pub const MAX_RETRIES: u32 = 3;

/// A model file on disk counts as present when it is not empty.
pub fn is_present(size: u64) -> (r: bool)
    ensures
        r == (size > 0),
{
    size > 0
}

/// After failed attempt number `attempt` (counting from 1), how many seconds
/// to wait before the next one; `None` when no attempt is left.
pub fn retry_delay_secs(attempt: u32) -> (r: Option<u64>)
    ensures
        attempt < MAX_RETRIES ==> r == Some((attempt * 2) as u64),
        attempt >= MAX_RETRIES ==> r is None,
{
    if attempt < MAX_RETRIES {
        Some(attempt as u64 * 2)
    } else {
        None
    }
}

} // verus!
