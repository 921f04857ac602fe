//! Decisions of the offline evaluation modes.

use vstd::prelude::*;
use crate::inference::FrameResult;

verus! {

/// Samples per chunk fed through the pipeline.
pub const CHUNK_SIZE: usize = 512;
/// 1.5 s hop — matches the embedding window accumulator.
pub const HOP: usize = 24000;
/// Samples per block handed to the resampler.
pub const RESAMPLE_CHUNK: usize = 4096;

/// The sample encodings a WAV file may use.
#[derive(Debug, Clone, Copy, PartialEq, Eq, Structural)]
pub enum WavEncoding {
    /// 16-bit PCM integers (LibriSpeech native).
    Int16,
    /// 32-bit PCM integers.
    Int32,
    /// 32-bit floats.
    Float32,
}

/// The encoding of a WAV file with float or integer samples of `bits` bits;
/// `None` for any other format.
pub fn wav_encoding(is_float: bool, bits: u16) -> (r: Option<WavEncoding>)
    ensures
        r == if !is_float && bits == 16 {
            Some(WavEncoding::Int16)
        } else if !is_float && bits == 32 {
            Some(WavEncoding::Int32)
        } else if is_float && bits == 32 {
            Some(WavEncoding::Float32)
        } else {
            None::<WavEncoding>
        },
{
    if !is_float && bits == 16 {
        Some(WavEncoding::Int16)
    } else if !is_float && bits == 32 {
        Some(WavEncoding::Int32)
    } else if is_float && bits == 32 {
        Some(WavEncoding::Float32)
    } else {
        None
    }
}

/// How many samples pad `len` up to a multiple of `chunk`.
pub fn padding_to_multiple(len: usize, chunk: usize) -> (r: usize)
    requires
        chunk > 0,
    ensures
        r == if len % chunk == 0 { 0 } else { chunk - len % chunk },
        r < chunk,
        (len + r) % (chunk as int) == 0,
{
    let rem = len % chunk;
    let r = if rem == 0 { 0 } else { chunk - rem };
    proof {
        assert((len + r) % (chunk as int) == 0) by (nonlinear_arith)
            requires
                chunk > 0,
                rem == len % chunk,
                r == if rem == 0 { 0int } else { chunk - rem },
        ;
    }
    r
}

/// The speaker gate state between windows after one window was processed: a silent
/// window (`None`) keeps it, any other takes the window's decision.
pub fn gate_after_window<S>(current: bool, result: &Option<FrameResult<S>>) -> (r: bool)
    ensures
        r == match result {
            None => current,
            Some(f) => f.passed,
        },
{
    match result {
        None => current,
        Some(f) => f.passed,
    }
}

/// Whether a chunk reaches the filtered output: silent chunks always output
/// silence regardless of gate state; non-silent chunks follow the speaker gate.
pub fn chunk_passes(silent: bool, gate_pass: bool) -> (r: bool)
    ensures
        r == (!silent && gate_pass),
{
    !silent && gate_pass
}

} // verus!
