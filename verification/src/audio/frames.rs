//! Cutting a sample stream into fixed-size frames.

use vstd::prelude::*;
use crate::audio::buffer::AudioChunk;

verus! {

/// The `k`-th frame of `len` samples in `s`.
pub open spec fn frame_of<T>(s: Seq<T>, len: nat, k: int) -> Seq<T> {
    s.subrange(k * len, k * len + len)
}

/// Copy `s[from..to]` into a new vector.
pub fn copy_range<T: Copy>(s: &[T], from: usize, to: usize) -> (r: Vec<T>)
    requires
        from <= to <= s@.len(),
    ensures
        r@ == s@.subrange(from as int, to as int),
{
    let mut r: Vec<T> = Vec::with_capacity(to - from);
    let mut i: usize = from;
    while i < to
        invariant
            from <= i <= to,
            to <= s@.len(),
            r@ == s@.subrange(from as int, i as int),
        decreases to - i,
    {
        r.push(s[i]);
        i = i + 1;
    }
    r
}

/// Cuts a stream of samples into frames of a fixed length, keeping the
/// samples of an incomplete frame until more arrive.
pub struct FrameSplitter<T> {
    leftover: Vec<T>,
    frame_len: usize,
}

impl<T: Copy> FrameSplitter<T> {
    /// Samples received but not yet part of a complete frame.
    pub closed spec fn pending(&self) -> Seq<T> {
        self.leftover@
    }

    pub closed spec fn frame_size(&self) -> nat {
        self.frame_len as nat
    }

    pub fn new(frame_len: usize) -> (r: Self)
        requires
            frame_len > 0,
        ensures
            r.pending() == Seq::<T>::empty(),
            r.frame_size() == frame_len,
    {
        FrameSplitter { leftover: Vec::new(), frame_len }
    }

    /// Take in `samples` and return every complete frame, in order.
    pub fn push(&mut self, samples: &[T]) -> (r: Vec<Vec<T>>)
        requires
            old(self).frame_size() > 0,
        ensures
            final(self).frame_size() == old(self).frame_size(),
            ({
                let all = old(self).pending() + samples@;
                let n = all.len() / old(self).frame_size();
                &&& r@.len() == n
                &&& forall|k: int| 0 <= k < n ==> #[trigger] r@[k]@ == frame_of(all, old(self).frame_size(), k)
                &&& final(self).pending() == all.subrange((n * old(self).frame_size()) as int, all.len() as int)
            }),
    {
        let ghost all = self.leftover@ + samples@;
        let mut buf: Vec<T> = Vec::new();
        std::mem::swap(&mut buf, &mut self.leftover);
        let m = samples.len();
        let mut i: usize = 0;
        while i < m
            invariant
                m == samples@.len(),
                i <= m,
                buf@ == old(self).leftover@ + samples@.subrange(0, i as int),
            decreases m - i,
        {
            buf.push(samples[i]);
            i = i + 1;
            assert(samples@.subrange(0, i as int) == samples@.subrange(0, i - 1 as int).push(samples@[i - 1]));
        }
        assert(samples@.subrange(0, m as int) == samples@);
        assert(buf@ == all);

        let f = self.frame_len;
        let total = buf.len();
        let n = total / f;
        let mut frames: Vec<Vec<T>> = Vec::with_capacity(n);
        let mut k: usize = 0;
        let mut start: usize = 0;
        while total - start >= f
            invariant
                f == self.frame_len,
                f > 0,
                total == all.len(),
                buf@ == all,
                start == k * f,
                start <= total,
                k <= start,
                frames@.len() == k,
                forall|j: int| 0 <= j < k ==> #[trigger] frames@[j]@ == frame_of(all, f as nat, j),
            decreases total - start,
        {
            let frame = copy_range(buf.as_slice(), start, start + f);
            frames.push(frame);
            k = k + 1;
            start = start + f;
            proof {
                assert(start == k * f) by (nonlinear_arith)
                    requires
                        start == (k - 1) * f + f,
                ;
            }
            assert(k <= start);
        }
        proof {
            assert(total - start < f);
            assert(k == total / f) by (nonlinear_arith)
                requires
                    start == k * f,
                    start <= total,
                    total - start < f,
                    f > 0,
            ;
        }
        self.leftover = copy_range(buf.as_slice(), start, total);
        frames
    }
}

/// Cuts the microphone stream into 512-sample [`AudioChunk`]s numbered in
/// order (the sequence number wraps around after `u64::MAX`).
pub struct ChunkSplitter<T> {
    frames: FrameSplitter<T>,
    next_seq: u64,
}

/// Counting on by one from a sequence number that wrapped at 2^64.
proof fn lemma_wrap_step(s: int, k: int)
    requires
        s >= 0,
        k >= 0,
    ensures
        ({
            let p = (s + k) % 0x1_0000_0000_0000_0000;
            (if p + 1 > u64::MAX { p + 1 - 0x1_0000_0000_0000_0000 } else { p + 1 }) == (s + k + 1) % 0x1_0000_0000_0000_0000
        }),
{
}

/// Samples in an [`AudioChunk`].
pub const CHUNK_SAMPLES: usize = 512;

impl<T: Copy> ChunkSplitter<T> {
    pub closed spec fn pending(&self) -> Seq<T> {
        self.frames.pending()
    }

    /// The sequence number of the next chunk.
    pub closed spec fn next(&self) -> u64 {
        self.next_seq
    }

    pub closed spec fn wf(&self) -> bool {
        self.frames.frame_size() == CHUNK_SAMPLES
    }

    pub fn new() -> (r: Self)
        ensures
            r.wf(),
            r.pending() == Seq::<T>::empty(),
            r.next() == 0,
    {
        ChunkSplitter { frames: FrameSplitter::new(CHUNK_SAMPLES), next_seq: 0 }
    }

    /// Take in `samples` and return every complete chunk, numbered on from
    /// the last chunk returned.
    pub fn push(&mut self, samples: &[T]) -> (r: Vec<AudioChunk<T>>)
        requires
            old(self).wf(),
        ensures
            final(self).wf(),
            ({
                let all = old(self).pending() + samples@;
                let n = all.len() / (CHUNK_SAMPLES as nat);
                &&& r@.len() == n
                &&& forall|k: int| 0 <= k < n ==> #[trigger] r@[k].samples@ == frame_of(all, CHUNK_SAMPLES as nat, k)
                &&& forall|k: int| 0 <= k < n ==> #[trigger] r@[k].seq == (old(self).next() + k) % 0x1_0000_0000_0000_0000
                &&& final(self).pending() == all.subrange((n * CHUNK_SAMPLES) as int, all.len() as int)
                &&& final(self).next() == (old(self).next() + n) % 0x1_0000_0000_0000_0000
            }),
    {
        let frames = self.frames.push(samples);
        let ghost start_seq = self.next_seq;
        let ghost splitter = self.frames;
        let mut chunks: Vec<AudioChunk<T>> = Vec::with_capacity(frames.len());
        let mut frames = frames;
        let ghost all_frames = frames@;
        let n = frames.len();
        let mut k: usize = 0;
        // Move the frames out in order.
        while k < n
            invariant
                n == all_frames.len(),
                k <= n,
                frames@ == all_frames.subrange(k as int, n as int),
                chunks@.len() == k,
                forall|j: int| 0 <= j < k ==> #[trigger] chunks@[j].samples == all_frames[j],
                forall|j: int| 0 <= j < k ==> #[trigger] chunks@[j].seq == (start_seq + j) % 0x1_0000_0000_0000_0000,
                self.next_seq == (start_seq + k) % 0x1_0000_0000_0000_0000,
                self.frames == splitter,
            decreases n - k,
        {
            let frame = frames.remove(0);
            chunks.push(AudioChunk { samples: frame, seq: self.next_seq });
            proof {
                lemma_wrap_step(start_seq as int, k as int);
            }
            self.next_seq = self.next_seq.wrapping_add(1);
            k = k + 1;
            assert(frames@ =~= all_frames.subrange(k as int, n as int));
        }
        chunks
    }
}

/// Sample rate of the audio the capture delivers: 16 kHz mono.
pub const TARGET_RATE: u32 = 16000;

/// How microphone audio at the device's rate is brought to 16 kHz.
#[derive(Debug, Clone, Copy, PartialEq, Eq, Structural)]
pub enum RateConversion {
    /// The device already runs at 16 kHz.
    Native,
    /// The device rate is `factor` times 16 kHz: each group of `factor`
    /// samples is averaged into one.
    Decimate { factor: u32 },
    /// Any other rate is resampled from `from` Hz to 16 kHz.
    Resample { from: u32 },
}

/// The rate of the audio that `conv` makes of audio at `device_rate`.
pub open spec fn delivered_rate(conv: RateConversion, device_rate: nat) -> nat {
    match conv {
        RateConversion::Native => device_rate,
        RateConversion::Decimate { factor } => device_rate / (factor as nat),
        RateConversion::Resample { .. } => TARGET_RATE as nat,
    }
}

/// How audio at `device_rate` is brought to 16 kHz: as it is at 16 kHz, by
/// averaging whole groups at an exact multiple of 16 kHz, and by resampling
/// at any other rate. Whatever the device rate, 16 kHz audio comes out.
pub fn rate_conversion(device_rate: u32) -> (r: RateConversion)
    ensures
        delivered_rate(r, device_rate as nat) == TARGET_RATE,
        device_rate == TARGET_RATE ==> r == RateConversion::Native,
        device_rate > TARGET_RATE && device_rate % TARGET_RATE == 0 ==> r == (RateConversion::Decimate {
            factor: device_rate / TARGET_RATE,
        }),
        device_rate != TARGET_RATE && !(device_rate > TARGET_RATE && device_rate % TARGET_RATE == 0) ==> r == (
        RateConversion::Resample { from: device_rate }),
{
    if device_rate == TARGET_RATE {
        RateConversion::Native
    } else if device_rate > TARGET_RATE && device_rate % TARGET_RATE == 0 {
        let factor = device_rate / TARGET_RATE;
        assert(device_rate as nat / (factor as nat) == TARGET_RATE) by (nonlinear_arith)
            requires
                device_rate % TARGET_RATE == 0,
                factor == device_rate / TARGET_RATE,
                device_rate > TARGET_RATE,
                TARGET_RATE == 16000,
        ;
        RateConversion::Decimate { factor }
    } else {
        RateConversion::Resample { from: device_rate }
    }
}

/// Whether any of the device's supported (min, max) sample-rate ranges
/// admits 16 kHz; otherwise the stream runs at the device default and is
/// brought to 16 kHz (see [`rate_conversion`]).
pub fn supports_target_rate(ranges: &Vec<(u32, u32)>) -> (r: bool)
    ensures
        r == exists|i: int| 0 <= i < ranges@.len() && #[trigger] ranges@[i].0 <= 16000 && ranges@[i].1 >= 16000,
{
    let mut i: usize = 0;
    while i < ranges.len()
        invariant
            i <= ranges@.len(),
            forall|j: int| 0 <= j < i ==> !(#[trigger] ranges@[j].0 <= 16000 && ranges@[j].1 >= 16000),
        decreases ranges@.len() - i,
    {
        let (lo, hi) = ranges[i];
        if lo <= 16000 && hi >= 16000 {
            return true;
        }
        i = i + 1;
    }
    false
}

/// The chunks of `len` samples of `s`, the last one filled up with `pad`.
pub open spec fn padded_frame<T>(s: Seq<T>, len: nat, k: int, pad: T) -> Seq<T> {
    Seq::new(len, |j: int| if k * len + j < s.len() { s[k * len + j] } else { pad })
}

/// Cut `window` into chunks of `len` samples, padding the last, short chunk
/// with `pad` (as the voice activity detector needs whole chunks).
pub fn padded_chunks<T: Copy>(window: &[T], len: usize, pad: T) -> (r: Vec<Vec<T>>)
    requires
        len > 0,
    ensures
        r@.len() == (window@.len() + len - 1) / (len as int),
        forall|k: int| 0 <= k < r@.len() ==> #[trigger] r@[k]@ == padded_frame(window@, len as nat, k, pad),
{
    let total = window.len();
    proof {
        assert(total % len != 0 ==> total / len < usize::MAX) by (nonlinear_arith)
            requires
                len > 0,
                total <= usize::MAX,
        ;
    }
    let n = total / len + if total % len == 0 { 0 } else { 1 };
    proof {
        assert(n == (total + len - 1) / (len as int)) by (nonlinear_arith)
            requires
                len > 0,
                n == total / len + if total % len == 0 { 0int } else { 1int },
        ;
    }
    let mut r: Vec<Vec<T>> = Vec::with_capacity(n);
    let mut k: usize = 0;
    while k < n
        invariant
            len > 0,
            total == window@.len(),
            n == total / len + if total % len == 0 { 0int } else { 1int },
            k <= n,
            r@.len() == k,
            forall|j: int| 0 <= j < k ==> #[trigger] r@[j]@ == padded_frame(window@, len as nat, j, pad),
        decreases n - k,
    {
        proof {
            assert(k * len < total) by (nonlinear_arith)
                requires
                    len > 0,
                    k < n,
                    n == total / len + if total % len == 0 { 0int } else { 1int },
            ;
        }
        let base = k * len;
        let mut chunk: Vec<T> = Vec::with_capacity(len);
        let mut j: usize = 0;
        while j < len
            invariant
                len > 0,
                total == window@.len(),
                base == k * len,
                base < total,
                j <= len,
                chunk@ == padded_frame(window@, len as nat, k as int, pad).subrange(0, j as int),
            decreases len - j,
        {
            if j < total - base {
                chunk.push(window[base + j]);
            } else {
                chunk.push(pad);
            }
            j = j + 1;
            assert(chunk@ =~= padded_frame(window@, len as nat, k as int, pad).subrange(0, j as int));
        }
        assert(chunk@ =~= padded_frame(window@, len as nat, k as int, pad));
        r.push(chunk);
        k = k + 1;
    }
    r
}

/// The first `n` frames of `f` samples of `all`.
pub open spec fn frames_of<T>(all: Seq<T>, f: nat, n: nat) -> Seq<Seq<T>> {
    Seq::new(n, |k: int| frame_of(all, f, k))
}

/// Law: cutting into frames loses and repeats nothing — the frames handed
/// out, followed by the samples kept for later, are exactly the samples
/// taken in.
#[verifier::spinoff_prover]
pub proof fn lemma_frames_partition<T>(all: Seq<T>, f: nat, n: nat)
    requires
        f > 0,
        n * f <= all.len(),
    ensures
        frames_of(all, f, n).flatten() + all.subrange((n * f) as int, all.len() as int) == all,
    decreases n,
{
    if n == 0 {
        assert(frames_of(all, f, 0) =~= Seq::<Seq<T>>::empty());
        assert(all.subrange(0, all.len() as int) =~= all);
    } else {
        let m = (n - 1) as nat;
        assert(m * f + f == n * f) by (nonlinear_arith)
            requires
                m == n - 1,
        ;
        lemma_frames_partition(all, f, m);
        assert(frames_of(all, f, n) =~= frames_of(all, f, m).push(frame_of(all, f, m as int)));
        frames_of(all, f, m).lemma_flatten_push(frame_of(all, f, m as int));
        assert(all.subrange((m * f) as int, all.len() as int) =~= frame_of(all, f, m as int) + all.subrange(
            (n * f) as int,
            all.len() as int,
        ));
        assert(frames_of(all, f, n).flatten() + all.subrange((n * f) as int, all.len() as int) =~= frames_of(
            all,
            f,
            m,
        ).flatten() + all.subrange((m * f) as int, all.len() as int));
    }
}

/// Law: the chunks handed to voice activity detection start with the whole
/// window — padding only ever follows the window's own samples.
pub proof fn lemma_padded_chunks_cover_window<T>(window: Seq<T>, len: nat, pad: T, k: int, j: int)
    requires
        len > 0,
        0 <= j < len,
        0 <= k,
        k * len + j < window.len(),
    ensures
        padded_frame(window, len, k, pad)[j] == window[k * len + j],
{
}

} // verus!
