use std::collections::VecDeque;
use vstd::prelude::*;

verus! {

broadcast use vstd::std_specs::vecdeque::group_vec_dequeue_axioms;

/// A single 512-sample chunk of mono audio at 16000 Hz, with its sequence number.
#[derive(Clone)]
pub struct AudioChunk<T> {
    pub samples: Vec<T>,
    pub seq: u64,
}

/// Default window: 48000 samples (3 s at 16000 Hz) — 3 s gives reliable speaker embeddings.
pub const WINDOW_SAMPLES: usize = 48000;
/// Default hop: 24000 samples (1.5 s — 50% overlap).
pub const HOP_SAMPLES: usize = 24000;

/// The last `n` items of `s` (all of `s` when it is shorter).
pub open spec fn last_n<T>(s: Seq<T>, n: nat) -> Seq<T> {
    if s.len() <= n {
        s
    } else {
        s.subrange(s.len() - n, s.len() as int)
    }
}

/// Accumulates incoming audio chunks and emits 3-second windows at 1.5-second hops.
///
/// Window size: 48000 samples (3 s at 16000 Hz) — 3 s gives reliable speaker embeddings
/// Hop size:    24000 samples (1.5 s — 50% overlap)
pub struct EmbeddingWindowAccumulator<T> {
    ring: VecDeque<T>,
    samples_since_last_emit: usize,
    pub window_size: usize,
    pub hop_size: usize,
}

impl<T: Copy> EmbeddingWindowAccumulator<T> {
    /// The samples held, oldest first.
    pub closed spec fn ring(&self) -> Seq<T> {
        self.ring@
    }

    /// The number of samples pushed since the last window was emitted.
    pub closed spec fn pending(&self) -> nat {
        self.samples_since_last_emit as nat
    }

    pub closed spec fn window_len(&self) -> nat {
        self.window_size as nat
    }

    pub closed spec fn hop_len(&self) -> nat {
        self.hop_size as nat
    }

    /// Whether pushing `chunk` emits a window.
    pub open spec fn emits(&self, chunk: Seq<T>) -> bool {
        &&& self.pending() + chunk.len() >= self.hop_len()
        &&& self.ring().len() + chunk.len() >= self.window_len()
    }

    /// The accumulator has taken in exactly the stream `stream` since it was
    /// made or reset: it holds the stream's latest samples — all of them until
    /// the first window, at least a window's worth after — and fewer samples
    /// are pending than the stream holds.
    pub open spec fn follows(&self, stream: Seq<T>) -> bool {
        &&& self.ring().len() <= stream.len()
        &&& self.ring() == stream.subrange(stream.len() - self.ring().len(), stream.len() as int)
        &&& (self.ring().len() == stream.len() || self.ring().len() >= self.window_len())
        &&& self.pending() <= stream.len()
    }

    /// One push of `chunk`: what [`Self::push_chunk`] does, with `window` the
    /// samples of the window it returns.
    pub open spec fn pushed(before: Self, after: Self, chunk: Seq<T>, window: Option<Seq<T>>) -> bool {
        &&& after.window_len() == before.window_len()
        &&& after.hop_len() == before.hop_len()
        &&& if before.emits(chunk) {
            &&& window == Some(last_n(before.ring() + chunk, before.window_len()))
            &&& after.ring() == last_n(before.ring() + chunk, before.window_len())
            &&& after.pending() == 0
        } else {
            &&& window is None
            &&& after.ring() == before.ring() + chunk
            &&& after.pending() == before.pending() + chunk.len()
        }
    }

    /// The number of samples pushed since the last window was emitted.
    pub fn pending_samples(&self) -> (r: usize)
        ensures
            r == self.pending(),
    {
        self.samples_since_last_emit
    }

    pub fn new() -> (r: Self)
        ensures
            r.ring() == Seq::<T>::empty(),
            r.pending() == 0,
            r.window_len() == WINDOW_SAMPLES,
            r.hop_len() == HOP_SAMPLES,
    {
        Self {
            ring: VecDeque::with_capacity(WINDOW_SAMPLES * 2),
            samples_since_last_emit: 0,
            window_size: WINDOW_SAMPLES,
            hop_size: HOP_SAMPLES,
        }
    }

    /// Push a chunk of samples. Returns Some(window) when enough samples have
    /// accumulated for a new hop, None otherwise.
    ///
    /// A window is the most recent `window_size` samples, oldest first; after
    /// emitting, only that window is kept as history.
    pub fn push_chunk(&mut self, chunk: &[T]) -> (r: Option<Vec<T>>)
        requires
            old(self).pending() + chunk@.len() <= usize::MAX,
        ensures
            final(self).window_len() == old(self).window_len(),
            final(self).hop_len() == old(self).hop_len(),
            old(self).emits(chunk@) ==> {
                &&& r matches Some(w) && w@ == last_n(old(self).ring() + chunk@, old(self).window_len())
                &&& final(self).ring() == last_n(old(self).ring() + chunk@, old(self).window_len())
                &&& final(self).pending() == 0
            },
            !old(self).emits(chunk@) ==> {
                &&& r is None
                &&& final(self).ring() == old(self).ring() + chunk@
                &&& final(self).pending() == old(self).pending() + chunk@.len()
            },
            Self::pushed(*old(self), *final(self), chunk@, match r { Some(w) => Some(w@), None => None }),
    {
        let ghost before = self.ring@;
        let n = chunk.len();
        let mut i: usize = 0;
        while i < n
            invariant
                n == chunk@.len(),
                i <= n,
                self.ring@ == before + chunk@.subrange(0, i as int),
                self.samples_since_last_emit == old(self).samples_since_last_emit,
                self.window_size == old(self).window_size,
                self.hop_size == old(self).hop_size,
            decreases n - i,
        {
            self.ring.push_back(chunk[i]);
            i = i + 1;
            assert(chunk@.subrange(0, i as int) == chunk@.subrange(0, i - 1 as int).push(chunk@[i - 1]));
        }
        assert(chunk@.subrange(0, n as int) == chunk@);
        self.samples_since_last_emit = self.samples_since_last_emit + n;

        if self.samples_since_last_emit >= self.hop_size && self.ring.len() >= self.window_size {
            self.samples_since_last_emit = 0;

            // Collect the most recent window_size samples in order
            let len = self.ring.len();
            let start = len - self.window_size;
            let mut window: Vec<T> = Vec::with_capacity(self.window_size);
            let mut j: usize = start;
            while j < len
                invariant
                    len == self.ring@.len(),
                    start <= j <= len,
                    window@ == self.ring@.subrange(start as int, j as int),
                decreases len - j,
            {
                window.push(self.ring[j]);
                j = j + 1;
            }

            // Trim ring so it never grows unbounded (keep one window of history)
            let ghost full = self.ring@;
            while self.ring.len() > self.window_size
                invariant
                    self.ring@.len() >= self.window_size,
                    full.len() >= self.ring@.len(),
                    self.ring@ == full.subrange(full.len() - self.ring@.len(), full.len() as int),
                    self.window_size == old(self).window_size,
                    self.hop_size == old(self).hop_size,
                    self.samples_since_last_emit == 0,
                decreases self.ring@.len(),
            {
                self.ring.pop_front();
            }
            Some(window)
        } else {
            None
        }
    }

    pub fn reset(&mut self)
        ensures
            final(self).ring() == Seq::<T>::empty(),
            final(self).pending() == 0,
            final(self).window_len() == old(self).window_len(),
            final(self).hop_len() == old(self).hop_len(),
    {
        self.ring.clear();
        self.samples_since_last_emit = 0;
    }
}

/// Law: every emitted window is the most recent `window` samples of the whole
/// stream pushed since the last reset. If the held samples are the tail of
/// the stream before a push, then after the push they (and any emitted
/// window) are the tail of the stream extended by the chunk.
pub proof fn lemma_window_is_stream_tail<T>(stream: Seq<T>, ring: Seq<T>, chunk: Seq<T>, window: nat)
    requires
        ring.len() <= stream.len(),
        ring == stream.subrange(stream.len() - ring.len(), stream.len() as int),
        ring.len() + chunk.len() >= window,
    ensures
        last_n(ring + chunk, window) == last_n(stream + chunk, window),
{
    let a = ring + chunk;
    let b = stream + chunk;
    assert(a == b.subrange(b.len() - a.len(), b.len() as int));
    if a.len() > window {
        assert(last_n(a, window) =~= last_n(b, window));
    } else {
        assert(a.len() == window);
        assert(last_n(a, window) =~= last_n(b, window));
    }
}

/// Law: the held samples stay the tail of the stream across a push, whether or
/// not a window is emitted.
pub proof fn lemma_ring_stays_stream_tail<T>(stream: Seq<T>, ring: Seq<T>, chunk: Seq<T>, window: nat)
    requires
        ring.len() <= stream.len(),
        ring == stream.subrange(stream.len() - ring.len(), stream.len() as int),
    ensures
        ({
            let next = stream + chunk;
            let held = last_n(ring + chunk, window);
            &&& held.len() <= next.len()
            &&& held == next.subrange(next.len() - held.len(), next.len() as int)
            &&& (ring + chunk) == next.subrange(next.len() - (ring + chunk).len(), next.len() as int)
        }),
{
    let a = ring + chunk;
    let b = stream + chunk;
    assert(a =~= b.subrange(b.len() - a.len(), b.len() as int));
    let held = last_n(a, window);
    assert(held =~= b.subrange(b.len() - held.len(), b.len() as int));
}

/// Law: over any run of pushes since the accumulator was made or reset, with
/// S the samples pushed so far (this chunk included) and E those pushed since
/// the last window (or since the start): a push returns a window exactly when
/// E reaches a hop and S reaches a window, and that window is the last
/// `window` samples of the whole stream, oldest first.
pub proof fn lemma_emission_follows_stream<T: Copy>(
    before: EmbeddingWindowAccumulator<T>,
    after: EmbeddingWindowAccumulator<T>,
    stream: Seq<T>,
    chunk: Seq<T>,
    window: Option<Seq<T>>,
)
    requires
        before.follows(stream),
        EmbeddingWindowAccumulator::pushed(before, after, chunk, window),
    ensures
        after.follows(stream + chunk),
        window is Some <==> (before.pending() + chunk.len() >= before.hop_len() && stream.len() + chunk.len()
            >= before.window_len()),
        window matches Some(w) ==> w == last_n(stream + chunk, before.window_len()) && w.len()
            == before.window_len(),
        after.pending() == if window is Some { 0 } else { before.pending() + chunk.len() },
{
    let w = before.window_len();
    let a = before.ring() + chunk;
    let b = stream + chunk;
    assert(a =~= b.subrange(b.len() - a.len(), b.len() as int));
    lemma_ring_stays_stream_tail(stream, before.ring(), chunk, w);
    if before.emits(chunk) {
        lemma_window_is_stream_tail(stream, before.ring(), chunk, w);
    }
}

/// Law: a freshly made or reset accumulator has taken in the empty stream.
pub proof fn lemma_fresh_accumulator_follows_nothing<T: Copy>(acc: EmbeddingWindowAccumulator<T>)
    requires
        acc.ring() == Seq::<T>::empty(),
        acc.pending() == 0,
    ensures
        acc.follows(Seq::<T>::empty()),
{
    assert(Seq::<T>::empty().subrange(0, 0) =~= Seq::<T>::empty());
}

} // verus!
