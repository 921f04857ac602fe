use vstd::prelude::*;
use crate::inference::buffer_views;

verus! {

/// Dimension of a speaker embedding.
pub const PROFILE_DIM: usize = 256;
/// An embedding window: 1 s at 16 kHz.
pub const WINDOW: usize = 16000;
/// Windows follow one another without overlap, so a 20 s recording gives
/// 20 one-second windows.
pub const HOP: usize = 16000;

/// A saved voice profile: the enrolled speaker's mean embedding.
pub struct VoiceProfile<T> {
    pub version: u8,
    pub dim: usize,
    pub embedding: Vec<T>,
}

impl<T: Copy> VoiceProfile<T> {
    /// The embedding as a fixed-size array, when it has the profile dimension.
    pub fn as_array(&self) -> (r: Option<[T; 256]>)
        ensures
            r is Some <==> self.embedding@.len() == PROFILE_DIM,
            r matches Some(a) ==> a@ == self.embedding@,
    {
        if self.embedding.len() != PROFILE_DIM {
            return None;
        }
        let mut a = [self.embedding[0]; 256];
        let mut i: usize = 0;
        while i < PROFILE_DIM
            invariant
                self.embedding@.len() == PROFILE_DIM,
                i <= PROFILE_DIM,
                forall|j: int| 0 <= j < i ==> a@[j] == self.embedding@[j],
            decreases PROFILE_DIM - i,
        {
            a[i] = self.embedding[i];
            i = i + 1;
        }
        assert(a@ =~= self.embedding@);
        Some(a)
    }
}

/// The start of every whole window in a recording of `len` samples: windows
/// of [`WINDOW`] samples, one every [`HOP`] samples from the start.
pub open spec fn window_count(len: nat) -> nat {
    if len >= WINDOW {
        ((len - WINDOW) as nat / HOP as nat) + 1
    } else {
        0
    }
}

/// Where each embedding window of a recording of `len` samples starts.
pub fn window_starts(len: usize) -> (r: Vec<usize>)
    ensures
        r@.len() == window_count(len as nat),
        forall|k: int| 0 <= k < r@.len() ==> #[trigger] r@[k] == k * HOP,
        forall|k: int| 0 <= k < r@.len() ==> r@[k] + WINDOW <= len,
{
    let mut r: Vec<usize> = Vec::new();
    let mut start: usize = 0;
    while start <= len && len - start >= WINDOW
        invariant
            start == r@.len() * HOP,
            forall|k: int| 0 <= k < r@.len() ==> #[trigger] r@[k] == k * HOP,
            forall|k: int| 0 <= k < r@.len() ==> r@[k] + WINDOW <= len,
            r@.len() > 0 ==> (r@.len() - 1) * HOP + WINDOW <= len,
            r@.len() <= window_count(len as nat),
        decreases len + HOP - start,
    {
        proof {
            let k = r@.len();
            assert(k * HOP + WINDOW <= len);
            assert((((len - WINDOW) as nat) / (HOP as nat)) >= k) by (nonlinear_arith)
                requires
                    k * HOP + WINDOW <= len,
                    HOP == 16000,
            ;
        }
        r.push(start);
        start = start + HOP;
    }
    proof {
        let k = r@.len();
        if len >= WINDOW {
            assert(k * HOP + WINDOW > len);
            assert((((len - WINDOW) as nat) / (HOP as nat)) < k) by (nonlinear_arith)
                requires
                    k * HOP + WINDOW > len,
                    len >= WINDOW,
                    HOP == 16000,
            ;
        }
    }
    r
}

/// All embeddings of all recordings, recording by recording.
pub fn flatten_embeddings<E: Copy>(per_rec: &Vec<Vec<E>>) -> (r: Vec<E>)
    ensures
        r@ == buffer_views(per_rec@).flatten(),
{
    broadcast use Seq::lemma_flatten_push;
    let mut r: Vec<E> = Vec::new();
    let mut i: usize = 0;
    while i < per_rec.len()
        invariant
            i <= per_rec@.len(),
            r@ == buffer_views(per_rec@.take(i as int)).flatten(),
        decreases per_rec@.len() - i,
    {
        let rec = &per_rec[i];
        let mut j: usize = 0;
        let ghost base = r@;
        while j < rec.len()
            invariant
                j <= rec@.len(),
                r@ == base + rec@.take(j as int),
            decreases rec@.len() - j,
        {
            r.push(rec[j]);
            j = j + 1;
            assert(rec@.take(j as int) =~= rec@.take(j - 1 as int).push(rec@[j - 1]));
        }
        assert(rec@.take(j as int) =~= rec@);
        proof {
            assert(buffer_views(per_rec@.take(i + 1 as int)) =~= buffer_views(per_rec@.take(i as int)).push(per_rec@[i as int]@));
            buffer_views(per_rec@.take(i as int)).lemma_flatten_push(rec@);
        }
        i = i + 1;
    }
    assert(per_rec@.take(i as int) =~= per_rec@);
    r
}

/// Fewer embedding windows than this make a profile unreliable.
pub const MIN_RELIABLE_WINDOWS: usize = 4;

/// How many embedding windows the recordings gave, as far as building a
/// profile is concerned.
#[derive(Debug, Clone, Copy, PartialEq, Eq, Structural)]
pub enum ProfileSupport {
    /// No window at all: no profile can be built.
    NoWindows,
    /// Some windows, but fewer than [`MIN_RELIABLE_WINDOWS`]: the profile is
    /// built but may be unreliable.
    FewWindows,
    /// Enough windows for a reliable profile.
    Enough,
}

/// The number of embeddings of all recordings together.
pub open spec fn embedding_total<E>(per_rec: Seq<Vec<E>>) -> nat {
    buffer_views(per_rec).flatten().len()
}

/// Whether a profile can be built from the embeddings of the recordings, and
/// whether there are enough of them for it to be reliable.
pub fn profile_support<E>(per_rec: &Vec<Vec<E>>) -> (r: ProfileSupport)
    ensures
        r == (if embedding_total(per_rec@) == 0 {
            ProfileSupport::NoWindows
        } else if embedding_total(per_rec@) < MIN_RELIABLE_WINDOWS {
            ProfileSupport::FewWindows
        } else {
            ProfileSupport::Enough
        }),
{
    broadcast use Seq::lemma_flatten_push;
    // The running total, counted up to the reliability bound.
    let mut count: usize = 0;
    let mut i: usize = 0;
    while i < per_rec.len()
        invariant
            i <= per_rec@.len(),
            count == if embedding_total(per_rec@.take(i as int)) < MIN_RELIABLE_WINDOWS {
                embedding_total(per_rec@.take(i as int))
            } else {
                MIN_RELIABLE_WINDOWS as nat
            },
        decreases per_rec@.len() - i,
    {
        proof {
            assert(buffer_views(per_rec@.take(i + 1 as int)) =~= buffer_views(per_rec@.take(i as int)).push(per_rec@[i as int]@));
            buffer_views(per_rec@.take(i as int)).lemma_flatten_push(per_rec@[i as int]@);
        }
        let n = per_rec[i].len();
        if n >= MIN_RELIABLE_WINDOWS - count {
            count = MIN_RELIABLE_WINDOWS;
        } else {
            count = count + n;
        }
        i = i + 1;
    }
    assert(per_rec@.take(i as int) =~= per_rec@);
    if count == 0 {
        ProfileSupport::NoWindows
    } else if count < MIN_RELIABLE_WINDOWS {
        ProfileSupport::FewWindows
    } else {
        ProfileSupport::Enough
    }
}

/// Whether the recordings allow a cross-similarity check: exactly two
/// recordings, each with at least one embedding.
pub open spec fn has_cross_pair<E>(per_rec: Seq<Vec<E>>) -> bool {
    per_rec.len() == 2 && per_rec[0]@.len() > 0 && per_rec[1]@.len() > 0
}

/// Similarity between the embeddings of exactly 2 recordings, as `similarity`
/// measures it. Returns `None` if there aren't exactly 2 recordings each with
/// ≥1 window.
pub fn recording_cross_similarity<E, R, F: Fn(&Vec<E>, &Vec<E>) -> R>(per_rec: &Vec<Vec<E>>, similarity: F) -> (r: Option<R>)
    requires
        has_cross_pair(per_rec@) ==> similarity.requires((&per_rec@[0], &per_rec@[1])),
    ensures
        r is Some <==> has_cross_pair(per_rec@),
        r matches Some(x) ==> similarity.ensures((&per_rec@[0], &per_rec@[1]), x),
{
    if per_rec.len() != 2 {
        return None;
    }
    if per_rec[0].len() == 0 || per_rec[1].len() == 0 {
        return None;
    }
    Some(similarity(&per_rec[0], &per_rec[1]))
}

} // verus!
