use std::collections::VecDeque;
use vstd::prelude::*;
use crate::audio::buffer::last_n;
use vstd::std_specs::cmp::{PartialOrdIs, PartialOrdSpec};

verus! {

broadcast use vstd::std_specs::vecdeque::group_vec_dequeue_axioms;

/// The vote history after one more frame vote: the vote is appended and, when
/// the history then holds more than `window` votes, the oldest is dropped.
pub open spec fn next_votes(votes: Seq<bool>, vote: bool, window: nat) -> Seq<bool> {
    let pushed = votes.push(vote);
    if pushed.len() > window {
        pushed.drop_first()
    } else {
        pushed
    }
}

/// The speaker gate mutes exactly when the window is full and every vote in it failed.
pub open spec fn window_mutes(votes: Seq<bool>, window: nat) -> bool {
    &&& votes.len() == window
    &&& forall|i: int| 0 <= i < votes.len() ==> !#[trigger] votes[i]
}

/// Applies a sliding-window vote over recent cosine similarity scores.
///
/// Only mutes if ALL frames in the window are below threshold, preventing
/// mid-sentence cuts. Fail-open: starts in pass state.
pub struct SlidingVoteGate<S> {
    history: VecDeque<bool>,
    vote_window: usize,
    pub threshold: S,
    pub current_pass: bool,
    pub last_similarity: S,
}

/// How one similarity score moves the speaker gate: the frame votes by whether the
/// score reaches the threshold (for a score type whose comparison follows its
/// specification, exactly `similarity >= threshold`), the vote enters the
/// window, and the speaker gate passes unless the full window failed.
pub open spec fn updated_by<S: PartialOrd + Copy + Default>(
    before: SlidingVoteGate<S>,
    after: SlidingVoteGate<S>,
    similarity: S,
) -> bool {
    &&& exists|vote: bool|
        {
            &&& S::obeys_partial_cmp_spec() ==> vote == similarity.is_ge(&before.threshold_of())
            &&& after.votes() == next_votes(before.votes(), vote, before.window())
        }
    &&& after.window() == before.window()
    &&& after.threshold_of() == before.threshold_of()
    &&& after.last_similarity_of() == similarity
    &&& after.passing() == !window_mutes(after.votes(), after.window())
}

impl<S: PartialOrd + Copy + Default> SlidingVoteGate<S> {
    /// The frame votes currently in the window, oldest first.
    pub closed spec fn votes(&self) -> Seq<bool> {
        self.history@
    }

    /// The number of frames the vote spans.
    pub closed spec fn window(&self) -> nat {
        self.vote_window as nat
    }

    /// The similarity a frame must reach to pass.
    pub closed spec fn threshold_of(&self) -> S {
        self.threshold
    }

    /// Whether the speaker gate currently passes audio.
    pub closed spec fn passing(&self) -> bool {
        self.current_pass
    }

    /// The similarity of the most recent frame.
    pub closed spec fn last_similarity_of(&self) -> S {
        self.last_similarity
    }

    pub fn new(threshold: S, vote_window: usize) -> (r: Self)
        ensures
            r.votes() == Seq::<bool>::empty(),
            r.window() == vote_window,
            r.threshold_of() == threshold,
            r.passing(),
            call_ensures(S::default, (), r.last_similarity_of()),
    {
        Self {
            history: VecDeque::with_capacity(vote_window),
            vote_window,
            threshold,
            current_pass: true,  // fail-open
            last_similarity: S::default(),
        }
    }

    /// Record one frame vote (`frame_pass`: the frame's similarity reached the
    /// threshold) and return whether audio should pass.
    pub fn record_vote(&mut self, similarity: S, frame_pass: bool) -> (r: bool)
        ensures
            final(self).votes() == next_votes(old(self).votes(), frame_pass, old(self).window()),
            final(self).window() == old(self).window(),
            final(self).threshold_of() == old(self).threshold_of(),
            final(self).last_similarity_of() == similarity,
            final(self).passing() == r,
            r == !window_mutes(final(self).votes(), final(self).window()),
    {
        self.history.push_back(frame_pass);
        if self.history.len() > self.vote_window {
            self.history.pop_front();
        }
        self.last_similarity = similarity;

        // Mute only when the window is full AND every frame failed; a partial window stays open.
        let full = self.history.len() == self.vote_window;
        let all_failed = full && self.all_votes_failed();
        assert(full == (self.votes().len() == self.window()));
        self.current_pass = !all_failed;
        self.current_pass
    }

    fn all_votes_failed(&self) -> (r: bool)
        ensures
            r == forall|i: int| 0 <= i < self.votes().len() ==> !#[trigger] self.votes()[i],
    {
        let n = self.history.len();
        let mut i: usize = 0;
        while i < n
            invariant
                n == self.history@.len(),
                i <= n,
                forall|j: int| 0 <= j < i ==> !#[trigger] self.history@[j],
            decreases n - i,
        {
            if self.history[i] {
                assert(self.votes()[i as int]);
                return false;
            }
            i = i + 1;
        }
        true
    }

    /// Update gate with a new similarity score. Returns whether audio should pass.
    ///
    /// The frame's vote is the outcome of `similarity >= threshold`; for a
    /// score type whose comparison follows its specification the vote is
    /// exactly that comparison.
    pub fn update(&mut self, similarity: S) -> (r: bool)
        ensures
            updated_by(*old(self), *final(self), similarity),
            r == final(self).passing(),
    {
        let frame_pass = similarity >= self.threshold;
        self.record_vote(similarity, frame_pass)
    }

    pub fn reset(&mut self)
        ensures
            final(self).votes() == Seq::<bool>::empty(),
            final(self).window() == old(self).window(),
            final(self).threshold_of() == old(self).threshold_of(),
            final(self).passing(),
            call_ensures(S::default, (), final(self).last_similarity_of()),
    {
        self.history.clear();
        self.current_pass = true;
        self.last_similarity = S::default();
    }
}

/// Law: one passing frame reopens the speaker gate — whatever the history, a passing
/// vote in a window of at least one frame leaves the speaker gate open.
pub proof fn lemma_passing_vote_opens(votes: Seq<bool>, window: nat)
    requires
        window > 0,
    ensures
        !window_mutes(next_votes(votes, true, window), window),
{
    let n = next_votes(votes, true, window);
    assert(n.len() > 0 ==> n[n.len() - 1] == true);
    if n.len() == window {
        assert(n[n.len() - 1]);
    }
}

/// Law: the vote history never holds more than `window` votes, once it starts
/// within that bound.
pub proof fn lemma_votes_stay_bounded(votes: Seq<bool>, vote: bool, window: nat)
    requires
        votes.len() <= window,
    ensures
        next_votes(votes, vote, window).len() <= window,
{
}

/// Law: the speaker gate mutes only after `window` consecutive failing votes — if the
/// last `window` votes all failed, it mutes; a window of failing votes that is
/// not yet full leaves it open.
pub proof fn lemma_mutes_only_on_full_failing_window(votes: Seq<bool>, window: nat)
    requires
        votes.len() <= window,
    ensures
        window_mutes(next_votes(votes, false, window), window) <==> (
            votes.len() + 1 >= window
            && forall|i: int| 0 <= i < votes.len() && (votes.len() + 1 > window ==> i >= 1) ==> !#[trigger] votes[i]
        ),
{
    let n = next_votes(votes, false, window);
    if window_mutes(n, window) {
        assert forall|i: int| 0 <= i < votes.len() && (votes.len() + 1 > window ==> i >= 1) implies !#[trigger] votes[i] by {
            if votes.len() + 1 > window {
                assert(n[i - 1] == votes[i]);
            } else {
                assert(n[i] == votes[i]);
            }
        }
    }
    if votes.len() + 1 >= window
        && forall|i: int| 0 <= i < votes.len() && (votes.len() + 1 > window ==> i >= 1) ==> !#[trigger] votes[i] {
        assert forall|i: int| 0 <= i < n.len() implies !#[trigger] n[i] by {
            if votes.len() + 1 > window {
                if i + 1 < votes.len() {
                    assert(n[i] == votes[i + 1]);
                }
            } else {
                if i < votes.len() {
                    assert(n[i] == votes[i]);
                }
            }
        }
    }
}

/// Law: a similarity score closes the speaker gate only when the whole vote
/// window is full and every vote in it failed.
pub proof fn lemma_closes_only_on_full_failing_window<S: PartialOrd + Copy + Default>(
    before: SlidingVoteGate<S>,
    after: SlidingVoteGate<S>,
    similarity: S,
)
    requires
        updated_by(before, after, similarity),
        !after.passing(),
    ensures
        after.votes().len() == before.window(),
        forall|i: int| 0 <= i < after.votes().len() ==> !#[trigger] after.votes()[i],
{
}

/// The frame votes of a run of similarity scores against `threshold`: each
/// frame passes when its score reaches the threshold.
pub open spec fn votes_of<S: PartialOrd>(scores: Seq<S>, threshold: S) -> Seq<bool> {
    scores.map_values(|s: S| s.is_ge(&threshold))
}

/// Whether the speaker gate passes after the frame votes `votes`: it mutes
/// only when at least `window` frames were voted and the last `window` all
/// failed.
pub open spec fn passes_after(votes: Seq<bool>, window: nat) -> bool {
    !(votes.len() >= window && forall|j: int| votes.len() - window <= j < votes.len() ==> !#[trigger] votes[j])
}

/// The window keeps the latest votes: after any run of votes, the history
/// is the last `window` of them.
proof fn lemma_next_votes_latest(history: Seq<bool>, vote: bool, window: nat)
    ensures
        next_votes(last_n(history, window), vote, window) == last_n(history.push(vote), window),
{
    let h = last_n(history, window);
    let all = history.push(vote);
    if history.len() < window {
        assert(last_n(all, window) =~= all);
    } else {
        assert(next_votes(h, vote, window) =~= last_n(all, window));
    }
}

/// Law: over any run of updates since the speaker gate was made or reset,
/// with scores s_1..s_k, for a score type whose comparison follows its
/// specification: the vote window holds the last `window` frame votes
/// (`s_j >= threshold`), and the speaker gate passes unless at least `window`
/// frames were scored and the last `window` of them all fell below the
/// threshold — a partial window never mutes, and one passing frame among the
/// last `window` keeps it open.
pub proof fn lemma_gate_follows_scores<S: PartialOrd + Copy + Default>(
    before: SlidingVoteGate<S>,
    after: SlidingVoteGate<S>,
    scores: Seq<S>,
    similarity: S,
)
    requires
        S::obeys_partial_cmp_spec(),
        before.votes() == last_n(votes_of(scores, before.threshold_of()), before.window()),
        updated_by(before, after, similarity),
    ensures
        after.votes() == last_n(votes_of(scores.push(similarity), after.threshold_of()), after.window()),
        after.passing() == passes_after(votes_of(scores.push(similarity), after.threshold_of()), after.window()),
        after.threshold_of() == before.threshold_of(),
        after.last_similarity_of() == similarity,
{
    let t = before.threshold_of();
    let w = before.window();
    let vs = votes_of(scores, t);
    let all = votes_of(scores.push(similarity), t);
    assert(all =~= vs.push(similarity.is_ge(&t)));
    lemma_next_votes_latest(vs, similarity.is_ge(&t), w);
    let held = last_n(all, w);
    if all.len() >= w {
        assert forall|j: int| 0 <= j < held.len() implies held[j] == all[all.len() - w + j] by {}
        if window_mutes(held, w) {
            assert forall|j: int| all.len() - w <= j < all.len() implies !#[trigger] all[j] by {
                assert(held[j - (all.len() - w)] == all[j]);
            }
        }
    }
}

/// Law: a speaker gate that was just made or reset holds the votes of an
/// empty run of scores.
pub proof fn lemma_fresh_gate_has_no_votes<S: PartialOrd + Copy + Default>(gate: SlidingVoteGate<S>, threshold: S)
    requires
        gate.votes() == Seq::<bool>::empty(),
    ensures
        gate.votes() == last_n(votes_of(Seq::<S>::empty(), threshold), gate.window()),
{
    assert(votes_of(Seq::<S>::empty(), threshold) =~= Seq::<bool>::empty());
}

} // verus!
