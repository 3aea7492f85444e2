//! Choice of a prompt target from per-target scores.
//!
//! Scores are integers that order as the similarities they stand for; only
//! their order matters here. In fixed-point ten-thousandths a similarity of
//! 0.8 is written 8000.

use vstd::prelude::*;

verus! {

/// The default threshold, 0.8, in fixed-point ten-thousandths.
pub const DEFAULT_THRESHOLD: i64 = 8000;

/// The index of the first highest score of a non-empty sequence.
pub open spec fn best_index(s: Seq<i64>) -> int
    decreases s.len(),
{
    if s.len() <= 1 {
        0
    } else {
        let b = best_index(s.drop_last());
        if s.last() > s[b] {
            s.len() - 1
        } else {
            b
        }
    }
}

/// `i` holds the highest score, and every earlier index holds a lower one.
pub open spec fn is_first_argmax(s: Seq<i64>, i: int) -> bool {
    &&& 0 <= i < s.len()
    &&& forall|j: int| 0 <= j < s.len() ==> s[j] <= s[i]
    &&& forall|j: int| 0 <= j < i ==> s[j] < s[i]
}

/// The target chosen from `s` with threshold `t`: the first arg-max, if its
/// score reaches the threshold.
pub open spec fn selected(s: Seq<i64>, t: i64) -> Option<int> {
    if s.len() == 0 {
        None
    } else if s[best_index(s)] >= t {
        Some(best_index(s))
    } else {
        None
    }
}

proof fn lemma_best_index(s: Seq<i64>)
    requires
        s.len() > 0,
    ensures
        is_first_argmax(s, best_index(s)),
    decreases s.len(),
{
    if s.len() > 1 {
        let p = s.drop_last();
        lemma_best_index(p);
        assert forall|j: int| 0 <= j < p.len() implies s[j] == p[j] by {}
    }
}

/// The chosen target is the first arg-max of the scores and reaches the
/// threshold; when none is chosen, every score is under the threshold.
pub proof fn lemma_selected_is_argmax(s: Seq<i64>, t: i64)
    ensures
        match selected(s, t) {
            Some(i) => is_first_argmax(s, i) && s[i] >= t,
            None => forall|j: int| 0 <= j < s.len() ==> s[j] < t,
        },
{
    if s.len() > 0 {
        lemma_best_index(s);
    }
}

/// Raising the threshold never routes a request that a lower threshold would
/// not route, and never changes the target of one that stays routed.
pub proof fn lemma_threshold_monotone(s: Seq<i64>, t1: i64, t2: i64)
    requires
        t1 <= t2,
    ensures
        selected(s, t2) is Some ==> selected(s, t1) == selected(s, t2),
{
}

/// Picks the first highest score, provided it reaches `threshold`.
pub fn select_target(scores: &Vec<i64>, threshold: i64) -> (r: Option<usize>)
    ensures
        match r {
            Some(i) => selected(scores@, threshold) == Some(i as int),
            None => selected(scores@, threshold) is None,
        },
{
    if scores.len() == 0 {
        return None;
    }
    let mut best: usize = 0;
    let mut i: usize = 1;
    while i < scores.len()
        invariant
            1 <= i <= scores@.len(),
            best as int == best_index(scores@.take(i as int)),
            best < i,
        decreases scores@.len() - i,
    {
        assert(scores@.take(i as int + 1).drop_last() =~= scores@.take(i as int));
        if scores[i] > scores[best] {
            best = i;
        }
        i = i + 1;
    }
    assert(scores@.take(scores@.len() as int) =~= scores@);
    if scores[best] >= threshold {
        Some(best)
    } else {
        None
    }
}

/// Combines the two routing signals: a target chosen by embedding similarity
/// wins; otherwise the one chosen by intent; otherwise the configured default.
pub open spec fn combined(embedding: Option<usize>, intent: Option<usize>, fallback: Option<usize>) -> Option<usize> {
    if embedding is Some {
        embedding
    } else if intent is Some {
        intent
    } else {
        fallback
    }
}

/// Applies the precedence between the routing signals.
pub fn combine_routes(embedding: Option<usize>, intent: Option<usize>, fallback: Option<usize>) -> (r: Option<usize>)
    ensures
        r == combined(embedding, intent, fallback),
{
    match embedding {
        Some(e) => Some(e),
        None => match intent {
            Some(i) => Some(i),
            None => fallback,
        },
    }
}

} // verus!
