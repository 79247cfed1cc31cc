//! Choosing the best of several completions by their scores.
//!
//! A score is the order key of a completion's mean log-probability per
//! token: a greater key is a better completion. A completion that can
//! never win (one without tokens, or whose mean is not a number above the
//! least finite value) has no key.

use vstd::prelude::*;

verus! {

/// Whether a completion with score `challenger` takes the lead from one
/// with score `leader`: only by a strictly greater key.
pub open spec fn beats(challenger: Option<i64>, leader: Option<i64>) -> bool {
    challenger matches Some(c) && (leader matches Some(l) ==> c > l)
}

/// The index of the winner among `scores`: found by going through them in
/// order and changing the leader only for a completion that beats it.
pub open spec fn winner(scores: Seq<Option<i64>>) -> int
    decreases scores.len(),
{
    if scores.len() <= 1 {
        0
    } else {
        let leader = winner(scores.drop_last());
        if beats(scores.last(), scores[leader]) {
            scores.len() - 1
        } else {
            leader
        }
    }
}

/// Whether `index` is the best of `scores`: it has the greatest key, and
/// of the completions with that key it comes first. If no completion has
/// a key, the first one is the best.
pub open spec fn is_best(scores: Seq<Option<i64>>, index: int) -> bool {
    &&& 0 <= index < scores.len()
    &&& if forall|i: int| 0 <= i < scores.len() ==> (#[trigger] scores[i]) is None {
        index == 0
    } else {
        &&& scores[index] is Some
        &&& forall|i: int|
            0 <= i < scores.len() ==> ((#[trigger] scores[i]) matches Some(key) ==> key
                <= scores[index]->0)
        &&& forall|i: int|
            0 <= i < index ==> ((#[trigger] scores[i]) matches Some(key) ==> key
                < scores[index]->0)
    }
}

/// Best-of selection. Among any scores, not none, the winner is the
/// completion with the greatest key; where several share the greatest key
/// it is the first of them, and no other index is the best.
pub proof fn law_best_of_selection(scores: Seq<Option<i64>>)
    requires
        scores.len() > 0,
    ensures
        is_best(scores, winner(scores)),
        forall|other: int| is_best(scores, other) ==> other == winner(scores),
    decreases scores.len(),
{
    if scores.len() > 1 {
        let before = scores.drop_last();
        law_best_of_selection(before);
        assert(forall|i: int| 0 <= i < before.len() ==> before[i] == scores[i]);
        let leader = winner(before);
        assert(is_best(before, leader));
        if forall|i: int| 0 <= i < before.len() ==> (#[trigger] before[i]) is None {
            if scores.last() is None {
                assert(forall|i: int| 0 <= i < scores.len() ==> (#[trigger] scores[i]) is None);
            } else {
                assert(scores[scores.len() - 1] is Some);
            }
        } else {
            let some = choose|i: int| 0 <= i < before.len() && !((#[trigger] before[i]) is None);
            assert(scores[some] is Some);
        }
        assert(is_best(scores, winner(scores)));
    }
    assert forall|other: int| is_best(scores, other) implies other == winner(scores) by {
        let w = winner(scores);
        if !(forall|i: int| 0 <= i < scores.len() ==> (#[trigger] scores[i]) is None) {
            assert(scores[other] is Some);
            assert(scores[w] is Some);
            if other < w {
                assert(scores[other]->0 < scores[w]->0);
            } else if w < other {
                assert(scores[w]->0 < scores[other]->0);
            }
        }
    }
}

/// The index of the best of `scores`, and 0 if there are none.
pub fn best_index(scores: &Vec<Option<i64>>) -> (index: usize)
    ensures
        index == winner(scores@),
        scores.len() > 0 ==> is_best(scores@, index as int),
{
    let mut best: usize = 0;
    let mut i: usize = 1;
    if scores.len() == 0 {
        return 0;
    }
    assert(scores@.take(1).len() == 1);
    while i < scores.len()
        invariant
            1 <= i <= scores.len(),
            best < i,
            best == winner(scores@.take(i as int)),
        decreases scores.len() - i,
    {
        let lead = match scores[i] {
            Some(challenger) => match scores[best] {
                Some(leader) => challenger > leader,
                None => true,
            },
            None => false,
        };
        proof {
            let upto = scores@.take(i + 1);
            assert(upto.drop_last() =~= scores@.take(i as int));
            assert(upto.last() == scores@[i as int]);
            assert(upto[best as int] == scores@[best as int]);
        }
        if lead {
            best = i;
        }
        i = i + 1;
    }
    proof {
        assert(scores@.take(scores.len() as int) =~= scores@);
        law_best_of_selection(scores@);
    }
    best
}

} // verus!
