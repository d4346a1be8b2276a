//! Wake policies, the loop's decision, and the rule that merges a vote into it.

use vstd::prelude::*;

verus! {

/// A reading of the monotonic clock that deadlines are measured on.
pub type Timestamp = u64;

/// A participant's vote on when the event loop should next run.
#[derive(Clone, Copy, Debug, PartialEq, Eq, Structural)]
pub enum WakePolicy {
    /// Stop the loop for good.
    Terminate,
    /// Run again as soon as possible.
    Immediate,
    /// Sleep until the given time, then run again.
    At(Timestamp),
}

/// What the loop does once the current event has been handled.
#[derive(Clone, Copy, Debug, PartialEq, Eq, Structural)]
pub enum Decision {
    /// Sleep until the platform delivers another event.
    Wait,
    /// Sleep until the given time at the latest.
    At(Timestamp),
    /// Run again without sleeping.
    Immediate,
    /// Stop.
    Terminate,
}

impl WakePolicy {
    /// The decision that grants this vote in full.
    pub open spec fn decision(self) -> Decision {
        match self {
            WakePolicy::Terminate => Decision::Terminate,
            WakePolicy::Immediate => Decision::Immediate,
            WakePolicy::At(t) => Decision::At(t),
        }
    }

    /// See [`Decision::urgency`].
    pub open spec fn urgency(self) -> int {
        self.decision().urgency()
    }

}

impl From<WakePolicy> for Decision {
    /// The decision that grants the vote in full.
    fn from(vote: WakePolicy) -> (decision: Decision) {
        match vote {
            WakePolicy::Terminate => Decision::Terminate,
            WakePolicy::Immediate => Decision::Immediate,
            WakePolicy::At(t) => Decision::At(t),
        }
    }
}

impl vstd::std_specs::convert::FromSpecImpl<WakePolicy> for Decision {
    open spec fn obeys_from_spec() -> bool {
        true
    }

    open spec fn from_spec(vote: WakePolicy) -> Decision {
        vote.decision()
    }
}

impl Decision {
    /// Where a decision stands on the line of wake times: the smaller the
    /// number, the sooner the loop acts. Deadlines stand at their own time,
    /// `Immediate` before every deadline, `Terminate` before `Immediate`, and
    /// `Wait` after every deadline.
    pub open spec fn urgency(self) -> int {
        match self {
            Decision::Terminate => -2,
            Decision::Immediate => -1,
            Decision::At(t) => t as int,
            Decision::Wait => u64::MAX as int + 1,
        }
    }
}

/// Whether the vote `candidate` replaces the decision `current`.
pub open spec fn tightens(current: Decision, candidate: WakePolicy) -> bool {
    match (current, candidate) {
        (Decision::Terminate, _) => false,
        (_, WakePolicy::Terminate) => true,
        (Decision::Immediate, _) => false,
        (_, WakePolicy::Immediate) => true,
        (Decision::At(t_old), WakePolicy::At(t_new)) => t_new < t_old,
        (Decision::Wait, WakePolicy::At(_)) => true,
    }
}

/// The decision after the vote `candidate` has been merged into `current`.
pub open spec fn merged(current: Decision, candidate: WakePolicy) -> Decision {
    if tightens(current, candidate) {
        candidate.decision()
    } else {
        current
    }
}

/// The decision after each of `votes` has been merged in, first to last.
pub open spec fn merged_all(current: Decision, votes: Seq<WakePolicy>) -> Decision
    decreases votes.len(),
{
    if votes.len() == 0 {
        current
    } else {
        merged(merged_all(current, votes.drop_last()), votes.last())
    }
}

/// Merges the vote `candidate` into `current`. Returns true if `current` was
/// replaced by the vote.
pub fn update_control_flow(current: &mut Decision, candidate: WakePolicy) -> (replaced: bool)
    ensures
        replaced == tightens(*old(current), candidate),
        *final(current) == merged(*old(current), candidate),
{
    let replaced = match (*current, candidate) {
        (Decision::Terminate, _) => false,
        (_, WakePolicy::Terminate) => true,
        (Decision::Immediate, _) => false,
        (_, WakePolicy::Immediate) => true,
        (Decision::At(t_old), WakePolicy::At(t_new)) => t_new < t_old,
        (Decision::Wait, WakePolicy::At(_)) => true,
    };
    if replaced {
        *current = Decision::from(candidate);
    }
    replaced
}

/// A vote replaces the decision exactly when it is strictly more urgent.
pub proof fn lemma_tightens_iff_more_urgent(current: Decision, candidate: WakePolicy)
    ensures
        tightens(current, candidate) <==> candidate.urgency() < current.urgency(),
{
}

/// No two decisions are equally urgent.
pub proof fn lemma_urgency_tells_decisions_apart(a: Decision, b: Decision)
    ensures
        a.urgency() == b.urgency() <==> a == b,
{
}

/// Merging keeps the more urgent of the decision and the vote, and the
/// decision itself where they are equally urgent.
pub proof fn lemma_merged_is_more_urgent_of_two(current: Decision, candidate: WakePolicy)
    ensures
        merged(current, candidate).urgency() == vstd::math::min(
            current.urgency(),
            candidate.urgency(),
        ),
        merged(current, candidate) == current || merged(current, candidate)
            == candidate.decision(),
{
}

/// A merge never relaxes the decision.
pub proof fn lemma_merged_never_relaxes(current: Decision, candidate: WakePolicy)
    ensures
        merged(current, candidate).urgency() <= current.urgency(),
{
}

/// Two votes may be merged in either order.
pub proof fn lemma_merge_commutes(current: Decision, a: WakePolicy, b: WakePolicy)
    ensures
        merged(merged(current, a), b) == merged(merged(current, b), a),
{
}

/// Merging a vote a second time changes nothing.
pub proof fn lemma_merge_idempotent(current: Decision, candidate: WakePolicy)
    ensures
        merged(merged(current, candidate), candidate) == merged(current, candidate),
        !tightens(merged(current, candidate), candidate),
{
}

/// The merge of a sequence of votes is the most urgent of the starting
/// decision and the votes: it is one of them, and none of them is more
/// urgent.
pub proof fn lemma_merged_all_is_most_urgent(current: Decision, votes: Seq<WakePolicy>)
    ensures
        merged_all(current, votes).urgency() <= current.urgency(),
        forall|i: int|
            0 <= i < votes.len() ==> merged_all(current, votes).urgency()
                <= (#[trigger] votes[i]).urgency(),
        merged_all(current, votes) == current || exists|i: int|
            0 <= i < votes.len() && merged_all(current, votes) == (#[trigger] votes[i]).decision(),
    decreases votes.len(),
{
    if votes.len() > 0 {
        let front = votes.drop_last();
        lemma_merged_all_is_most_urgent(current, front);
        let so_far = merged_all(current, front);
        let all = merged_all(current, votes);
        assert forall|i: int| 0 <= i < votes.len() implies all.urgency() <= (
        #[trigger] votes[i]).urgency() by {
            if i < front.len() {
                assert(front[i] == votes[i]);
            }
        }
        if all != current {
            if all == so_far {
                let i = choose|i: int|
                    0 <= i < front.len() && so_far == (#[trigger] front[i]).decision();
                assert(votes[i] == front[i]);
            } else {
                assert(all == votes[votes.len() - 1].decision());
            }
        }
    }
}

/// The order in which votes are cast does not matter: two sequences that
/// hold the same votes, each as often as the other, merge to one decision.
pub proof fn lemma_merged_all_ignores_order(
    current: Decision,
    votes: Seq<WakePolicy>,
    shuffled: Seq<WakePolicy>,
)
    requires
        votes.to_multiset() == shuffled.to_multiset(),
    ensures
        merged_all(current, votes) == merged_all(current, shuffled),
{
    let a = merged_all(current, votes);
    let b = merged_all(current, shuffled);
    lemma_merged_all_is_most_urgent(current, votes);
    lemma_merged_all_is_most_urgent(current, shuffled);
    votes.to_multiset_ensures();
    shuffled.to_multiset_ensures();
    assert(b.urgency() <= a.urgency()) by {
        if a != current {
            let i = choose|i: int| 0 <= i < votes.len() && a == (#[trigger] votes[i]).decision();
            assert(votes.contains(votes[i]));
            assert(shuffled.to_multiset().count(votes[i]) > 0);
            assert(shuffled.contains(votes[i]));
            let j = choose|j: int| 0 <= j < shuffled.len() && shuffled[j] == votes[i];
            assert(b.urgency() <= shuffled[j].urgency());
        }
    }
    assert(a.urgency() <= b.urgency()) by {
        if b != current {
            let i = choose|i: int|
                0 <= i < shuffled.len() && b == (#[trigger] shuffled[i]).decision();
            assert(shuffled.contains(shuffled[i]));
            assert(votes.to_multiset().count(shuffled[i]) > 0);
            assert(votes.contains(shuffled[i]));
            let j = choose|j: int| 0 <= j < votes.len() && votes[j] == shuffled[i];
            assert(a.urgency() <= votes[j].urgency());
        }
    }
    lemma_urgency_tells_decisions_apart(a, b);
}

/// Termination is monotonic: once the decision is `Terminate`, or one of the
/// votes is, the merged decision is `Terminate` after that vote and after
/// every later one, whatever the later votes are.
pub proof fn lemma_terminate_is_sticky(current: Decision, votes: Seq<WakePolicy>, from: int)
    requires
        0 <= from <= votes.len(),
        current == Decision::Terminate || exists|i: int|
            0 <= i < from && #[trigger] votes[i] == WakePolicy::Terminate,
    ensures
        forall|n: int|
            from <= n <= votes.len() ==> #[trigger] merged_all(current, votes.take(n))
                == Decision::Terminate,
{
    assert forall|n: int| from <= n <= votes.len() implies #[trigger] merged_all(
        current,
        votes.take(n),
    ) == Decision::Terminate by {
        let seen = votes.take(n);
        lemma_merged_all_is_most_urgent(current, seen);
        if current != Decision::Terminate {
            let i = choose|i: int| 0 <= i < from && #[trigger] votes[i] == WakePolicy::Terminate;
            assert(seen[i] == votes[i]);
            assert(merged_all(current, seen).urgency() <= seen[i].urgency());
        }
    }
}

} // verus!
