use gelatin::policy::{update_control_flow, Decision, WakePolicy};

fn merge(current: Decision, candidate: WakePolicy) -> (Decision, bool) {
    let mut decision = current;
    let replaced = update_control_flow(&mut decision, candidate);
    (decision, replaced)
}

#[test]
fn terminate_is_never_replaced() {
    assert_eq!(merge(Decision::Terminate, WakePolicy::Terminate), (Decision::Terminate, false));
    assert_eq!(merge(Decision::Terminate, WakePolicy::Immediate), (Decision::Terminate, false));
    assert_eq!(merge(Decision::Terminate, WakePolicy::At(0)), (Decision::Terminate, false));
    assert_eq!(merge(Decision::Terminate, WakePolicy::At(u64::MAX)), (Decision::Terminate, false));
}

#[test]
fn terminate_vote_wins_over_everything_else() {
    assert_eq!(merge(Decision::Wait, WakePolicy::Terminate), (Decision::Terminate, true));
    assert_eq!(merge(Decision::At(7), WakePolicy::Terminate), (Decision::Terminate, true));
    assert_eq!(merge(Decision::Immediate, WakePolicy::Terminate), (Decision::Terminate, true));
}

#[test]
fn immediate_vote_wins_over_deadline_and_wait() {
    assert_eq!(merge(Decision::Wait, WakePolicy::Immediate), (Decision::Immediate, true));
    assert_eq!(merge(Decision::At(0), WakePolicy::Immediate), (Decision::Immediate, true));
    assert_eq!(merge(Decision::At(u64::MAX), WakePolicy::Immediate), (Decision::Immediate, true));
}

#[test]
fn immediate_vote_on_immediate_is_no_change() {
    assert_eq!(merge(Decision::Immediate, WakePolicy::Immediate), (Decision::Immediate, false));
}

#[test]
fn deadline_wins_only_if_strictly_earlier() {
    assert_eq!(merge(Decision::At(100), WakePolicy::At(99)), (Decision::At(99), true));
    assert_eq!(merge(Decision::At(100), WakePolicy::At(100)), (Decision::At(100), false));
    assert_eq!(merge(Decision::At(100), WakePolicy::At(101)), (Decision::At(100), false));
    assert_eq!(merge(Decision::At(1), WakePolicy::At(0)), (Decision::At(0), true));
    assert_eq!(merge(Decision::At(0), WakePolicy::At(0)), (Decision::At(0), false));
    assert_eq!(
        merge(Decision::At(u64::MAX), WakePolicy::At(u64::MAX - 1)),
        (Decision::At(u64::MAX - 1), true)
    );
}

#[test]
fn deadline_always_wins_over_wait() {
    assert_eq!(merge(Decision::Wait, WakePolicy::At(0)), (Decision::At(0), true));
    assert_eq!(merge(Decision::Wait, WakePolicy::At(42)), (Decision::At(42), true));
    assert_eq!(merge(Decision::Wait, WakePolicy::At(u64::MAX)), (Decision::At(u64::MAX), true));
}

#[test]
fn deadline_never_wins_over_immediate() {
    assert_eq!(merge(Decision::Immediate, WakePolicy::At(0)), (Decision::Immediate, false));
    assert_eq!(merge(Decision::Immediate, WakePolicy::At(9)), (Decision::Immediate, false));
}

#[test]
fn vote_converts_to_the_decision_that_grants_it() {
    assert_eq!(Decision::from(WakePolicy::Terminate), Decision::Terminate);
    assert_eq!(Decision::from(WakePolicy::Immediate), Decision::Immediate);
    assert_eq!(Decision::from(WakePolicy::At(17)), Decision::At(17));
    let decision: Decision = WakePolicy::At(3).into();
    assert_eq!(decision, Decision::At(3));
}

fn merge_all(current: Decision, votes: &[WakePolicy]) -> Decision {
    let mut decision = current;
    for vote in votes {
        update_control_flow(&mut decision, *vote);
    }
    decision
}

#[test]
fn merge_of_many_votes_is_the_most_urgent() {
    let votes = [WakePolicy::At(30), WakePolicy::At(10), WakePolicy::At(20)];
    assert_eq!(merge_all(Decision::Wait, &votes), Decision::At(10));
    assert_eq!(merge_all(Decision::At(5), &votes), Decision::At(5));
    let votes = [WakePolicy::At(30), WakePolicy::Immediate, WakePolicy::At(1)];
    assert_eq!(merge_all(Decision::Wait, &votes), Decision::Immediate);
    assert_eq!(merge_all(Decision::Wait, &[]), Decision::Wait);
}

#[test]
fn merge_does_not_depend_on_the_order_of_votes() {
    let votes = [
        WakePolicy::At(30),
        WakePolicy::Immediate,
        WakePolicy::At(10),
        WakePolicy::At(10),
    ];
    let starts = [Decision::Wait, Decision::At(20), Decision::Immediate, Decision::Terminate];
    for start in starts {
        let expected = merge_all(start, &votes);
        for a in 0..4 {
            for b in 0..4 {
                let mut shuffled = votes;
                shuffled.swap(a, b);
                assert_eq!(merge_all(start, &shuffled), expected);
            }
        }
    }
    let two = [WakePolicy::At(4), WakePolicy::Terminate];
    let swapped = [WakePolicy::Terminate, WakePolicy::At(4)];
    assert_eq!(merge_all(Decision::Wait, &two), merge_all(Decision::Wait, &swapped));
}

#[test]
fn termination_is_monotonic_over_votes() {
    let votes = [
        WakePolicy::At(5),
        WakePolicy::Terminate,
        WakePolicy::Immediate,
        WakePolicy::At(0),
        WakePolicy::Terminate,
        WakePolicy::At(9),
    ];
    let mut decision = Decision::Wait;
    let mut seen_terminate = false;
    for vote in votes {
        update_control_flow(&mut decision, vote);
        if vote == WakePolicy::Terminate {
            seen_terminate = true;
        }
        if seen_terminate {
            assert_eq!(decision, Decision::Terminate);
        } else {
            assert_ne!(decision, Decision::Terminate);
        }
    }
}

#[test]
fn merging_a_vote_twice_changes_nothing_more() {
    let mut decision = Decision::At(50);
    assert!(update_control_flow(&mut decision, WakePolicy::At(40)));
    assert!(!update_control_flow(&mut decision, WakePolicy::At(40)));
    assert_eq!(decision, Decision::At(40));
}
