//! The loop's state and its transitions, as plain values.

use vstd::prelude::*;
use crate::event::{EventKind, WindowEvent, WindowId};
use crate::policy::{
    lemma_merged_all_is_most_urgent, merged, merged_all, tightens, update_control_flow, Decision,
    WakePolicy,
};

verus! {

/// What the loop carries from one event to the next.
#[derive(Clone, Copy, Debug, PartialEq, Eq, Structural)]
pub struct LoopState {
    /// The wake decision as it stands.
    pub decision: Decision,
    /// The window whose redraw votes replace the decision instead of merely
    /// tightening it; `None` until a window has redrawn.
    pub control_flow_source: Option<WindowId>,
    /// The close latch: set by a close request, never cleared.
    pub close_requested: bool,
}

/// How far a loop has come on its way to the end.
#[derive(Clone, Copy, Debug, PartialEq, Eq, Structural)]
pub enum Phase {
    /// Nobody has asked the loop to close, and it has not terminated.
    Running,
    /// The close latch is set; the loop terminates at the next batch boundary.
    CloseRequested,
    /// The decision is `Terminate`.
    Terminated,
}

impl Phase {
    /// The place of a phase in the order in which a loop passes through them.
    pub open spec fn rank(self) -> nat {
        match self {
            Phase::Running => 0,
            Phase::CloseRequested => 1,
            Phase::Terminated => 2,
        }
    }
}

/// What the caller does for an event, beside the changes to the loop's state.
#[derive(Clone, Copy, Debug, PartialEq, Eq, Structural)]
pub enum Action {
    /// Nothing.
    Nothing,
    /// Hand the event to the window, after asking it to redraw if
    /// `redraw_first` is set.
    Deliver { window_id: WindowId, redraw_first: bool },
    /// Ask every registered window whether it needs a redraw, and request one
    /// for each that does.
    RequestRedraws,
    /// Let the window redraw, and report its vote with
    /// [`LoopState::on_redraw`].
    Redraw(WindowId),
}

/// One event as the loop lived it: the event's kind, and what the
/// participants answered.
pub struct Dispatch {
    /// The kind of the event.
    pub kind: EventKind,
    /// The votes of the global handlers, in the order of their registration.
    pub votes: Seq<WakePolicy>,
    /// The vote of the window that redrew; read only where the event is a
    /// `RedrawRequested`.
    pub redraw: WakePolicy,
}

impl LoopState {
    /// The state in which a loop starts: no deadline, no source, latch open.
    pub open spec fn initial() -> LoopState {
        LoopState { decision: Decision::Wait, control_flow_source: None, close_requested: false }
    }

    /// Whether the exit callback is due: the decision is `Terminate`.
    pub open spec fn exit_due(self) -> bool {
        self.decision == Decision::Terminate
    }

    /// The phase that the loop is in.
    pub open spec fn phase_of(self) -> Phase {
        if self.exit_due() {
            Phase::Terminated
        } else if self.close_requested {
            Phase::CloseRequested
        } else {
            Phase::Running
        }
    }

    /// The state after a global handler has cast `vote`.
    pub open spec fn after_vote(self, vote: WakePolicy) -> LoopState {
        LoopState { decision: merged(self.decision, vote), ..self }
    }

    /// The state after the global handlers have cast `votes`, first to last.
    pub open spec fn after_votes(self, votes: Seq<WakePolicy>) -> LoopState {
        LoopState { decision: merged_all(self.decision, votes), ..self }
    }

    /// The state after an event of the given kind, the votes not counted.
    pub open spec fn after_event(self, kind: EventKind) -> LoopState {
        match kind {
            EventKind::WindowEvent { window_id, event } => if event.requests_close() {
                LoopState { close_requested: true, ..self }
            } else {
                self
            },
            EventKind::MainEventsCleared | EventKind::RedrawEventsCleared => if self.close_requested {
                LoopState { decision: Decision::Terminate, ..self }
            } else {
                self
            },
            _ => self,
        }
    }

    /// What the caller does for an event of the given kind.
    pub open spec fn action_for(self, kind: EventKind) -> Action {
        match kind {
            EventKind::WindowEvent { window_id, event } => if event.requests_close() {
                Action::Nothing
            } else {
                Action::Deliver { window_id, redraw_first: event == WindowEvent::Resized }
            },
            EventKind::MainEventsCleared => if self.close_requested {
                Action::Nothing
            } else {
                Action::RequestRedraws
            },
            EventKind::RedrawRequested(window_id) => Action::Redraw(window_id),
            _ => Action::Nothing,
        }
    }

    /// Whether the redraw votes of `window_id` replace the decision outright:
    /// it is the source, or no window has redrawn yet.
    pub open spec fn is_source(self, window_id: WindowId) -> bool {
        self.control_flow_source is None || self.control_flow_source == Some(window_id)
    }

    /// Whether the redraw vote `vote` of `window_id` becomes the decision.
    pub open spec fn redraw_wins(self, window_id: WindowId, vote: WakePolicy) -> bool {
        !self.exit_due() && (self.is_source(window_id) || tightens(self.decision, vote))
    }

    /// The state after `window_id` has redrawn and cast `vote`.
    pub open spec fn after_redraw(self, window_id: WindowId, vote: WakePolicy) -> LoopState {
        if self.redraw_wins(window_id, vote) {
            LoopState {
                decision: vote.decision(),
                control_flow_source: Some(window_id),
                ..self
            }
        } else {
            self
        }
    }

    /// The state after one whole event: the handlers' votes are merged in
    /// first, then the event itself is applied.
    pub open spec fn after_dispatch(self, dispatch: Dispatch) -> LoopState {
        let voted = self.after_votes(dispatch.votes);
        match dispatch.kind {
            EventKind::RedrawRequested(window_id) => voted.after_redraw(window_id, dispatch.redraw),
            _ => voted.after_event(dispatch.kind),
        }
    }

    /// The state after each event of `trace`, first to last.
    pub open spec fn after_run(self, trace: Seq<Dispatch>) -> LoopState
        decreases trace.len(),
    {
        if trace.len() == 0 {
            self
        } else {
            self.after_run(trace.drop_last()).after_dispatch(trace.last())
        }
    }

    /// Whether the exit callback is still held after `trace`, where `armed`
    /// says whether one was held before it: the callback leaves at the end of
    /// the first event after which the decision is `Terminate`.
    pub open spec fn armed_after(self, armed: bool, trace: Seq<Dispatch>) -> bool
        decreases trace.len(),
    {
        if trace.len() == 0 {
            armed
        } else {
            self.armed_after(armed, trace.drop_last()) && !self.after_run(trace).exit_due()
        }
    }

    /// Whether the exit callback fires at the end of the last event of
    /// `trace`.
    pub open spec fn fires_at_end(self, armed: bool, trace: Seq<Dispatch>) -> bool {
        trace.len() > 0 && self.armed_after(armed, trace.drop_last()) && self.after_run(
            trace,
        ).exit_due()
    }

    /// How often the exit callback fires in the course of `trace`.
    pub open spec fn exits_fired(self, armed: bool, trace: Seq<Dispatch>) -> nat
        decreases trace.len(),
    {
        if trace.len() == 0 {
            0
        } else if self.fires_at_end(armed, trace) {
            self.exits_fired(armed, trace.drop_last()) + 1
        } else {
            self.exits_fired(armed, trace.drop_last())
        }
    }

    /// The state in which a loop starts.
    pub fn new() -> (state: LoopState)
        ensures
            state == LoopState::initial(),
    {
        LoopState { decision: Decision::Wait, control_flow_source: None, close_requested: false }
    }

    /// Whether the exit callback is due.
    pub fn should_exit(&self) -> (due: bool)
        ensures
            due == self.exit_due(),
    {
        self.decision == Decision::Terminate
    }

    /// The phase that the loop is in.
    pub fn phase(&self) -> (phase: Phase)
        ensures
            phase == self.phase_of(),
    {
        if self.should_exit() {
            Phase::Terminated
        } else if self.close_requested {
            Phase::CloseRequested
        } else {
            Phase::Running
        }
    }

    /// Merges the vote of a global handler into the decision. Returns true if
    /// the vote replaced it.
    pub fn on_handler_vote(&mut self, vote: WakePolicy) -> (replaced: bool)
        ensures
            *final(self) == old(self).after_vote(vote),
            replaced == tightens(old(self).decision, vote),
    {
        update_control_flow(&mut self.decision, vote)
    }

    /// Takes note of an event and says what the caller is to do for it.
    pub fn on_event(&mut self, kind: &EventKind) -> (action: Action)
        ensures
            *final(self) == old(self).after_event(*kind),
            action == old(self).action_for(*kind),
    {
        match kind {
            EventKind::WindowEvent { window_id, event } => {
                if event.is_close_request() {
                    self.close_requested = true;
                    Action::Nothing
                } else {
                    Action::Deliver {
                        window_id: *window_id,
                        redraw_first: *event == WindowEvent::Resized,
                    }
                }
            },
            EventKind::MainEventsCleared => {
                if self.close_requested {
                    self.decision = Decision::Terminate;
                    Action::Nothing
                } else {
                    Action::RequestRedraws
                }
            },
            EventKind::RedrawRequested(window_id) => Action::Redraw(*window_id),
            EventKind::RedrawEventsCleared => {
                if self.close_requested {
                    self.decision = Decision::Terminate;
                }
                Action::Nothing
            },
            EventKind::Other => Action::Nothing,
        }
    }

    /// Applies the vote that `window_id` cast by redrawing. The source's vote
    /// replaces the decision; any other window's vote is merged in, and that
    /// window becomes the source if its vote wins. Nothing changes once the
    /// decision is `Terminate`. Returns true if the vote became the decision.
    pub fn on_redraw(&mut self, window_id: WindowId, vote: WakePolicy) -> (won: bool)
        ensures
            *final(self) == old(self).after_redraw(window_id, vote),
            won == old(self).redraw_wins(window_id, vote),
    {
        if self.decision == Decision::Terminate {
            return false;
        }
        let is_source = match self.control_flow_source {
            None => true,
            Some(source) => source == window_id,
        };
        if is_source {
            self.decision = Decision::from(vote);
            self.control_flow_source = Some(window_id);
            true
        } else if update_control_flow(&mut self.decision, vote) {
            self.control_flow_source = Some(window_id);
            true
        } else {
            false
        }
    }
}

/// Termination is monotonic: once the decision is `Terminate`, no event and no
/// vote changes it.
pub proof fn lemma_terminate_persists(state: LoopState, dispatch: Dispatch)
    requires
        state.exit_due(),
    ensures
        state.after_dispatch(dispatch).exit_due(),
{
    lemma_merged_all_is_most_urgent(state.decision, dispatch.votes);
}

/// A `Terminate` vote, from a global handler or from a window that redraws,
/// makes the decision `Terminate` by the end of its event.
pub proof fn lemma_terminate_vote_wins(state: LoopState, dispatch: Dispatch)
    requires
        dispatch.votes.contains(WakePolicy::Terminate) || (dispatch.kind is RedrawRequested
            && dispatch.redraw == WakePolicy::Terminate),
    ensures
        state.after_dispatch(dispatch).exit_due(),
{
    lemma_merged_all_is_most_urgent(state.decision, dispatch.votes);
    if dispatch.votes.contains(WakePolicy::Terminate) {
        let i = choose|i: int|
            0 <= i < dispatch.votes.len() && dispatch.votes[i] == WakePolicy::Terminate;
        assert(merged_all(state.decision, dispatch.votes).urgency()
            <= dispatch.votes[i].urgency());
    }
}

/// Once the decision is `Terminate` at some point of a run, it is `Terminate`
/// at every later point.
pub proof fn lemma_terminate_persists_over_run(
    state: LoopState,
    trace: Seq<Dispatch>,
    at: int,
    later: int,
)
    requires
        0 <= at <= later <= trace.len(),
        state.after_run(trace.take(at)).exit_due(),
    ensures
        state.after_run(trace.take(later)).exit_due(),
    decreases later - at,
{
    if at < later {
        lemma_terminate_persists_over_run(state, trace, at, later - 1);
        let upto = trace.take(later);
        assert(upto.drop_last() =~= trace.take(later - 1));
        lemma_terminate_persists(state.after_run(trace.take(later - 1)), upto.last());
    }
}

/// A loop never returns to an earlier phase.
pub proof fn lemma_phase_never_goes_back(state: LoopState, dispatch: Dispatch)
    ensures
        state.phase_of().rank() <= state.after_dispatch(dispatch).phase_of().rank(),
{
    lemma_close_latch(state, dispatch);
    if state.exit_due() {
        lemma_terminate_persists(state, dispatch);
    }
}

/// A window that is not the source can only tighten the decision: its vote
/// wins exactly when it is strictly more urgent, so a deadline yields to a
/// strictly earlier one and to `Immediate`, and never to a later one.
pub proof fn lemma_other_window_only_tightens(
    state: LoopState,
    window_id: WindowId,
    vote: WakePolicy,
)
    requires
        !state.is_source(window_id),
    ensures
        state.redraw_wins(window_id, vote) <==> vote.urgency() < state.decision.urgency(),
        state.after_redraw(window_id, vote).decision == merged(state.decision, vote),
        state.after_redraw(window_id, vote).decision.urgency() <= state.decision.urgency(),
        state.decision matches Decision::At(t1) ==> {
            &&& vote matches WakePolicy::At(t2) ==> (state.redraw_wins(window_id, vote) <==> t2
                < t1)
            &&& vote == WakePolicy::Immediate ==> state.after_redraw(window_id, vote).decision
                == Decision::Immediate
        },
{
}

/// The vote of the source replaces the decision outright, even where it is
/// less urgent, unless the decision is `Terminate` already. The first window
/// to redraw counts as the source.
pub proof fn lemma_source_overrides(state: LoopState, window_id: WindowId, vote: WakePolicy)
    requires
        state.is_source(window_id),
    ensures
        !state.exit_due() ==> state.after_redraw(window_id, vote) == (LoopState {
            decision: vote.decision(),
            control_flow_source: Some(window_id),
            close_requested: state.close_requested,
        }),
        state.exit_due() ==> state.after_redraw(window_id, vote) == state,
{
}

/// The window whose vote became the decision is the source from then on.
pub proof fn lemma_winner_becomes_source(state: LoopState, window_id: WindowId, vote: WakePolicy)
    ensures
        state.redraw_wins(window_id, vote) ==> state.after_redraw(
            window_id,
            vote,
        ).control_flow_source == Some(window_id),
        !state.redraw_wins(window_id, vote) ==> state.after_redraw(window_id, vote) == state,
{
}

/// The close latch is set by a close request and by nothing else, and no
/// event clears it.
pub proof fn lemma_close_latch(state: LoopState, dispatch: Dispatch)
    ensures
        state.after_dispatch(dispatch).close_requested == (state.close_requested
            || dispatch.kind.requests_close()),
{
}

/// Once the latch is set, the end of a batch forces `Terminate`, whatever
/// was voted in that batch.
pub proof fn lemma_close_forces_terminate(state: LoopState, dispatch: Dispatch)
    requires
        state.close_requested,
        dispatch.kind == EventKind::MainEventsCleared || dispatch.kind
            == EventKind::RedrawEventsCleared,
    ensures
        state.after_dispatch(dispatch).exit_due(),
{
}

/// The latch, once set at some point of a run, is set at every later point.
pub proof fn lemma_close_latch_over_run(
    state: LoopState,
    trace: Seq<Dispatch>,
    at: int,
    later: int,
)
    requires
        0 <= at <= later <= trace.len(),
        state.after_run(trace.take(at)).close_requested,
    ensures
        state.after_run(trace.take(later)).close_requested,
    decreases later - at,
{
    if at < later {
        lemma_close_latch_over_run(state, trace, at, later - 1);
        let upto = trace.take(later);
        assert(upto.drop_last() =~= trace.take(later - 1));
        lemma_close_latch(state.after_run(trace.take(later - 1)), upto.last());
    }
}

/// Close wins: where an event of a run asks for the loop to close, the
/// decision is `Terminate` after every batch boundary that follows it, even
/// if the batch held `Immediate` votes.
pub proof fn lemma_close_wins_at_batch_end(
    state: LoopState,
    trace: Seq<Dispatch>,
    close_at: int,
    boundary_at: int,
)
    requires
        0 <= close_at < boundary_at < trace.len(),
        trace[close_at].kind.requests_close(),
        trace[boundary_at].kind == EventKind::MainEventsCleared || trace[boundary_at].kind
            == EventKind::RedrawEventsCleared,
    ensures
        state.after_run(trace.take(boundary_at + 1)).exit_due(),
{
    let closing = trace.take(close_at + 1);
    assert(closing.drop_last() =~= trace.take(close_at));
    lemma_close_latch(state.after_run(trace.take(close_at)), closing.last());
    lemma_close_latch_over_run(state, trace, close_at + 1, boundary_at);
    let upto = trace.take(boundary_at + 1);
    assert(upto.drop_last() =~= trace.take(boundary_at));
    lemma_close_forces_terminate(state.after_run(trace.take(boundary_at)), upto.last());
}

/// The exit callback fires at most once in a run, and only at the end of an
/// event after which the decision is `Terminate`. It fires exactly once if
/// one was held at the start and the run reaches `Terminate`; if none was
/// held, it never fires.
pub proof fn lemma_exit_fires_once(state: LoopState, armed: bool, trace: Seq<Dispatch>)
    ensures
        state.exits_fired(armed, trace) <= 1,
        state.exits_fired(armed, trace) == 1 <==> armed && trace.len() > 0 && state.after_run(
            trace,
        ).exit_due(),
        state.armed_after(armed, trace) <==> armed && state.exits_fired(armed, trace) == 0,
        !armed ==> state.exits_fired(armed, trace) == 0,
    decreases trace.len(),
{
    if trace.len() > 0 {
        let before = trace.drop_last();
        lemma_exit_fires_once(state, armed, before);
        if before.len() > 0 && state.after_run(before).exit_due() {
            lemma_terminate_persists(state.after_run(before), trace.last());
        }
    }
}

} // verus!
