//! The registry of windows and handlers, and the dispatcher that feeds them
//! one event at a time.

use std::collections::HashMap;
use std::rc::Rc;
use vstd::prelude::*;
use crate::arbiter::{Action, Dispatch, LoopState};
use crate::event::{Event, EventKind, WindowId};
use crate::policy::{Decision, WakePolicy};

verus! {

/// What the loop asks of a window. The loop only ever calls these methods; it
/// never calls into a window from within a call of that same window.
pub trait Window {
    /// The platform's own event data, which the loop carries through.
    type Payload;

    /// The window's identity, under which it is registered.
    fn get_id(&self) -> WindowId;

    /// Consumes an event that targets this window.
    fn process_event(&self, event: &Event<Self::Payload>);

    /// Whether the window's content is out of date.
    fn redraw_needed(&self) -> bool;

    /// Asks the platform to deliver a `RedrawRequested` for this window.
    fn request_redraw(&self);

    /// Redraws the window, and votes on the next wake.
    fn redraw(&self) -> WakePolicy;
}

/// An observer that sees every event and votes on the next wake.
pub trait EventHandler<P> {
    fn handle(&mut self, event: &Event<P>) -> WakePolicy;
}

/// The participants of a loop that has not started yet.
pub struct Application<W: Window, H: EventHandler<W::Payload>, X> {
    windows: HashMap<WindowId, Rc<W>>,
    global_handlers: Vec<H>,
    at_exit: Option<X>,
}

/// What an [`Application`] holds.
pub struct ApplicationView<W, H, X> {
    /// The registered windows, by identity.
    pub windows: Map<WindowId, Rc<W>>,
    /// The global handlers, in the order of their registration.
    pub global_handlers: Seq<H>,
    /// The exit callback, if one is set.
    pub at_exit: Option<X>,
}

/// A running loop: the participants, and the state of the arbitration.
pub struct Dispatcher<W: Window, H: EventHandler<W::Payload>, X> {
    windows: HashMap<WindowId, Rc<W>>,
    global_handlers: Vec<H>,
    at_exit: Option<X>,
    state: LoopState,
}

/// What a [`Dispatcher`] holds.
pub struct DispatcherView<W, H, X> {
    /// The registered windows, by identity.
    pub windows: Map<WindowId, Rc<W>>,
    /// The global handlers, in the order of their registration.
    pub global_handlers: Seq<H>,
    /// The exit callback, until it has been handed out.
    pub at_exit: Option<X>,
    /// The state of the arbitration.
    pub state: LoopState,
}

impl<W: Window, H: EventHandler<W::Payload>, X> View for Application<W, H, X> {
    type V = ApplicationView<W, H, X>;

    closed spec fn view(&self) -> ApplicationView<W, H, X> {
        ApplicationView {
            windows: self.windows@,
            global_handlers: self.global_handlers@,
            at_exit: self.at_exit,
        }
    }
}

impl<W: Window, H: EventHandler<W::Payload>, X> View for Dispatcher<W, H, X> {
    type V = DispatcherView<W, H, X>;

    closed spec fn view(&self) -> DispatcherView<W, H, X> {
        DispatcherView {
            windows: self.windows@,
            global_handlers: self.global_handlers@,
            at_exit: self.at_exit,
            state: self.state,
        }
    }
}

impl<W, H, X> DispatcherView<W, H, X> {
    /// Whether the loop can handle an event of the given kind: the window
    /// that the event is routed to, if any, is registered.
    pub open spec fn accepts(self, kind: EventKind) -> bool {
        kind.target() matches Some(window_id) ==> self.windows.contains_key(window_id)
    }
}

impl<W: Window, H: EventHandler<W::Payload>, X> Application<W, H, X> {
    /// An application without windows, handlers or exit callback.
    pub fn new() -> (app: Self)
        ensures
            app@ == (ApplicationView::<W, H, X> {
                windows: Map::empty(),
                global_handlers: Seq::empty(),
                at_exit: None,
            }),
    {
        Application { windows: HashMap::new(), global_handlers: Vec::new(), at_exit: None }
    }

    /// Sets the callback that is handed out when the loop terminates, in
    /// place of the one set before; `None` clears it.
    pub fn set_at_exit(&mut self, fun: Option<X>)
        ensures
            final(self)@ == (ApplicationView { at_exit: fun, ..old(self)@ }),
    {
        self.at_exit = fun;
    }

    /// Registers a window under the identity that it reports, in place of any
    /// window registered under that identity before. Returns the identity.
    pub fn register_window(&mut self, window: Rc<W>) -> (window_id: WindowId)
        ensures
            final(self)@ == (ApplicationView {
                windows: old(self)@.windows.insert(window_id, window),
                ..old(self)@
            }),
    {
        let window_id = window.get_id();
        self.windows.insert(window_id, window);
        window_id
    }

    /// Appends a handler that sees every event.
    pub fn add_global_event_handler(&mut self, fun: H)
        ensures
            final(self)@ == (ApplicationView {
                global_handlers: old(self)@.global_handlers.push(fun),
                ..old(self)@
            }),
    {
        self.global_handlers.push(fun);
    }

    /// Whether at least one window is registered.
    pub fn has_windows(&self) -> (any: bool)
        ensures
            any == !self@.windows.is_empty(),
    {
        !self.windows.is_empty()
    }

    /// Starts the loop: the participants move into a dispatcher whose
    /// arbitration is in its initial state. At least one window must be
    /// registered.
    pub fn start_event_loop(self) -> (dispatcher: Dispatcher<W, H, X>)
        requires
            !self@.windows.is_empty(),
        ensures
            dispatcher@ == (DispatcherView {
                windows: self@.windows,
                global_handlers: self@.global_handlers,
                at_exit: self@.at_exit,
                state: LoopState::initial(),
            }),
    {
        Dispatcher {
            windows: self.windows,
            global_handlers: self.global_handlers,
            at_exit: self.at_exit,
            state: LoopState::new(),
        }
    }
}

impl<W: Window, H: EventHandler<W::Payload>, X> Dispatcher<W, H, X> {
    /// The state of the arbitration.
    pub fn state(&self) -> (state: LoopState)
        ensures
            state == self@.state,
    {
        self.state
    }

    /// The wake decision as it stands.
    pub fn control_flow(&self) -> (decision: Decision)
        ensures
            decision == self@.state.decision,
    {
        self.state.decision
    }

    /// Whether a window is registered under `window_id`.
    pub fn is_registered(&self, window_id: WindowId) -> (registered: bool)
        ensures
            registered == self@.windows.contains_key(window_id),
    {
        self.windows.contains_key(&window_id)
    }

    /// Whether the loop can handle an event of the given kind.
    pub fn accepts(&self, kind: &EventKind) -> (accepted: bool)
        ensures
            accepted == self@.accepts(*kind),
    {
        match kind {
            EventKind::WindowEvent { window_id, event } => event.is_close_request()
                || self.is_registered(*window_id),
            EventKind::RedrawRequested(window_id) => self.is_registered(*window_id),
            _ => true,
        }
    }

    /// Handles one event. Every global handler sees it, in the order of
    /// registration, and its vote is merged into the decision. Then the event
    /// is applied: a close request sets the latch; any other window event goes
    /// to its window, after a redraw request if the window was resized; at the
    /// end of the main events every window that needs a redraw gets a request
    /// for one, unless the latch is set; a redraw request lets the window
    /// redraw and vote; and at either batch boundary a set latch forces
    /// `Terminate`. Returns the exit callback if the decision is `Terminate`
    /// and the callback has not been handed out before.
    pub fn handle_event(&mut self, event: &Event<W::Payload>) -> (fired: Option<X>)
        requires
            old(self)@.accepts(event.kind),
        ensures
            final(self)@.windows == old(self)@.windows,
            final(self)@.global_handlers.len() == old(self)@.global_handlers.len(),
            exists|dispatch: Dispatch|
                {
                    &&& dispatch.kind == event.kind
                    &&& dispatch.votes.len() == old(self)@.global_handlers.len()
                    &&& final(self)@.state == #[trigger] old(self)@.state.after_dispatch(dispatch)
                },
            fired == (if final(self)@.state.exit_due() {
                old(self)@.at_exit
            } else {
                None
            }),
            final(self)@.at_exit == (if final(self)@.state.exit_due() {
                None
            } else {
                old(self)@.at_exit
            }),
    {
        let ghost mut votes: Seq<WakePolicy> = Seq::empty();
        let ghost mut redraw: WakePolicy = WakePolicy::Immediate;
        let count = self.global_handlers.len();
        let mut i: usize = 0;
        while i < count
            invariant
                i <= count,
                count == self.global_handlers@.len(),
                votes.len() == i,
                self.state == old(self).state.after_votes(votes),
                self.windows == old(self).windows,
                self.at_exit == old(self).at_exit,
            decreases count - i,
        {
            let vote = self.global_handlers[i].handle(event);
            self.state.on_handler_vote(vote);
            proof {
                let cast = votes;
                votes = votes.push(vote);
                assert(votes.drop_last() =~= cast);
            }
            i += 1;
        }
        match self.state.on_event(&event.kind) {
            Action::Nothing => {},
            Action::Deliver { window_id, redraw_first } => {
                let window = self.windows.get(&window_id).unwrap();
                if redraw_first {
                    window.request_redraw();
                }
                window.process_event(event);
            },
            Action::RequestRedraws => {
                for window in windows: self.windows.values() {
                    if window.redraw_needed() {
                        window.request_redraw();
                    }
                }
            },
            Action::Redraw(window_id) => {
                let vote = self.windows.get(&window_id).unwrap().redraw();
                self.state.on_redraw(window_id, vote);
                proof {
                    redraw = vote;
                }
            },
        }
        assert(self.state == old(self).state.after_dispatch(
            Dispatch { kind: event.kind, votes, redraw },
        ));
        if self.state.should_exit() {
            self.at_exit.take()
        } else {
            None
        }
    }
}

} // verus!
