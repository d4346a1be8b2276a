//! Platform events, reduced to what the loop's rules read.

use vstd::prelude::*;

verus! {

/// The identity of a window: stable, and unique among the registered windows.
pub type WindowId = u64;

/// A key, as far as the loop tells keys apart.
#[derive(Clone, Copy, Debug, PartialEq, Eq, Structural)]
pub enum VirtualKeyCode {
    /// The cancel key.
    Escape,
    /// Any other key.
    Other,
}

/// Whether a key went down or came up.
#[derive(Clone, Copy, Debug, PartialEq, Eq, Structural)]
pub enum ElementState {
    Pressed,
    Released,
}

/// An event that targets one window.
#[derive(Clone, Copy, Debug, PartialEq, Eq, Structural)]
pub enum WindowEvent {
    /// The user asked for the window to be closed.
    CloseRequested,
    /// A key changed state while the window had the focus; `None` where the
    /// platform could not name the key.
    KeyboardInput { virtual_keycode: Option<VirtualKeyCode>, state: ElementState },
    /// The window's size changed.
    Resized,
    /// Anything else.
    Other,
}

/// The kind of a platform event.
#[derive(Clone, Copy, Debug, PartialEq, Eq, Structural)]
pub enum EventKind {
    /// An event for the window `window_id`.
    WindowEvent { window_id: WindowId, event: WindowEvent },
    /// Every event that was pending at this wake has been delivered.
    MainEventsCleared,
    /// The window is to redraw itself now.
    RedrawRequested(WindowId),
    /// Every redraw of this wake has been delivered.
    RedrawEventsCleared,
    /// An event that targets no window and marks no boundary.
    Other,
}

/// A platform event: its kind, which the loop reads, and the platform's own
/// data, which the loop carries through to handlers and windows untouched.
pub struct Event<P> {
    pub kind: EventKind,
    pub payload: P,
}

impl WindowEvent {
    /// Whether the event asks the loop to shut down: a close request, or the
    /// cancel key going down.
    pub open spec fn requests_close(self) -> bool {
        match self {
            WindowEvent::CloseRequested => true,
            WindowEvent::KeyboardInput {
                virtual_keycode: Some(VirtualKeyCode::Escape),
                state: ElementState::Pressed,
            } => true,
            _ => false,
        }
    }

    /// Whether the event asks the loop to shut down.
    pub fn is_close_request(&self) -> (close: bool)
        ensures
            close == self.requests_close(),
    {
        match self {
            WindowEvent::CloseRequested => true,
            WindowEvent::KeyboardInput {
                virtual_keycode: Some(VirtualKeyCode::Escape),
                state: ElementState::Pressed,
            } => true,
            _ => false,
        }
    }
}

impl EventKind {
    /// Whether the event asks the loop to shut down.
    pub open spec fn requests_close(self) -> bool {
        self matches EventKind::WindowEvent { event, .. } && event.requests_close()
    }

    /// The window that the loop looks up to handle the event, if any.
    pub open spec fn target(self) -> Option<WindowId> {
        match self {
            EventKind::WindowEvent { window_id, event } => if event.requests_close() {
                None
            } else {
                Some(window_id)
            },
            EventKind::RedrawRequested(window_id) => Some(window_id),
            _ => None,
        }
    }
}

} // verus!
