//! Platform events, as far as the loop reads them.

use vstd::prelude::*;

verus! {

/// Whether a key went down or came up.
#[derive(Clone, Copy, Debug, PartialEq, Eq, Structural)]
pub enum KeyState {
    Pressed,
    Released,
}

/// The keys that the loop tells apart.
#[derive(Clone, Copy, Debug, PartialEq, Eq, Structural)]
pub enum Key {
    Escape,
    Other,
}

/// One event of the window system.
#[derive(Clone, Copy, Debug, PartialEq, Eq, Structural)]
pub enum PlatformEvent {
    /// The user asked for the window to be closed.
    CloseRequested,
    /// A key changed state. `key` is `None` where the platform could not
    /// name the key.
    Keyboard { state: KeyState, key: Option<Key> },
    /// Anything else: pointer motion, focus, a resize and so on.
    Other,
}

impl PlatformEvent {
    /// The two triggers that end the loop: a request to close the window, and
    /// a keyboard event that names the Escape key, whether the key went down
    /// or came up.
    pub open spec fn ends_loop(self) -> bool {
        match self {
            PlatformEvent::CloseRequested => true,
            PlatformEvent::Keyboard { state, key } => key == Some(Key::Escape),
            PlatformEvent::Other => false,
        }
    }

    /// Tells whether this event ends the loop.
    pub fn is_termination_trigger(&self) -> (stop: bool)
        ensures
            stop == self.ends_loop(),
    {
        match self {
            PlatformEvent::CloseRequested => true,
            PlatformEvent::Keyboard { state: _, key: Some(Key::Escape) } => true,
            _ => false,
        }
    }
}

} // verus!
