//! Connecting to the compositor.

use crate::text::joined;
use crate::wayland::GuayusaWaylandState;
use vstd::prelude::*;

verus! {

/// Why the set-up failed.
#[derive(Debug, Clone, Copy, PartialEq, Eq, Structural)]
pub enum SetupError {
    /// There is no connection to the compositor.
    Connect,
    /// The compositor did not list its globals.
    RoundTrip,
    /// The compositor has no `wl_compositor`.
    NoCompositor,
    /// The compositor has no idle inhibit manager.
    NoManager,
    /// The request for the surface could not be sent.
    Flush,
}

/// What the set-up is about to do.
#[derive(Debug, Clone, Copy, PartialEq, Eq, Structural)]
pub enum Setup {
    /// Connecting to the compositor.
    Connecting,
    /// Waiting until the compositor has listed its globals.
    Listing,
    /// Asking for a surface.
    CreatingSurface,
    /// Sending what was asked for.
    Flushing,
    /// Dispatching what has come in meanwhile.
    Dispatching,
    /// The service can create inhibitors.
    Ready,
    /// The set-up came to nothing.
    Failed(SetupError),
}

/// Outcome of an action of the set-up.
#[derive(Debug, Clone, Copy, PartialEq, Eq, Structural)]
pub enum SetupEvent {
    Done,
    Failed,
}

/// The message of a failed set-up, with the text of its cause where it has one.
pub open spec fn setup_message(error: SetupError, cause: Seq<char>) -> Seq<char> {
    match error {
        SetupError::Connect => "Failed to connect to Wayland display"@,
        SetupError::RoundTrip => cause,
        SetupError::NoCompositor => "Failed to get wl_compositor"@,
        SetupError::NoManager =>
            "Failed to get zwp_idle_inhibit_manager_v1. Is your compositor supporting this protocol?"@,
        SetupError::Flush => "Failed to flush Wayland connection: "@ + cause,
    }
}

impl SetupError {
    /// The message of the error, with the text of its cause where it has one.
    pub fn message(self, cause: &str) -> (text: String)
        ensures
            text@ == setup_message(self, cause@),
    {
        match self {
            SetupError::Connect => "Failed to connect to Wayland display".to_owned(),
            SetupError::RoundTrip => cause.to_owned(),
            SetupError::NoCompositor => "Failed to get wl_compositor".to_owned(),
            SetupError::NoManager =>
                "Failed to get zwp_idle_inhibit_manager_v1. Is your compositor supporting this protocol?".to_owned(),
            SetupError::Flush => joined("Failed to flush Wayland connection: ", cause),
        }
    }
}

/// The set-up, before its first action.
pub fn setup_wayland() -> (setup: Setup)
    ensures
        setup == Setup::Connecting,
{
    Setup::Connecting
}

impl Setup {
    /// The set-up after an action, with the objects that exist by then. A
    /// failure to dispatch at the end does no harm.
    pub open spec fn after(self, state: GuayusaWaylandState, event: SetupEvent) -> Setup {
        match self {
            Setup::Connecting => if event is Done {
                Setup::Listing
            } else {
                Setup::Failed(SetupError::Connect)
            },
            Setup::Listing => if event is Failed {
                Setup::Failed(SetupError::RoundTrip)
            } else if !state.compositor {
                Setup::Failed(SetupError::NoCompositor)
            } else if !state.idle_inhibit_manager {
                Setup::Failed(SetupError::NoManager)
            } else {
                Setup::CreatingSurface
            },
            Setup::CreatingSurface => Setup::Flushing,
            Setup::Flushing => if event is Done {
                Setup::Dispatching
            } else {
                Setup::Failed(SetupError::Flush)
            },
            Setup::Dispatching => Setup::Ready,
            Setup::Ready => self,
            Setup::Failed(_) => self,
        }
    }

    /// The objects that exist after an action: once it was asked for, there is
    /// a surface.
    pub open spec fn state_after(self, state: GuayusaWaylandState) -> GuayusaWaylandState {
        if self is CreatingSurface {
            GuayusaWaylandState { surface: true, ..state }
        } else {
            state
        }
    }

    /// What is known of the objects at this point.
    pub open spec fn reached(self, state: GuayusaWaylandState) -> bool {
        match self {
            Setup::Connecting | Setup::Listing | Setup::Failed(_) => true,
            Setup::CreatingSurface => state.compositor && state.idle_inhibit_manager,
            _ => state.compositor && state.idle_inhibit_manager && state.surface,
        }
    }

    /// Advances the set-up by the outcome of its pending action.
    pub fn step(&mut self, state: &mut GuayusaWaylandState, event: SetupEvent)
        ensures
            *final(self) == old(self).after(*old(state), event),
            *final(state) == old(self).state_after(*old(state)),
            old(self).reached(*old(state)) ==> final(self).reached(*final(state)),
            old(state).wf() ==> final(state).wf(),
    {
        let failed = matches!(event, SetupEvent::Failed);
        match *self {
            Setup::Connecting => {
                *self = if failed {
                    Setup::Failed(SetupError::Connect)
                } else {
                    Setup::Listing
                };
            },
            Setup::Listing => {
                *self = if failed {
                    Setup::Failed(SetupError::RoundTrip)
                } else if !state.compositor {
                    Setup::Failed(SetupError::NoCompositor)
                } else if !state.idle_inhibit_manager {
                    Setup::Failed(SetupError::NoManager)
                } else {
                    Setup::CreatingSurface
                };
            },
            Setup::CreatingSurface => {
                state.surface = true;
                *self = Setup::Flushing;
            },
            Setup::Flushing => {
                *self = if failed {
                    Setup::Failed(SetupError::Flush)
                } else {
                    Setup::Dispatching
                };
            },
            Setup::Dispatching => {
                *self = Setup::Ready;
            },
            Setup::Ready | Setup::Failed(_) => {},
        }
    }
}

} // verus!
