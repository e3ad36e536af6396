//! Idle inhibition by way of a Wayland compositor.
//!
//! The state records which protocol objects exist. Methods that change it name
//! the protocol requests that have to go out. The event loop and the set-up are
//! state machines over the outcomes of outside actions.

use crate::text::{joined, same_text};
use vstd::prelude::*;

verus! {

/// Seconds between two checks that the compositor is still there.
pub const HEARTBEAT_SECONDS: u64 = 300;

/// How many times pending events are dispatched at most before the loop looks
/// for other work.
pub const DISPATCH_BATCH: usize = 5;

/// A wish of a client of the event loop.
#[derive(Debug, Clone, Copy, PartialEq, Eq, Structural)]
pub enum InhibitorMessage {
    Enable,
    Disable,
    Toggle,
}

/// A request to the compositor. There is at most one object of each kind.
#[derive(Debug, Clone, Copy, PartialEq, Eq, Structural)]
pub enum WaylandRequest {
    /// Create an inhibitor for the surface with the idle inhibit manager.
    CreateInhibitor,
    DestroyInhibitor,
    CommitSurface,
    DestroySurface,
}

/// A global object of the compositor that the service binds.
#[derive(Debug, Clone, Copy, PartialEq, Eq, Structural)]
pub enum Global {
    Compositor,
    IdleInhibitManager,
}

/// A global object to bind, by its number in the registry.
#[derive(Debug, Clone, Copy, PartialEq, Eq, Structural)]
pub struct Binding {
    pub global: Global,
    pub name: u32,
    pub version: u32,
}

/// Why no inhibitor could be created.
#[derive(Debug, Clone, Copy, PartialEq, Eq, Structural)]
pub enum WaylandError {
    ManagerMissing,
    SurfaceMissing,
}

/// The global that an interface name stands for.
pub open spec fn global_named(interface: Seq<char>) -> Option<Global> {
    if interface == "wl_compositor"@ {
        Some(Global::Compositor)
    } else if interface == "zwp_idle_inhibit_manager_v1"@ {
        Some(Global::IdleInhibitManager)
    } else {
        None
    }
}

/// The newest version of a global that the service speaks.
pub open spec fn newest_version(global: Global) -> u32 {
    match global {
        Global::Compositor => 4,
        Global::IdleInhibitManager => 1,
    }
}

/// What to bind when a global is announced: the known globals, in the announced
/// version or the newest that the service speaks, whichever is older.
pub open spec fn binding_for(name: u32, interface: Seq<char>, version: u32) -> Option<Binding> {
    match global_named(interface) {
        Some(global) => Some(
            Binding {
                global,
                name,
                version: if version < newest_version(global) {
                    version
                } else {
                    newest_version(global)
                },
            },
        ),
        None => None,
    }
}

/// The message of an error.
pub open spec fn error_message(error: WaylandError) -> Seq<char> {
    match error {
        WaylandError::ManagerMissing => "Idle inhibit manager not available"@,
        WaylandError::SurfaceMissing => "Surface not available"@,
    }
}

impl WaylandError {
    /// The message of the error.
    pub fn message(self) -> (text: &'static str)
        ensures
            text@ == error_message(self),
    {
        match self {
            WaylandError::ManagerMissing => "Idle inhibit manager not available",
            WaylandError::SurfaceMissing => "Surface not available",
        }
    }
}

/// Which protocol objects exist.
#[derive(Debug, Clone, Copy, PartialEq, Eq, Structural)]
pub struct GuayusaWaylandState {
    pub compositor: bool,
    pub idle_inhibit_manager: bool,
    pub surface: bool,
    pub inhibitor: bool,
}

impl GuayusaWaylandState {
    /// An inhibitor comes from a manager and belongs to a surface.
    pub open spec fn wf(self) -> bool {
        self.inhibitor ==> self.idle_inhibit_manager && self.surface
    }

    /// What creating an inhibitor sends, or why it cannot be created.
    pub open spec fn creation(self) -> Result<Seq<WaylandRequest>, WaylandError> {
        if self.inhibitor {
            Ok(Seq::empty())
        } else if !self.idle_inhibit_manager {
            Err(WaylandError::ManagerMissing)
        } else if !self.surface {
            Err(WaylandError::SurfaceMissing)
        } else {
            Ok(seq![WaylandRequest::CreateInhibitor, WaylandRequest::CommitSurface])
        }
    }

    /// What destroying the inhibitor sends.
    pub open spec fn destruction(self) -> Seq<WaylandRequest> {
        if !self.inhibitor {
            Seq::empty()
        } else if self.surface {
            seq![WaylandRequest::DestroyInhibitor, WaylandRequest::CommitSurface]
        } else {
            seq![WaylandRequest::DestroyInhibitor]
        }
    }

    /// What giving up all objects of the service sends.
    pub open spec fn clearance(self) -> Seq<WaylandRequest> {
        (if self.inhibitor {
            seq![WaylandRequest::DestroyInhibitor]
        } else {
            Seq::empty()
        }) + (if self.surface {
            seq![WaylandRequest::CommitSurface, WaylandRequest::DestroySurface]
        } else {
            Seq::empty()
        })
    }

    /// The state with an inhibitor where one can be had.
    pub open spec fn with_inhibitor(self) -> Self {
        GuayusaWaylandState {
            inhibitor: self.inhibitor || (self.idle_inhibit_manager && self.surface),
            ..self
        }
    }

    /// The state without inhibitor.
    pub open spec fn without_inhibitor(self) -> Self {
        GuayusaWaylandState { inhibitor: false, ..self }
    }

    /// The state without the objects of the service.
    pub open spec fn cleared(self) -> Self {
        GuayusaWaylandState { inhibitor: false, surface: false, ..self }
    }

    /// The state with a global that was bound.
    pub open spec fn with_global(self, global: Global) -> Self {
        match global {
            Global::Compositor => GuayusaWaylandState { compositor: true, ..self },
            Global::IdleInhibitManager => GuayusaWaylandState {
                idle_inhibit_manager: true,
                ..self
            },
        }
    }

    /// No object exists yet.
    pub fn new() -> (state: Self)
        ensures
            state == (GuayusaWaylandState {
                compositor: false,
                idle_inhibit_manager: false,
                surface: false,
                inhibitor: false,
            }),
            state.wf(),
    {
        GuayusaWaylandState {
            compositor: false,
            idle_inhibit_manager: false,
            surface: false,
            inhibitor: false,
        }
    }

    /// Takes note of a global object that the compositor announces, and tells
    /// what to bind.
    pub fn event(&mut self, name: u32, interface: &str, version: u32) -> (binding: Option<Binding>)
        ensures
            binding == binding_for(name, interface@, version),
            *final(self) == match global_named(interface@) {
                Some(global) => old(self).with_global(global),
                None => *old(self),
            },
            old(self).wf() ==> final(self).wf(),
    {
        if same_text(interface, "wl_compositor") {
            self.compositor = true;
            Some(
                Binding {
                    global: Global::Compositor,
                    name,
                    version: if version < 4 {
                        version
                    } else {
                        4
                    },
                },
            )
        } else if same_text(interface, "zwp_idle_inhibit_manager_v1") {
            self.idle_inhibit_manager = true;
            Some(
                Binding {
                    global: Global::IdleInhibitManager,
                    name,
                    version: if version < 1 {
                        version
                    } else {
                        1
                    },
                },
            )
        } else {
            None
        }
    }

    /// Creates the inhibitor, unless there is one already.
    pub fn create_inhibitor(&mut self) -> (sent: Result<Vec<WaylandRequest>, WaylandError>)
        ensures
            match sent {
                Ok(requests) => old(self).creation() == Ok::<Seq<WaylandRequest>, WaylandError>(
                    requests@,
                ),
                Err(error) => old(self).creation() == Err::<Seq<WaylandRequest>, WaylandError>(
                    error,
                ),
            },
            *final(self) == old(self).with_inhibitor(),
            old(self).wf() ==> final(self).wf(),
    {
        if self.inhibitor {
            return Ok(Vec::new());
        }
        if !self.idle_inhibit_manager {
            return Err(WaylandError::ManagerMissing);
        }
        if !self.surface {
            return Err(WaylandError::SurfaceMissing);
        }
        self.inhibitor = true;
        let requests = vec![WaylandRequest::CreateInhibitor, WaylandRequest::CommitSurface];
        assert(requests@ =~= seq![WaylandRequest::CreateInhibitor, WaylandRequest::CommitSurface]);
        Ok(requests)
    }

    /// Destroys the inhibitor if there is one.
    pub fn destroy_inhibitor(&mut self) -> (requests: Vec<WaylandRequest>)
        ensures
            requests@ == old(self).destruction(),
            *final(self) == old(self).without_inhibitor(),
            old(self).wf() ==> final(self).wf(),
    {
        let mut requests: Vec<WaylandRequest> = Vec::new();
        if self.inhibitor {
            self.inhibitor = false;
            requests.push(WaylandRequest::DestroyInhibitor);
            if self.surface {
                requests.push(WaylandRequest::CommitSurface);
            }
        }
        assert(requests@ =~= old(self).destruction());
        requests
    }

    /// Gives up the inhibitor and the surface.
    pub fn cleanup(&mut self) -> (requests: Vec<WaylandRequest>)
        ensures
            requests@ == old(self).clearance(),
            *final(self) == old(self).cleared(),
            final(self).wf(),
    {
        let mut requests: Vec<WaylandRequest> = Vec::new();
        if self.inhibitor {
            self.inhibitor = false;
            requests.push(WaylandRequest::DestroyInhibitor);
        }
        if self.surface {
            self.surface = false;
            requests.push(WaylandRequest::CommitSurface);
            requests.push(WaylandRequest::DestroySurface);
        }
        assert(requests@ =~= old(self).clearance());
        requests
    }

    /// Whether idling is inhibited.
    pub fn is_inhibited(&self) -> (inhibited: bool)
        ensures
            inhibited == self.inhibitor,
    {
        self.inhibitor
    }
}

/// Why exchanging messages with the compositor failed.
#[derive(Debug, Clone, Copy, PartialEq, Eq, Structural)]
pub enum PumpError {
    Flush,
    Dispatch,
}

/// One exchange of messages with the compositor.
#[derive(Debug, Clone, Copy, PartialEq, Eq)]
pub enum Pump {
    /// Outgoing requests are flushed first; events are then dispatched up to
    /// `max_events` times.
    Flush { max_events: usize },
    /// Events are dispatched up to `left` more times.
    Dispatch { left: usize },
    /// The exchange is over.
    Over { outcome: Result<(), PumpError> },
}

/// Outcome of one action of an exchange.
#[derive(Debug, Clone, Copy, PartialEq, Eq, Structural)]
pub enum PumpEvent {
    /// The flush succeeded.
    Flushed,
    /// That many events were dispatched.
    Dispatched(usize),
    /// The action failed.
    Failed,
}

/// Dispatching up to `left` times.
pub open spec fn dispatching(left: usize) -> Pump {
    if left == 0 {
        Pump::Over { outcome: Ok(()) }
    } else {
        Pump::Dispatch { left }
    }
}

/// An exchange from its beginning.
pub open spec fn exchange(needs_flush: bool, max_events: usize) -> Pump {
    if needs_flush {
        Pump::Flush { max_events }
    } else {
        dispatching(max_events)
    }
}

/// Flushes if asked to, then dispatches pending events once.
pub fn flush_and_dispatch(needs_flush: bool) -> (pump: Pump)
    ensures
        pump == exchange(needs_flush, 1),
{
    if needs_flush {
        Pump::Flush { max_events: 1 }
    } else {
        Pump::Dispatch { left: 1 }
    }
}

/// Flushes if asked to, then dispatches pending events until none is left, but
/// not more than `max_events` times.
pub fn flush_and_dispatch_batch(needs_flush: bool, max_events: usize) -> (pump: Pump)
    ensures
        pump == exchange(needs_flush, max_events),
{
    if needs_flush {
        Pump::Flush { max_events }
    } else if max_events == 0 {
        Pump::Over { outcome: Ok(()) }
    } else {
        Pump::Dispatch { left: max_events }
    }
}

impl Pump {
    /// Whether `event` is an outcome that the pending action can have.
    pub open spec fn answered_by(self, event: PumpEvent) -> bool {
        match self {
            Pump::Flush { .. } => event is Flushed || event is Failed,
            Pump::Dispatch { .. } => event is Dispatched || event is Failed,
            Pump::Over { .. } => false,
        }
    }

    /// The exchange after `event`. An event that does not answer the pending
    /// action changes nothing.
    pub open spec fn after(self, event: PumpEvent) -> Pump {
        match (self, event) {
            (Pump::Flush { max_events }, PumpEvent::Flushed) => dispatching(max_events),
            (Pump::Flush { .. }, PumpEvent::Failed) => Pump::Over { outcome: Err(PumpError::Flush) },
            (Pump::Dispatch { left }, PumpEvent::Dispatched(count)) => if count == 0 || left == 0 {
                Pump::Over { outcome: Ok(()) }
            } else {
                dispatching((left - 1) as usize)
            },
            (Pump::Dispatch { .. }, PumpEvent::Failed) => Pump::Over {
                outcome: Err(PumpError::Dispatch),
            },
            _ => self,
        }
    }

    /// Advances the exchange by an outcome of its pending action.
    pub fn step(self, event: PumpEvent) -> (next: Pump)
        ensures
            next == self.after(event),
    {
        match (self, event) {
            (Pump::Flush { max_events }, PumpEvent::Flushed) => flush_and_dispatch_batch(
                false,
                max_events,
            ),
            (Pump::Flush { .. }, PumpEvent::Failed) => Pump::Over { outcome: Err(PumpError::Flush) },
            (Pump::Dispatch { left }, PumpEvent::Dispatched(count)) => if count == 0 || left == 0 {
                Pump::Over { outcome: Ok(()) }
            } else {
                flush_and_dispatch_batch(false, left - 1)
            },
            (Pump::Dispatch { .. }, PumpEvent::Failed) => Pump::Over {
                outcome: Err(PumpError::Dispatch),
            },
            _ => self,
        }
    }
}

/// The message of a failed exchange, with the text of its cause.
pub open spec fn pump_message(error: PumpError, cause: Seq<char>) -> Seq<char> {
    match error {
        PumpError::Flush => "Failed to flush Wayland connection"@,
        PumpError::Dispatch => "Dispatch error: "@ + cause,
    }
}

impl PumpError {
    /// The message of the error, with the text of its cause.
    pub fn message(self, cause: &str) -> (text: String)
        ensures
            text@ == pump_message(self, cause@),
    {
        match self {
            PumpError::Flush => "Failed to flush Wayland connection".to_owned(),
            PumpError::Dispatch => joined("Dispatch error: ", cause),
        }
    }
}

} // verus!
