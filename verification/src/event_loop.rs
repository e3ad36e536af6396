//! The event loop that keeps an idle inhibitor as its clients wish.

use crate::text::joined;
use crate::wayland;
use crate::wayland::{
    flush_and_dispatch, flush_and_dispatch_batch, Binding, Global, GuayusaWaylandState,
    InhibitorMessage, Pump, PumpEvent, WaylandRequest, DISPATCH_BATCH,
};
use vstd::prelude::*;

verus! {

/// What an exchange with the compositor is for.
#[derive(Debug, Clone, Copy, PartialEq, Eq, Structural)]
pub enum Purpose {
    /// To make a change of the inhibitor known.
    Announce { inhibited: bool },
    /// To take in what the compositor has sent.
    TakeIn,
}

/// What the loop is about to do.
#[derive(Debug, Clone, Copy)]
pub enum LoopPhase {
    /// Looking whether the service shuts down.
    Checking,
    /// Waiting for something to happen.
    Waiting,
    /// Sending the requests that change the inhibitor.
    Sending { inhibited: bool },
    /// Exchanging messages with the compositor.
    Pumping { pump: Pump, purpose: Purpose },
    /// Recording whether idling is inhibited.
    Storing { inhibited: bool },
    /// Marking the connection as read.
    Clearing,
    /// Checking that the connection still takes output.
    Probing,
    /// Sending the requests that give up all objects.
    Cleaning,
    /// Flushing for the last time.
    Flushing,
    /// Nothing more.
    Ended,
}

/// What happened outside.
#[derive(Debug, Clone, Copy)]
pub enum LoopEvent {
    /// Whether the service shuts down.
    Shutdown(bool),
    /// The compositor has sent something.
    Readable,
    /// Waiting for the compositor failed.
    Unreadable,
    /// A client has a wish.
    Message(InhibitorMessage),
    /// It is time to check the connection.
    Heartbeat,
    /// The channel that wishes come from is closed and empty.
    Closed,
    /// A flush or a dispatch has come to an end.
    Pump(PumpEvent),
    /// Another action succeeded.
    Done,
    /// Another action failed.
    Failed,
}

/// Something to do outside, on behalf of the loop.
#[derive(Debug)]
pub enum LoopAction {
    LoadShutdown,
    Wait,
    Send(Vec<WaylandRequest>),
    Flush,
    Dispatch,
    StoreStatus(bool),
    ClearReady,
    FlushConnection,
    End,
}

/// A [`LoopAction`] with its requests as a sequence.
pub enum LoopRequest {
    LoadShutdown,
    Wait,
    Send(Seq<WaylandRequest>),
    Flush,
    Dispatch,
    StoreStatus(bool),
    ClearReady,
    FlushConnection,
    End,
}

impl View for LoopAction {
    type V = LoopRequest;

    open spec fn view(&self) -> LoopRequest {
        match *self {
            LoopAction::LoadShutdown => LoopRequest::LoadShutdown,
            LoopAction::Wait => LoopRequest::Wait,
            LoopAction::Send(requests) => LoopRequest::Send(requests@),
            LoopAction::Flush => LoopRequest::Flush,
            LoopAction::Dispatch => LoopRequest::Dispatch,
            LoopAction::StoreStatus(status) => LoopRequest::StoreStatus(status),
            LoopAction::ClearReady => LoopRequest::ClearReady,
            LoopAction::FlushConnection => LoopRequest::FlushConnection,
            LoopAction::End => LoopRequest::End,
        }
    }
}

/// The loop as mathematics sees it.
pub struct LoopModel {
    pub state: GuayusaWaylandState,
    pub phase: LoopPhase,
    /// The requests that are about to be sent.
    pub requests: Seq<WaylandRequest>,
}

/// Whether idling is to be inhibited after a client's wish.
pub open spec fn wish(message: InhibitorMessage, inhibited: bool) -> bool {
    match message {
        InhibitorMessage::Enable => true,
        InhibitorMessage::Disable => false,
        InhibitorMessage::Toggle => !inhibited,
    }
}

/// What a failed exchange was for.
pub open spec fn exchange_failure(purpose: Purpose) -> Seq<char> {
    match purpose {
        Purpose::TakeIn => "Error dispatching Wayland events: "@,
        Purpose::Announce { inhibited } => if inhibited {
            "Error flushing after creating inhibitor: "@
        } else {
            "Error flushing after destroying inhibitor: "@
        },
    }
}

impl LoopModel {
    /// An inhibitor comes from a manager and belongs to a surface.
    pub open spec fn wf(self) -> bool {
        self.state.wf()
    }

    /// The loop in another phase, with nothing to send.
    pub open spec fn entering(self, phase: LoopPhase) -> LoopModel {
        LoopModel { phase, requests: Seq::empty(), ..self }
    }

    /// The loop on its way out.
    pub open spec fn leaving(self) -> LoopModel {
        LoopModel {
            state: self.state.cleared(),
            phase: LoopPhase::Cleaning,
            requests: self.state.clearance(),
        }
    }

    /// The loop after a client's wish. A wish that is met already, or that
    /// cannot be met, changes nothing.
    pub open spec fn wished(self, message: InhibitorMessage) -> LoopModel {
        let inhibited = wish(message, self.state.inhibitor);
        if inhibited == self.state.inhibitor {
            self.entering(LoopPhase::Checking)
        } else if !inhibited {
            LoopModel {
                state: self.state.without_inhibitor(),
                phase: LoopPhase::Sending { inhibited },
                requests: self.state.destruction(),
            }
        } else {
            match self.state.creation() {
                Ok(requests) => LoopModel {
                    state: self.state.with_inhibitor(),
                    phase: LoopPhase::Sending { inhibited },
                    requests,
                },
                Err(_) => self.entering(LoopPhase::Checking),
            }
        }
    }

    /// The loop after an exchange. A change is recorded only if it was made
    /// known; taking in counts as done in any case.
    pub open spec fn exchanged(self, pump: Pump, purpose: Purpose) -> LoopModel {
        match (pump, purpose) {
            (Pump::Over { .. }, Purpose::TakeIn) => self.entering(LoopPhase::Clearing),
            (Pump::Over { outcome: Ok(_) }, Purpose::Announce { inhibited }) => self.entering(
                LoopPhase::Storing { inhibited },
            ),
            (Pump::Over { outcome: Err(_) }, Purpose::Announce { .. }) => self.entering(
                LoopPhase::Checking,
            ),
            _ => self.entering(LoopPhase::Pumping { pump, purpose }),
        }
    }

    /// The loop after `event`. An event that does not answer the pending action
    /// changes nothing.
    pub open spec fn after(self, event: LoopEvent) -> LoopModel {
        match (self.phase, event) {
            (LoopPhase::Checking, LoopEvent::Shutdown(shutdown)) => if shutdown {
                self.leaving()
            } else {
                self.entering(LoopPhase::Waiting)
            },
            (LoopPhase::Waiting, LoopEvent::Readable) => self.exchanged(
                wayland::exchange(false, 5),
                Purpose::TakeIn,
            ),
            (LoopPhase::Waiting, LoopEvent::Unreadable) => self.leaving(),
            (LoopPhase::Waiting, LoopEvent::Message(message)) => self.wished(message),
            (LoopPhase::Waiting, LoopEvent::Heartbeat) => self.entering(LoopPhase::Probing),
            (LoopPhase::Waiting, LoopEvent::Closed) => self.leaving(),
            (LoopPhase::Sending { inhibited }, LoopEvent::Done) => self.exchanged(
                wayland::exchange(true, 1),
                Purpose::Announce { inhibited },
            ),
            (LoopPhase::Pumping { pump, purpose }, LoopEvent::Pump(outcome)) => self.exchanged(
                pump.after(outcome),
                purpose,
            ),
            (LoopPhase::Storing { .. }, LoopEvent::Done) => self.entering(LoopPhase::Checking),
            (LoopPhase::Clearing, LoopEvent::Done) => self.entering(LoopPhase::Checking),
            (LoopPhase::Probing, LoopEvent::Done) => self.entering(LoopPhase::Checking),
            (LoopPhase::Probing, LoopEvent::Failed) => self.leaving(),
            (LoopPhase::Cleaning, LoopEvent::Done) => self.entering(LoopPhase::Flushing),
            (LoopPhase::Flushing, LoopEvent::Pump(PumpEvent::Flushed)) => self.entering(
                LoopPhase::Ended,
            ),
            (LoopPhase::Flushing, LoopEvent::Pump(PumpEvent::Failed)) => self.entering(
                LoopPhase::Ended,
            ),
            _ => self,
        }
    }

    /// The loop after a global was announced and bound.
    pub open spec fn announced(self, global: Global) -> LoopModel {
        LoopModel { state: self.state.with_global(global), ..self }
    }

    /// What `event` makes fail, with the text of its cause.
    pub open spec fn failure(self, event: LoopEvent, cause: Seq<char>) -> Option<Seq<char>> {
        match (self.phase, event) {
            (LoopPhase::Waiting, LoopEvent::Unreadable) => Some(
                "Error waiting for Wayland events: "@ + cause,
            ),
            (LoopPhase::Waiting, LoopEvent::Message(message)) => if wish(
                message,
                self.state.inhibitor,
            ) {
                match self.state.creation() {
                    Ok(_) => None,
                    Err(error) => Some(
                        "Failed to create inhibitor: "@ + wayland::error_message(error),
                    ),
                }
            } else {
                None
            },
            (LoopPhase::Pumping { pump, purpose }, LoopEvent::Pump(outcome)) => if pump is Over {
                None
            } else {
                match pump.after(outcome) {
                    Pump::Over { outcome: Err(error) } => Some(
                        exchange_failure(purpose) + wayland::pump_message(error, cause),
                    ),
                    _ => None,
                }
            },
            (LoopPhase::Probing, LoopEvent::Failed) => Some(
                "Wayland connection unhealthy (flush failed), exiting event loop"@,
            ),
            (LoopPhase::Flushing, LoopEvent::Pump(PumpEvent::Failed)) => Some(
                "Failed to flush Wayland queue during final cleanup: "@ + cause,
            ),
            _ => None,
        }
    }

    /// What the loop does next.
    pub open spec fn pending(self) -> LoopRequest {
        match self.phase {
            LoopPhase::Checking => LoopRequest::LoadShutdown,
            LoopPhase::Waiting => LoopRequest::Wait,
            LoopPhase::Sending { .. } => LoopRequest::Send(self.requests),
            LoopPhase::Pumping { pump, .. } => if pump is Flush {
                LoopRequest::Flush
            } else {
                LoopRequest::Dispatch
            },
            LoopPhase::Storing { inhibited } => LoopRequest::StoreStatus(inhibited),
            LoopPhase::Clearing => LoopRequest::ClearReady,
            LoopPhase::Probing => LoopRequest::FlushConnection,
            LoopPhase::Cleaning => LoopRequest::Send(self.requests),
            LoopPhase::Flushing => LoopRequest::Flush,
            LoopPhase::Ended => LoopRequest::End,
        }
    }
}

/// The event loop.
#[derive(Debug)]
pub struct EventLoop {
    pub state: GuayusaWaylandState,
    pub phase: LoopPhase,
    /// The requests that are about to be sent.
    pub requests: Vec<WaylandRequest>,
}

impl View for EventLoop {
    type V = LoopModel;

    open spec fn view(&self) -> LoopModel {
        LoopModel { state: self.state, phase: self.phase, requests: self.requests@ }
    }
}

/// The loop, before its first turn.
pub fn wayland_event_loop(state: GuayusaWaylandState) -> (event_loop: EventLoop)
    ensures
        event_loop@ == (LoopModel {
            state,
            phase: LoopPhase::Checking,
            requests: Seq::empty(),
        }),
{
    EventLoop { state, phase: LoopPhase::Checking, requests: Vec::new() }
}

impl EventLoop {
    fn enter(&mut self, phase: LoopPhase)
        ensures
            final(self)@ == old(self)@.entering(phase),
    {
        self.phase = phase;
        self.requests = Vec::new();
    }

    fn leave(&mut self)
        ensures
            final(self)@ == old(self)@.leaving(),
    {
        self.requests = self.state.cleanup();
        self.phase = LoopPhase::Cleaning;
    }

    fn serve(&mut self, message: InhibitorMessage)
        ensures
            final(self)@ == old(self)@.wished(message),
    {
        let inhibited = wished_for(message, self.state.is_inhibited());
        if inhibited == self.state.is_inhibited() {
            self.enter(LoopPhase::Checking);
        } else if !inhibited {
            self.requests = self.state.destroy_inhibitor();
            self.phase = LoopPhase::Sending { inhibited };
        } else {
            match self.state.create_inhibitor() {
                Ok(requests) => {
                    self.requests = requests;
                    self.phase = LoopPhase::Sending { inhibited };
                },
                Err(_) => self.enter(LoopPhase::Checking),
            }
        }
    }

    fn exchange(&mut self, pump: Pump, purpose: Purpose)
        ensures
            final(self)@ == old(self)@.exchanged(pump, purpose),
    {
        match (pump, purpose) {
            (Pump::Over { .. }, Purpose::TakeIn) => self.enter(LoopPhase::Clearing),
            (Pump::Over { outcome: Ok(_) }, Purpose::Announce { inhibited }) => self.enter(
                LoopPhase::Storing { inhibited },
            ),
            (Pump::Over { outcome: Err(_) }, Purpose::Announce { .. }) => self.enter(
                LoopPhase::Checking,
            ),
            _ => self.enter(LoopPhase::Pumping { pump, purpose }),
        }
    }

    /// Takes a turn of the loop: advances it by what happened outside.
    pub fn step(&mut self, event: LoopEvent)
        ensures
            final(self)@ == old(self)@.after(event),
            old(self)@.wf() ==> final(self)@.wf(),
    {
        match (self.phase, event) {
            (LoopPhase::Checking, LoopEvent::Shutdown(shutdown)) => if shutdown {
                self.leave()
            } else {
                self.enter(LoopPhase::Waiting)
            },
            (LoopPhase::Waiting, LoopEvent::Readable) => self.exchange(
                flush_and_dispatch_batch(false, DISPATCH_BATCH),
                Purpose::TakeIn,
            ),
            (LoopPhase::Waiting, LoopEvent::Unreadable) => self.leave(),
            (LoopPhase::Waiting, LoopEvent::Message(message)) => self.serve(message),
            (LoopPhase::Waiting, LoopEvent::Heartbeat) => self.enter(LoopPhase::Probing),
            (LoopPhase::Waiting, LoopEvent::Closed) => self.leave(),
            (LoopPhase::Sending { inhibited }, LoopEvent::Done) => self.exchange(
                flush_and_dispatch(true),
                Purpose::Announce { inhibited },
            ),
            (LoopPhase::Pumping { pump, purpose }, LoopEvent::Pump(outcome)) => self.exchange(
                pump.step(outcome),
                purpose,
            ),
            (LoopPhase::Storing { .. }, LoopEvent::Done) => self.enter(LoopPhase::Checking),
            (LoopPhase::Clearing, LoopEvent::Done) => self.enter(LoopPhase::Checking),
            (LoopPhase::Probing, LoopEvent::Done) => self.enter(LoopPhase::Checking),
            (LoopPhase::Probing, LoopEvent::Failed) => self.leave(),
            (LoopPhase::Cleaning, LoopEvent::Done) => self.enter(LoopPhase::Flushing),
            (LoopPhase::Flushing, LoopEvent::Pump(PumpEvent::Flushed)) => self.enter(
                LoopPhase::Ended,
            ),
            (LoopPhase::Flushing, LoopEvent::Pump(PumpEvent::Failed)) => self.enter(
                LoopPhase::Ended,
            ),
            _ => {},
        }
    }

    /// Takes note of a global object that the compositor announces, and tells
    /// what to bind.
    pub fn announce(&mut self, name: u32, interface: &str, version: u32) -> (binding: Option<
        Binding,
    >)
        ensures
            binding == wayland::binding_for(name, interface@, version),
            final(self)@ == match wayland::global_named(interface@) {
                Some(global) => old(self)@.announced(global),
                None => old(self)@,
            },
            old(self)@.wf() ==> final(self)@.wf(),
    {
        self.state.event(name, interface, version)
    }

    /// The message to log if `event` makes something fail, with the text of its
    /// cause. It is to be asked for before the loop takes the turn.
    pub fn warning(&self, event: LoopEvent, cause: &str) -> (message: Option<String>)
        ensures
            match self@.failure(event, cause@) {
                Some(text) => message matches Some(logged) && logged@ == text,
                None => message is None,
            },
    {
        match (self.phase, event) {
            (LoopPhase::Waiting, LoopEvent::Unreadable) => Some(
                joined("Error waiting for Wayland events: ", cause),
            ),
            (LoopPhase::Waiting, LoopEvent::Message(message)) => if wished_for(
                message,
                self.state.is_inhibited(),
            ) {
                let mut outlook = self.state;
                match outlook.create_inhibitor() {
                    Ok(_) => None,
                    Err(error) => Some(joined("Failed to create inhibitor: ", error.message())),
                }
            } else {
                None
            },
            (LoopPhase::Pumping { pump, purpose }, LoopEvent::Pump(outcome)) => {
                match (pump, pump.step(outcome)) {
                    (Pump::Over { .. }, _) => None,
                    (_, Pump::Over { outcome: Err(error) }) => {
                        let head = match purpose {
                            Purpose::TakeIn => "Error dispatching Wayland events: ",
                            Purpose::Announce { inhibited } => if inhibited {
                                "Error flushing after creating inhibitor: "
                            } else {
                                "Error flushing after destroying inhibitor: "
                            },
                        };
                        Some(joined(head, error.message(cause).as_str()))
                    },
                    _ => None,
                }
            },
            (LoopPhase::Probing, LoopEvent::Failed) => Some(
                "Wayland connection unhealthy (flush failed), exiting event loop".to_owned(),
            ),
            (LoopPhase::Flushing, LoopEvent::Pump(PumpEvent::Failed)) => Some(
                joined("Failed to flush Wayland queue during final cleanup: ", cause),
            ),
            _ => None,
        }
    }

    /// What the loop has to do next.
    pub fn action(&self) -> (action: LoopAction)
        ensures
            action@ == self@.pending(),
    {
        match self.phase {
            LoopPhase::Checking => LoopAction::LoadShutdown,
            LoopPhase::Waiting => LoopAction::Wait,
            LoopPhase::Sending { .. } => LoopAction::Send(copied(&self.requests)),
            LoopPhase::Pumping { pump, .. } => if matches!(pump, Pump::Flush { .. }) {
                LoopAction::Flush
            } else {
                LoopAction::Dispatch
            },
            LoopPhase::Storing { inhibited } => LoopAction::StoreStatus(inhibited),
            LoopPhase::Clearing => LoopAction::ClearReady,
            LoopPhase::Probing => LoopAction::FlushConnection,
            LoopPhase::Cleaning => LoopAction::Send(copied(&self.requests)),
            LoopPhase::Flushing => LoopAction::Flush,
            LoopPhase::Ended => LoopAction::End,
        }
    }
}

/// Whether idling is to be inhibited after a client's wish.
fn wished_for(message: InhibitorMessage, inhibited: bool) -> (wanted: bool)
    ensures
        wanted == wish(message, inhibited),
{
    match message {
        InhibitorMessage::Enable => true,
        InhibitorMessage::Disable => false,
        InhibitorMessage::Toggle => !inhibited,
    }
}

/// The same requests in a list of their own.
fn copied(requests: &Vec<WaylandRequest>) -> (copy: Vec<WaylandRequest>)
    ensures
        copy@ == requests@,
{
    let mut copy: Vec<WaylandRequest> = Vec::new();
    let mut i: usize = 0;
    while i < requests.len()
        invariant
            i <= requests.len(),
            copy@ == requests@.take(i as int),
        decreases requests.len() - i,
    {
        copy.push(requests[i]);
        i = i + 1;
        assert(copy@ =~= requests@.take(i as int));
    }
    assert(copy@ =~= requests@);
    copy
}

} // verus!
