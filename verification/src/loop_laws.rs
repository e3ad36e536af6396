//! What can be relied on of each turn of the event loop, and of what the
//! compositor makes of its requests.

use crate::event_loop;
use crate::event_loop::{
    EventLoop, LoopAction, LoopEvent, LoopModel, LoopPhase, LoopRequest, Purpose,
};
use crate::wayland;
use crate::wayland::{
    Global, GuayusaWaylandState, InhibitorMessage, Pump, PumpEvent, WaylandRequest,
};
use crate::wayland_laws;
use crate::wayland_laws::LoopStep;
use vstd::prelude::*;

verus! {

/// What the compositor keeps for the service.
pub struct Compositor {
    pub manager: bool,
    pub surface: bool,
    pub inhibitor: bool,
    /// Whether something has changed since the surface was committed.
    pub uncommitted: bool,
}

impl Compositor {
    /// The compositor after a request, or nothing if the request goes against
    /// the protocol: objects have to exist to be used or destroyed, there is one
    /// inhibitor at most, and it goes before its surface does.
    pub open spec fn carried(self, request: WaylandRequest) -> Option<Compositor> {
        match request {
            WaylandRequest::CreateInhibitor => if self.manager && self.surface && !self.inhibitor {
                Some(Compositor { inhibitor: true, uncommitted: true, ..self })
            } else {
                None
            },
            WaylandRequest::DestroyInhibitor => if self.inhibitor {
                Some(Compositor { inhibitor: false, uncommitted: true, ..self })
            } else {
                None
            },
            WaylandRequest::CommitSurface => if self.surface {
                Some(Compositor { uncommitted: false, ..self })
            } else {
                None
            },
            WaylandRequest::DestroySurface => if self.surface && !self.inhibitor {
                Some(Compositor { surface: false, ..self })
            } else {
                None
            },
        }
    }

    /// The compositor after a list of requests.
    pub open spec fn carried_all(self, requests: Seq<WaylandRequest>) -> Option<Compositor>
        decreases requests.len(),
    {
        if requests.len() == 0 {
            Some(self)
        } else {
            match self.carried_all(requests.drop_last()) {
                Some(between) => between.carried(requests.last()),
                None => None,
            }
        }
    }

    /// Whether the compositor keeps what the service believes it keeps, with
    /// nothing left to commit.
    pub open spec fn agrees(self, state: GuayusaWaylandState) -> bool {
        &&& self.manager == state.idle_inhibit_manager
        &&& self.surface == state.surface
        &&& self.inhibitor == state.inhibitor
        &&& !self.uncommitted
    }
}

/// One request, two and three requests.
proof fn short_lists(
    compositor: Compositor,
    a: WaylandRequest,
    b: WaylandRequest,
    c: WaylandRequest,
)
    ensures
        compositor.carried_all(Seq::empty()) == Some(compositor),
        compositor.carried_all(seq![a]) == compositor.carried(a),
        compositor.carried(a) matches Some(one) ==> {
            &&& compositor.carried_all(seq![a, b]) == one.carried(b)
            &&& one.carried(b) matches Some(two) ==> compositor.carried_all(seq![a, b, c])
                == two.carried(c)
        },
{
    reveal_with_fuel(Compositor::carried_all, 4);
    assert(seq![a].drop_last() =~= Seq::<WaylandRequest>::empty());
    assert(seq![a, b].drop_last() =~= seq![a]);
    assert(seq![a, b, c].drop_last() =~= seq![a, b]);
}

/// Carried out by the compositor, the requests that create the inhibitor, that
/// destroy it and that give up everything keep to the protocol and have just
/// that effect, and the surface is committed.
pub proof fn requests_have_their_effect(compositor: Compositor, state: GuayusaWaylandState)
    requires
        state.wf(),
        compositor.agrees(state),
    ensures
        state.creation() matches Ok(requests) ==> (compositor.carried_all(requests) matches Some(
            after,
        ) && after.agrees(GuayusaWaylandState { inhibitor: true, ..state })),
        compositor.carried_all(state.destruction()) matches Some(after) && after.agrees(
            GuayusaWaylandState { inhibitor: false, ..state },
        ),
        compositor.carried_all(state.clearance()) matches Some(after) && after.agrees(
            GuayusaWaylandState { inhibitor: false, surface: false, ..state },
        ),
{
    let create = WaylandRequest::CreateInhibitor;
    let destroy = WaylandRequest::DestroyInhibitor;
    let commit = WaylandRequest::CommitSurface;
    let give_up = WaylandRequest::DestroySurface;
    short_lists(compositor, create, commit, commit);
    short_lists(compositor, destroy, commit, give_up);
    short_lists(compositor, commit, give_up, give_up);
    assert(state.clearance() =~= (if state.inhibitor {
        seq![destroy, commit, give_up]
    } else if state.surface {
        seq![commit, give_up]
    } else {
        Seq::empty()
    }));
}

/// What the compositor keeps after all the steps of the loop. It carries out
/// what is sent to it.
pub open spec fn kept(start: LoopModel, compositor: Compositor, steps: Seq<LoopStep>) -> Option<
    Compositor,
>
    decreases steps.len(),
{
    if steps.len() == 0 {
        Some(compositor)
    } else {
        let before = wayland_laws::loop_run(start, steps.drop_last());
        match kept(start, compositor, steps.drop_last()) {
            Some(held) => match (before.pending(), steps.last()) {
                (LoopRequest::Send(requests), LoopStep::Turn(LoopEvent::Done)) => held.carried_all(
                    requests,
                ),
                (_, LoopStep::Announced(Global::IdleInhibitManager)) => Some(
                    Compositor { manager: true, ..held },
                ),
                _ => Some(held),
            },
            None => None,
        }
    }
}

/// How compositor and loop stand to each other.
spec fn in_step(now: LoopModel, held: Compositor) -> bool {
    &&& now.wf()
    &&& now.phase matches LoopPhase::Pumping { pump, .. } ==> !(pump is Over)
    &&& match now.phase {
        LoopPhase::Sending { inhibited } => {
            &&& inhibited == now.state.inhibitor
            &&& held.surface && now.state.surface
            &&& held.manager == now.state.idle_inhibit_manager
            &&& inhibited ==> held.manager
            &&& !held.uncommitted && held.inhibitor == !inhibited
            &&& now.requests == (if inhibited {
                seq![WaylandRequest::CreateInhibitor, WaylandRequest::CommitSurface]
            } else {
                seq![WaylandRequest::DestroyInhibitor, WaylandRequest::CommitSurface]
            })
        },
        LoopPhase::Cleaning => {
            &&& !now.state.inhibitor && !now.state.surface
            &&& held.manager == now.state.idle_inhibit_manager
            &&& !held.uncommitted
            &&& held.inhibitor ==> held.surface
            &&& now.requests == (if held.inhibitor {
                seq![
                    WaylandRequest::DestroyInhibitor,
                    WaylandRequest::CommitSurface,
                    WaylandRequest::DestroySurface,
                ]
            } else if held.surface {
                seq![WaylandRequest::CommitSurface, WaylandRequest::DestroySurface]
            } else {
                Seq::empty()
            })
        },
        _ => held.agrees(now.state) && now.requests == Seq::<WaylandRequest>::empty(),
    }
}

/// How compositor and loop stand to each other after some steps.
proof fn follow_compositor(start: LoopModel, compositor: Compositor, steps: Seq<LoopStep>)
    requires
        in_step(start, compositor),
    ensures
        kept(start, compositor, steps) matches Some(held) && in_step(
            wayland_laws::loop_run(start, steps),
            held,
        ),
    decreases steps.len(),
{
    if steps.len() > 0 {
        follow_compositor(start, compositor, steps.drop_last());
        let before = wayland_laws::loop_run(start, steps.drop_last());
        let held = kept(start, compositor, steps.drop_last())->0;
        let create = WaylandRequest::CreateInhibitor;
        let destroy = WaylandRequest::DestroyInhibitor;
        let commit = WaylandRequest::CommitSurface;
        let give_up = WaylandRequest::DestroySurface;
        short_lists(held, create, commit, commit);
        short_lists(held, destroy, commit, give_up);
        short_lists(held, commit, give_up, give_up);
        assert(before.state.clearance() =~= (if before.state.inhibitor && before.state.surface {
            seq![destroy, commit, give_up]
        } else if before.state.inhibitor {
            seq![destroy]
        } else if before.state.surface {
            seq![commit, give_up]
        } else {
            Seq::empty()
        }));
    }
}

/// Whatever happens, the loop keeps to the protocol, and whenever it waits the
/// compositor keeps an inhibitor exactly if the loop believes so. When the loop
/// has ended, the compositor keeps neither inhibitor nor surface.
pub proof fn compositor_keeps_what_the_loop_believes(
    state: GuayusaWaylandState,
    event_loop: EventLoop,
    compositor: Compositor,
    steps: Seq<LoopStep>,
)
    requires
        state.wf(),
        compositor.agrees(state),
        call_ensures(event_loop::wayland_event_loop, (state,), event_loop),
    ensures
        ({
            let now = wayland_laws::loop_run(event_loop@, steps);
            kept(event_loop@, compositor, steps) matches Some(held) && {
                &&& !(now.pending() is Send) ==> held.agrees(now.state)
                &&& now.pending() is End ==> !held.inhibitor && !held.surface
            }
        }),
{
    follow_compositor(event_loop@, compositor, steps);
    follow_the_way_out(event_loop@, steps);
}

/// On its way out, the loop has given up its objects.
proof fn follow_the_way_out(start: LoopModel, steps: Seq<LoopStep>)
    requires
        !leaves(start),
    ensures
        ({
            let now = wayland_laws::loop_run(start, steps);
            leaves(now) ==> !now.state.inhibitor && !now.state.surface
        }),
    decreases steps.len(),
{
    if steps.len() > 0 {
        follow_the_way_out(start, steps.drop_last());
    }
}

/// Whether the loop is on its way out.
pub open spec fn leaves(now: LoopModel) -> bool {
    now.phase is Cleaning || now.phase is Flushing || now.phase is Ended
}

/// The loop leaves for four reasons and no other: it is told to shut down, the
/// compositor cannot be waited for, no wishes can come any more, or the
/// connection takes no output. It then sends what gives up the objects that
/// there are, inhibitor first, and keeps neither inhibitor nor surface.
pub proof fn loop_leaves_for_four_reasons(now: LoopModel, event: LoopEvent)
    requires
        !leaves(now),
    ensures
        leaves(now.after(event)) <==> {
            ||| now.pending() is LoadShutdown && event == LoopEvent::Shutdown(true)
            ||| now.pending() is Wait && (event is Unreadable || event is Closed)
            ||| now.pending() is FlushConnection && event is Failed
        },
        leaves(now.after(event)) ==> {
            &&& now.after(event).state == (GuayusaWaylandState {
                inhibitor: false,
                surface: false,
                ..now.state
            })
            &&& now.after(event).pending() matches LoopRequest::Send(requests) && requests
                == parting_requests(now.state)
        },
{
    assert(now.state.clearance() =~= parting_requests(now.state));
}

/// What gives up the objects that there are, inhibitor first. The surface is
/// committed before it goes.
pub open spec fn parting_requests(state: GuayusaWaylandState) -> Seq<WaylandRequest> {
    match (state.inhibitor, state.surface) {
        (true, true) => seq![
            WaylandRequest::DestroyInhibitor,
            WaylandRequest::CommitSurface,
            WaylandRequest::DestroySurface,
        ],
        (true, false) => seq![WaylandRequest::DestroyInhibitor],
        (false, true) => seq![WaylandRequest::CommitSurface, WaylandRequest::DestroySurface],
        (false, false) => Seq::empty(),
    }
}

/// Only a client's wish or leaving changes what objects there are.
pub proof fn objects_stay_unless_wished(now: LoopModel, event: LoopEvent)
    ensures
        now.after(event).state != now.state ==> {
            ||| now.pending() is Wait && event is Message
            ||| !leaves(now) && leaves(now.after(event))
        },
        now.after(event).state.compositor == now.state.compositor,
        now.after(event).state.idle_inhibit_manager == now.state.idle_inhibit_manager,
        now.after(event).state.surface != now.state.surface ==> leaves(now.after(event)),
{
}

/// Once on its way out, the loop sends, flushes and ends, whether or not the
/// flush succeeds, and stays that way.
pub proof fn way_out_leads_to_the_end(now: LoopModel, event: LoopEvent)
    requires
        leaves(now),
    ensures
        leaves(now.after(event)),
        now.after(event).state == now.state,
        now.pending() is Send && event is Done ==> now.after(event).pending() is Flush,
        now.pending() is Send && !(event is Done) ==> now.after(event) == now,
        now.pending() is Flush ==> if event == LoopEvent::Pump(PumpEvent::Flushed) || event
            == LoopEvent::Pump(PumpEvent::Failed) {
            now.after(event).pending() is End
        } else {
            now.after(event) == now
        },
        now.pending() is End ==> now.after(event) == now,
{
}

/// A heartbeat checks the connection, whatever objects there are. If that takes
/// output, nothing has changed when the loop waits again.
pub proof fn healthy_heartbeats_change_nothing(now: LoopModel)
    requires
        now.pending() is Wait,
    ensures
        now.after(LoopEvent::Heartbeat).pending() is FlushConnection,
        now.after(LoopEvent::Heartbeat).state == now.state,
        now.after(LoopEvent::Heartbeat).after(LoopEvent::Done).pending() is LoadShutdown,
        now.after(LoopEvent::Heartbeat).after(LoopEvent::Done).after(
            LoopEvent::Shutdown(false),
        ).pending() is Wait,
        now.after(LoopEvent::Heartbeat).after(LoopEvent::Done).after(
            LoopEvent::Shutdown(false),
        ).state == now.state,
{
}

/// Before it waits, the loop looks whether the service shuts down.
pub proof fn loop_waits_unless_told_to_shut_down(now: LoopModel)
    requires
        now.pending() is LoadShutdown,
    ensures
        now.after(LoopEvent::Shutdown(false)).pending() is Wait,
        now.after(LoopEvent::Shutdown(false)).state == now.state,
        now.after(LoopEvent::Shutdown(true)).pending() is Send,
{
}

/// A client's wish: to enable, to disable, or to have the other of the two.
pub open spec fn wants_inhibitor(message: InhibitorMessage, held: bool) -> bool {
    match message {
        InhibitorMessage::Enable => true,
        InhibitorMessage::Disable => false,
        InhibitorMessage::Toggle => !held,
    }
}

/// A wish for an inhibitor creates one and commits the surface, if there is none
/// and one can be had; a wish for none destroys the one there is and commits the
/// surface, as far as there is one. Otherwise the loop turns to the next round
/// with nothing changed.
pub proof fn wishes_change_the_inhibitor(now: LoopModel, message: InhibitorMessage)
    requires
        now.pending() is Wait,
    ensures
        ({
            let wanted = wants_inhibitor(message, now.state.inhibitor);
            let next = now.after(LoopEvent::Message(message));
            if wanted == now.state.inhibitor || (wanted && !(now.state.idle_inhibit_manager
                && now.state.surface)) {
                next.pending() is LoadShutdown && next.state == now.state
            } else {
                &&& next.state == (GuayusaWaylandState { inhibitor: wanted, ..now.state })
                &&& next.pending() matches LoopRequest::Send(requests) && requests == (if wanted {
                    seq![WaylandRequest::CreateInhibitor, WaylandRequest::CommitSurface]
                } else if now.state.surface {
                    seq![WaylandRequest::DestroyInhibitor, WaylandRequest::CommitSurface]
                } else {
                    seq![WaylandRequest::DestroyInhibitor]
                })
            }
        }),
{
}

/// A change that was sent is flushed, what comes in is dispatched once, and the
/// status is recorded as the change left it. If flush or dispatch fails, nothing
/// is recorded. Either way the objects stay and the loop turns to the next round.
pub proof fn changes_are_flushed_and_recorded(now: LoopModel, inhibited: bool, count: usize)
    requires
        now.phase == (LoopPhase::Sending { inhibited }),
    ensures
        ({
            let sent = now.after(LoopEvent::Done);
            let flushed = sent.after(LoopEvent::Pump(PumpEvent::Flushed));
            let dispatched = flushed.after(LoopEvent::Pump(PumpEvent::Dispatched(count)));
            let unflushed = sent.after(LoopEvent::Pump(PumpEvent::Failed));
            let undispatched = flushed.after(LoopEvent::Pump(PumpEvent::Failed));
            let stored = dispatched.after(LoopEvent::Done);
            &&& now.pending() is Send
            &&& sent.pending() is Flush && sent.state == now.state
            &&& flushed.pending() is Dispatch && flushed.state == now.state
            &&& dispatched.pending() == LoopRequest::StoreStatus(inhibited) && dispatched.state
                == now.state
            &&& stored.pending() is LoadShutdown && stored.state == now.state
            &&& unflushed.pending() is LoadShutdown && unflushed.state == now.state
            &&& undispatched.pending() is LoadShutdown && undispatched.state == now.state
        }),
{
}

/// What the loop does next once an exchange has come to this point.
pub open spec fn exchange_goes_on(now: LoopModel, pump: Pump, purpose: Purpose) -> bool {
    match (pump, purpose) {
        (Pump::Flush { .. }, _) => now.pending() is Flush,
        (Pump::Dispatch { .. }, _) => now.pending() is Dispatch,
        (Pump::Over { .. }, Purpose::TakeIn) => now.pending() is ClearReady,
        (Pump::Over { outcome: Ok(_) }, Purpose::Announce { inhibited }) => now.pending()
            == LoopRequest::StoreStatus(inhibited),
        (Pump::Over { outcome: Err(_) }, Purpose::Announce { .. }) => now.pending()
            is LoadShutdown,
    }
}

/// What the compositor sends is taken in by up to five dispatches. Whatever
/// comes of that, the connection is marked as read, the objects stay, and the
/// loop turns to the next round.
pub proof fn events_are_taken_in(now: LoopModel, events: Seq<PumpEvent>)
    requires
        now.pending() is Wait,
        wayland_laws::pump_answered(Pump::Dispatch { left: 5 }, events),
    ensures
        ({
            let turns = events.map_values(
                |event: PumpEvent| LoopStep::Turn(LoopEvent::Pump(event)),
            );
            let next = wayland_laws::loop_run(now.after(LoopEvent::Readable), turns);
            let pump = wayland_laws::pump_run(Pump::Dispatch { left: 5 }, events);
            &&& next.state == now.state
            &&& exchange_goes_on(next, pump, Purpose::TakeIn)
            &&& next.pending() is ClearReady ==> next.after(LoopEvent::Done).pending()
                is LoadShutdown && next.after(LoopEvent::Done).state == now.state
        }),
{
    follow_exchange(
        now.after(LoopEvent::Readable),
        Pump::Dispatch { left: 5 },
        Purpose::TakeIn,
        events,
    );
}

/// Where an exchange of the loop stands after some events.
proof fn follow_exchange(now: LoopModel, pump: Pump, purpose: Purpose, events: Seq<PumpEvent>)
    requires
        now.phase == (LoopPhase::Pumping { pump, purpose }),
        !(pump is Over),
        wayland_laws::pump_answered(pump, events),
    ensures
        ({
            let turns = events.map_values(
                |event: PumpEvent| LoopStep::Turn(LoopEvent::Pump(event)),
            );
            let next = wayland_laws::loop_run(now, turns);
            let reached = wayland_laws::pump_run(pump, events);
            &&& next.state == now.state
            &&& exchange_goes_on(next, reached, purpose)
            &&& !(reached is Over) ==> next.phase == (LoopPhase::Pumping { pump: reached, purpose })
        }),
    decreases events.len(),
{
    let turns = events.map_values(|event: PumpEvent| LoopStep::Turn(LoopEvent::Pump(event)));
    if events.len() > 0 {
        follow_exchange(now, pump, purpose, events.drop_last());
        assert(turns.drop_last() =~= events.drop_last().map_values(
            |event: PumpEvent| LoopStep::Turn(LoopEvent::Pump(event)),
        ));
    }
}

/// Each request takes the events of its kind; every other event leaves the loop
/// as it is.
pub proof fn stray_events_change_nothing(now: LoopModel, event: LoopEvent)
    requires
        now.phase matches LoopPhase::Pumping { pump, .. } ==> !(pump is Over)
            && now.requests.len() == 0,
    ensures
        !(match now.pending() {
            LoopRequest::LoadShutdown => event is Shutdown,
            LoopRequest::Wait => event is Readable || event is Unreadable || event is Message
                || event is Heartbeat || event is Closed,
            LoopRequest::Send(_) => event is Done,
            LoopRequest::Flush => event == LoopEvent::Pump(PumpEvent::Flushed) || event
                == LoopEvent::Pump(PumpEvent::Failed),
            LoopRequest::Dispatch => event matches LoopEvent::Pump(outcome) && !(outcome
                is Flushed),
            LoopRequest::StoreStatus(_) => event is Done,
            LoopRequest::ClearReady => event is Done,
            LoopRequest::FlushConnection => event is Done || event is Failed,
            LoopRequest::End => false,
        }) ==> now.after(event) == now,
{
    assert(now.requests.len() == 0 ==> now.requests =~= Seq::<WaylandRequest>::empty());
}

/// What the loop does outside is what is requested: the same requests in the
/// same order, the same status.
pub proof fn loop_actions_say_what_is_requested(event_loop: EventLoop, action: LoopAction)
    requires
        call_ensures(EventLoop::action, (&event_loop,), action),
    ensures
        match event_loop@.pending() {
            LoopRequest::LoadShutdown => action is LoadShutdown,
            LoopRequest::Wait => action is Wait,
            LoopRequest::Send(requests) => action matches LoopAction::Send(sent) && sent@
                == requests,
            LoopRequest::Flush => action is Flush,
            LoopRequest::Dispatch => action is Dispatch,
            LoopRequest::StoreStatus(status) => action == LoopAction::StoreStatus(status),
            LoopRequest::ClearReady => action is ClearReady,
            LoopRequest::FlushConnection => action is FlushConnection,
            LoopRequest::End => action is End,
        },
        event_loop@.state == event_loop.state,
        event_loop@.phase == event_loop.phase,
        event_loop@.requests == event_loop.requests@,
{
}

/// The loop starts with a look whether the service shuts down, with the objects
/// that it was given.
pub proof fn loops_start_with_what_they_are_given(
    state: GuayusaWaylandState,
    event_loop: EventLoop,
)
    requires
        call_ensures(event_loop::wayland_event_loop, (state,), event_loop),
    ensures
        event_loop.state == state,
        event_loop@.pending() is LoadShutdown,
{
}

/// An announced global is noted for itself, and nothing else changes.
pub proof fn announcements_are_noted(now: LoopModel)
    ensures
        now.announced(Global::Compositor) == (LoopModel {
            state: GuayusaWaylandState { compositor: true, ..now.state },
            ..now
        }),
        now.announced(Global::IdleInhibitManager) == (LoopModel {
            state: GuayusaWaylandState { idle_inhibit_manager: true, ..now.state },
            ..now
        }),
{
}

/// A warning is due exactly if something fails, and says what: waiting, the
/// creation of an inhibitor, an exchange, the check of the connection or the
/// last flush. Where there is a cause, it stands at the end.
pub proof fn loop_warns_of_failures(
    event_loop: EventLoop,
    event: LoopEvent,
    cause: &str,
    message: Option<String>,
)
    requires
        call_ensures(EventLoop::warning, (&event_loop, event, cause), message),
    ensures
        ({
            let state = event_loop.state;
            match (event_loop.phase, event) {
                (LoopPhase::Waiting, LoopEvent::Unreadable) => message matches Some(text) && text@
                    == "Error waiting for Wayland events: "@ + cause@,
                (LoopPhase::Waiting, LoopEvent::Message(wish)) => if !wants_inhibitor(
                    wish,
                    state.inhibitor,
                ) || state.inhibitor {
                    message is None
                } else if !state.idle_inhibit_manager {
                    message matches Some(text) && text@ == "Failed to create inhibitor: "@
                        + "Idle inhibit manager not available"@
                } else if !state.surface {
                    message matches Some(text) && text@ == "Failed to create inhibitor: "@
                        + "Surface not available"@
                } else {
                    message is None
                },
                (LoopPhase::Pumping { pump, purpose }, LoopEvent::Pump(PumpEvent::Failed)) => {
                    let head = match purpose {
                        Purpose::TakeIn => "Error dispatching Wayland events: "@,
                        Purpose::Announce { inhibited: true } =>
                            "Error flushing after creating inhibitor: "@,
                        Purpose::Announce { inhibited: false } =>
                            "Error flushing after destroying inhibitor: "@,
                    };
                    if pump is Over {
                        message is None
                    } else {
                        message matches Some(text) && text@ == head + (if pump is Flush {
                            "Failed to flush Wayland connection"@
                        } else {
                            "Dispatch error: "@ + cause@
                        })
                    }
                },
                (LoopPhase::Probing, LoopEvent::Failed) => message matches Some(text) && text@
                    == "Wayland connection unhealthy (flush failed), exiting event loop"@,
                (LoopPhase::Flushing, LoopEvent::Pump(PumpEvent::Failed)) => message matches Some(
                    text,
                ) && text@ == "Failed to flush Wayland queue during final cleanup: "@ + cause@,
                _ => message is None,
            }
        }),
{
}

/// A turn of the loop is a turn of its model, and an announcement is answered
/// with what to bind and noted for itself.
pub proof fn turns_are_those_of_the_model(
    event: LoopEvent,
    name: u32,
    interface: &str,
    version: u32,
    binding: Option<wayland::Binding>,
)
    ensures
        forall|event_loop: &mut EventLoop| #[trigger]
            call_ensures(EventLoop::step, (event_loop, event), ()) ==> (*final(event_loop))@ == (
            *event_loop)@.after(event),
        forall|event_loop: &mut EventLoop| #[trigger]
            call_ensures(EventLoop::announce, (event_loop, name, interface, version), binding) ==> {
                &&& binding == wayland::binding_for(name, interface@, version)
                &&& (*final(event_loop))@ == (LoopModel {
                    state: GuayusaWaylandState {
                        compositor: (*event_loop)@.state.compositor || interface@
                            == "wl_compositor"@,
                        idle_inhibit_manager: (*event_loop)@.state.idle_inhibit_manager
                            || interface@ == "zwp_idle_inhibit_manager_v1"@,
                        ..(*event_loop)@.state
                    },
                    ..(*event_loop)@
                })
            },
{
    reveal_strlit("wl_compositor");
    reveal_strlit("zwp_idle_inhibit_manager_v1");
    assert("wl_compositor"@.len() != "zwp_idle_inhibit_manager_v1"@.len());
}

} // verus!
