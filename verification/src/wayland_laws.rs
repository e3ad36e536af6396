//! What holds of idle inhibition as a whole.

use crate::event_loop;
use crate::event_loop::{LoopEvent, LoopModel, LoopPhase, Purpose};
use crate::wayland;
use crate::wayland::{Global, GuayusaWaylandState, InhibitorMessage, Pump, PumpEvent, WaylandRequest};
use crate::wayland_setup::{Setup, SetupEvent};
use vstd::prelude::*;

verus! {

/// Destroying the inhibitor undoes its creation.
pub proof fn destruction_undoes_creation(state: GuayusaWaylandState)
    requires
        !state.inhibitor,
    ensures
        state.with_inhibitor().without_inhibitor() == state,
        state.creation() is Ok <==> state.with_inhibitor().inhibitor,
        state.creation() is Err <==> state.with_inhibitor() == state,
{
}

/// Creating an inhibitor that exists, and destroying one that does not, changes
/// nothing and sends nothing.
pub proof fn repetition_is_harmless(state: GuayusaWaylandState)
    ensures
        state.inhibitor ==> state.creation() == Ok::<_, wayland::WaylandError>(
            Seq::<WaylandRequest>::empty(),
        ) && state.with_inhibitor() == state,
        !state.inhibitor ==> state.destruction() == Seq::<WaylandRequest>::empty()
            && state.without_inhibitor() == state,
{
}

/// Giving up all objects destroys each that exists, commits the surface once
/// at most, and leaves nothing to give up.
pub proof fn cleanup_is_thorough(state: GuayusaWaylandState)
    ensures
        state.clearance().contains(WaylandRequest::DestroyInhibitor) <==> state.inhibitor,
        state.clearance().contains(WaylandRequest::DestroySurface) <==> state.surface,
        state.clearance().contains(WaylandRequest::CommitSurface) <==> state.surface,
        state.clearance().no_duplicates(),
        state.cleared().clearance() == Seq::<WaylandRequest>::empty(),
        state.cleared().cleared() == state.cleared(),
{
    let sent = state.clearance();
    if state.inhibitor {
        assert(sent[0] == WaylandRequest::DestroyInhibitor);
    }
    if state.surface {
        assert(sent[sent.len() - 2] == WaylandRequest::CommitSurface);
        assert(sent[sent.len() - 1] == WaylandRequest::DestroySurface);
    }
    assert(state.cleared().clearance() =~= Seq::<WaylandRequest>::empty());
}

/// What can happen during the set-up.
pub enum SetupStep {
    /// The pending action has come to an end.
    Outcome(SetupEvent),
    /// The compositor has announced a global, which was bound.
    Announced(Global),
}

/// The set-up, and the objects that exist, after all the steps.
pub open spec fn setup_run(
    start: (Setup, GuayusaWaylandState),
    steps: Seq<SetupStep>,
) -> (Setup, GuayusaWaylandState)
    decreases steps.len(),
{
    if steps.len() == 0 {
        start
    } else {
        let (setup, state) = setup_run(start, steps.drop_last());
        match steps.last() {
            SetupStep::Outcome(event) => (setup.after(state, event), setup.state_after(state)),
            SetupStep::Announced(global) => (setup, state.with_global(global)),
        }
    }
}

/// Once a set-up is through, there are a compositor, a manager and a surface,
/// so that an inhibitor can be created.
pub proof fn setup_enables_inhibition(state: GuayusaWaylandState, steps: Seq<SetupStep>)
    requires
        !state.inhibitor,
    ensures
        ({
            let (setup, now) = setup_run((Setup::Connecting, state), steps);
            setup is Ready ==> {
                &&& now.compositor && now.idle_inhibit_manager && now.surface
                &&& now.creation() == Ok::<_, wayland::WaylandError>(
                    seq![WaylandRequest::CreateInhibitor, WaylandRequest::CommitSurface],
                )
                &&& now.with_inhibitor().inhibitor
            }
        }),
{
    follow_setup(state, steps);
}

/// Where the set-up stands after some steps.
proof fn follow_setup(state: GuayusaWaylandState, steps: Seq<SetupStep>)
    requires
        !state.inhibitor,
    ensures
        ({
            let (setup, now) = setup_run((Setup::Connecting, state), steps);
            setup.reached(now) && !now.inhibitor
        }),
    decreases steps.len(),
{
    if steps.len() > 0 {
        follow_setup(state, steps.drop_last());
    }
}

/// The exchange after all the events.
pub open spec fn pump_run(pump: Pump, events: Seq<PumpEvent>) -> Pump
    decreases events.len(),
{
    if events.len() == 0 {
        pump
    } else {
        pump_run(pump, events.drop_last()).after(events.last())
    }
}

/// Whether every event answers the action that is pending when it comes.
pub open spec fn pump_answered(pump: Pump, events: Seq<PumpEvent>) -> bool
    decreases events.len(),
{
    events.len() > 0 ==> {
        &&& pump_answered(pump, events.drop_last())
        &&& pump_run(pump, events.drop_last()).answered_by(events.last())
    }
}

/// How many actions an exchange takes at most: a flush if asked for, and as many
/// dispatches as allowed.
pub open spec fn most_actions(needs_flush: bool, max_events: usize) -> nat {
    max_events as nat + (if needs_flush {
        1nat
    } else {
        0
    })
}

/// Whether every dispatch took something in.
pub open spec fn all_took_in(events: Seq<PumpEvent>) -> bool {
    forall|i: int| 0 <= i < events.len() ==> #[trigger] events[i] != PumpEvent::Dispatched(0)
}

/// An exchange flushes at most once and dispatches at most as often as it may.
/// It goes on as long as every dispatch takes something in; it ends well at the
/// first dispatch that takes nothing in, or when it may not go on, and ends
/// with a failure exactly at the first action that fails.
pub proof fn exchanges_take_in_what_there_is(
    needs_flush: bool,
    max_events: usize,
    events: Seq<PumpEvent>,
)
    requires
        pump_answered(wayland::exchange(needs_flush, max_events), events),
    ensures
        events.len() <= most_actions(needs_flush, max_events),
        events.len() > 0 ==> all_took_in(events.drop_last()),
        match pump_run(wayland::exchange(needs_flush, max_events), events) {
            Pump::Flush { max_events: allowed } => {
                &&& needs_flush && events.len() == 0
                &&& allowed == max_events
            },
            Pump::Dispatch { left } => {
                &&& all_took_in(events) && left > 0
                &&& left + events.len() == most_actions(needs_flush, max_events)
            },
            Pump::Over { outcome: Ok(_) } => {
                ||| events.len() == most_actions(needs_flush, max_events)
                ||| events.len() > 0 && events.last() == PumpEvent::Dispatched(0)
            },
            Pump::Over { outcome: Err(_) } => events.len() > 0 && events.last() is Failed,
        },
        events.len() > 0 && events.last() is Failed ==> (pump_run(
            wayland::exchange(needs_flush, max_events),
            events,
        ) matches Pump::Over { outcome: Err(_) }),
    decreases events.len(),
{
    if events.len() > 0 {
        exchanges_take_in_what_there_is(needs_flush, max_events, events.drop_last());
        assert(events =~= events.drop_last().push(events.last()));
    }
}

/// What can happen while the loop runs.
pub enum LoopStep {
    /// The pending action has come to an end.
    Turn(LoopEvent),
    /// The compositor has announced a global, which was bound.
    Announced(Global),
}

/// The loop after all the steps.
pub open spec fn loop_run(start: LoopModel, steps: Seq<LoopStep>) -> LoopModel
    decreases steps.len(),
{
    if steps.len() == 0 {
        start
    } else {
        let before = loop_run(start, steps.drop_last());
        match steps.last() {
            LoopStep::Turn(event) => before.after(event),
            LoopStep::Announced(global) => before.announced(global),
        }
    }
}

/// The inhibition status on record after all the steps.
pub open spec fn recorded(start: LoopModel, status: bool, steps: Seq<LoopStep>) -> bool
    decreases steps.len(),
{
    if steps.len() == 0 {
        status
    } else {
        match (loop_run(start, steps.drop_last()).phase, steps.last()) {
            (LoopPhase::Storing { inhibited }, LoopStep::Turn(LoopEvent::Done)) => inhibited,
            _ => recorded(start, status, steps.drop_last()),
        }
    }
}

/// Whether every change of the inhibitor was made known to the compositor.
pub open spec fn undisturbed(start: LoopModel, steps: Seq<LoopStep>) -> bool
    decreases steps.len(),
{
    steps.len() > 0 ==> {
        &&& undisturbed(start, steps.drop_last())
        &&& !(loop_run(start, steps.drop_last()).phase matches LoopPhase::Pumping {
            purpose: Purpose::Announce { .. },
            ..
        } && steps.last() == LoopStep::Turn(LoopEvent::Pump(PumpEvent::Failed)))
    }
}

/// Whether the record agrees with the inhibitor, as far as it should.
spec fn on_record(now: LoopModel, status: bool) -> bool {
    match now.phase {
        LoopPhase::Sending { inhibited } => now.state.inhibitor == inhibited,
        LoopPhase::Storing { inhibited } => now.state.inhibitor == inhibited,
        LoopPhase::Pumping { purpose: Purpose::Announce { inhibited }, pump } => {
            &&& now.state.inhibitor == inhibited
            &&& !(pump is Over)
        },
        LoopPhase::Pumping { purpose: Purpose::TakeIn, pump } => {
            &&& now.state.inhibitor == status
            &&& !(pump is Over)
        },
        LoopPhase::Cleaning | LoopPhase::Flushing | LoopPhase::Ended => true,
        _ => now.state.inhibitor == status,
    }
}

/// Whenever the loop waits, the status on record tells whether there is an
/// inhibitor, unless a change could not be made known.
pub proof fn record_follows_the_inhibitor(
    state: GuayusaWaylandState,
    status: bool,
    steps: Seq<LoopStep>,
)
    requires
        status == state.inhibitor,
        ({
            let start = LoopModel { state, phase: LoopPhase::Checking, requests: Seq::empty() };
            undisturbed(start, steps)
        }),
    ensures
        ({
            let start = LoopModel { state, phase: LoopPhase::Checking, requests: Seq::empty() };
            let now = loop_run(start, steps);
            now.phase is Waiting ==> recorded(start, status, steps) == now.state.inhibitor
        }),
{
    let start = LoopModel { state, phase: LoopPhase::Checking, requests: Seq::empty() };
    follow_record(start, status, steps);
}

/// How the record stands after some steps.
proof fn follow_record(start: LoopModel, status: bool, steps: Seq<LoopStep>)
    requires
        on_record(start, status),
        undisturbed(start, steps),
    ensures
        on_record(loop_run(start, steps), recorded(start, status, steps)),
    decreases steps.len(),
{
    if steps.len() > 0 {
        follow_record(start, status, steps.drop_last());
    }
}

/// Whatever happens and whatever is announced, an inhibitor has its manager and
/// its surface.
pub proof fn loops_stay_well_formed(start: LoopModel, steps: Seq<LoopStep>)
    requires
        start.wf(),
    ensures
        loop_run(start, steps).wf(),
    decreases steps.len(),
{
    if steps.len() > 0 {
        loops_stay_well_formed(start, steps.drop_last());
    }
}

/// Once the loop is on its way out, nothing is left in place and nothing is
/// created any more.
pub proof fn loops_leave_nothing_behind(
    state: GuayusaWaylandState,
    steps: Seq<LoopStep>,
)
    ensures
        ({
            let start = LoopModel { state, phase: LoopPhase::Checking, requests: Seq::empty() };
            let now = loop_run(start, steps);
            now.phase is Cleaning || now.phase is Flushing || now.phase is Ended
                ==> !now.state.inhibitor && !now.state.surface
        }),
    decreases steps.len(),
{
    if steps.len() > 0 {
        loops_leave_nothing_behind(state, steps.drop_last());
    }
}

/// A client's wish is met whenever an inhibitor can be had, and a second toggle
/// takes the first one back.
pub proof fn wishes_are_met(now: LoopModel, message: InhibitorMessage)
    requires
        now.wf(),
        now.state.idle_inhibit_manager,
        now.state.surface,
    ensures
        now.wished(message).state.inhibitor == event_loop::wish(message, now.state.inhibitor),
        now.wished(InhibitorMessage::Toggle).wished(InhibitorMessage::Toggle).state == now.state,
        now.wished(message).requests.len() > 0 <==> now.wished(message).state != now.state,
{
}

/// A request to shut down ends the loop, whether or not the last flush succeeds.
pub proof fn shutdown_ends_the_loop(now: LoopModel)
    requires
        now.phase is Checking,
    ensures
        now.after(LoopEvent::Shutdown(true)).phase is Cleaning,
        now.after(LoopEvent::Shutdown(true)).requests == now.state.clearance(),
        now.after(LoopEvent::Shutdown(true)).after(LoopEvent::Done).after(
            LoopEvent::Pump(PumpEvent::Flushed),
        ).phase is Ended,
        now.after(LoopEvent::Shutdown(true)).after(LoopEvent::Done).after(
            LoopEvent::Pump(PumpEvent::Failed),
        ).phase is Ended,
{
}

} // verus!
