//! What can be relied on of the protocol objects, of exchanges with the
//! compositor and of the set-up.

use crate::loop_laws;
use crate::wayland;
use crate::wayland::{
    Binding, Global, GuayusaWaylandState, Pump, PumpError, PumpEvent, WaylandError, WaylandRequest,
};
use crate::wayland_setup;
use crate::wayland_setup::{Setup, SetupError, SetupEvent};
use vstd::prelude::*;

verus! {

/// An inhibitor is created by two requests, the second of which commits the
/// surface. It takes a manager and a surface, and which of them is missing is
/// told, the manager first. An inhibitor that exists is not created again.
pub proof fn inhibitors_take_a_manager_and_a_surface(state: GuayusaWaylandState)
    ensures
        match state.creation() {
            Ok(requests) => {
                &&& state.inhibitor || (state.idle_inhibit_manager && state.surface)
                &&& requests == (if state.inhibitor {
                    Seq::empty()
                } else {
                    seq![WaylandRequest::CreateInhibitor, WaylandRequest::CommitSurface]
                })
            },
            Err(WaylandError::ManagerMissing) => !state.inhibitor && !state.idle_inhibit_manager,
            Err(WaylandError::SurfaceMissing) => !state.inhibitor && state.idle_inhibit_manager
                && !state.surface,
        },
        state.with_inhibitor() == (GuayusaWaylandState {
            inhibitor: state.creation() is Ok,
            ..state
        }),
{
}

/// Destroying the inhibitor sends its destruction once, if there is one, and
/// commits the surface if there is one. No other object is touched.
pub proof fn destruction_touches_the_inhibitor_alone(state: GuayusaWaylandState)
    ensures
        state.destruction() == (if !state.inhibitor {
            Seq::empty()
        } else if !state.surface {
            seq![WaylandRequest::DestroyInhibitor]
        } else {
            seq![WaylandRequest::DestroyInhibitor, WaylandRequest::CommitSurface]
        }),
        state.without_inhibitor() == (GuayusaWaylandState { inhibitor: false, ..state }),
{
}

/// Giving up the objects of the service sends no more than it takes, inhibitor
/// first, and keeps the globals.
pub proof fn cleanup_keeps_the_globals(state: GuayusaWaylandState)
    ensures
        state.clearance() == loop_laws::parting_requests(state),
        state.cleared().compositor == state.compositor,
        state.cleared().idle_inhibit_manager == state.idle_inhibit_manager,
        !state.cleared().surface,
        !state.cleared().inhibitor,
{
    assert(state.clearance() =~= loop_laws::parting_requests(state));
}

/// Exactly the compositor and the idle inhibit manager are bound when they are
/// announced, under the number they are announced with, in a version that both
/// sides speak and no older than need be: up to 4 for the compositor, up to 1
/// for the manager. Each is noted for itself.
pub proof fn globals_are_bound_as_announced(
    name: u32,
    interface: Seq<char>,
    version: u32,
    state: GuayusaWaylandState,
)
    ensures
        match wayland::binding_for(name, interface, version) {
            Some(binding) => {
                &&& binding.name == name
                &&& binding.version <= version
                &&& match binding.global {
                    Global::Compositor => {
                        &&& interface == "wl_compositor"@
                        &&& binding.version <= 4
                        &&& binding.version == version || binding.version == 4
                    },
                    Global::IdleInhibitManager => {
                        &&& interface == "zwp_idle_inhibit_manager_v1"@
                        &&& binding.version <= 1
                        &&& binding.version == version || binding.version == 1
                    },
                }
                &&& wayland::global_named(interface) == Some(binding.global)
            },
            None => {
                &&& interface != "wl_compositor"@
                &&& interface != "zwp_idle_inhibit_manager_v1"@
                &&& wayland::global_named(interface) is None
            },
        },
        state.with_global(Global::Compositor) == (GuayusaWaylandState {
            compositor: true,
            ..state
        }),
        state.with_global(Global::IdleInhibitManager) == (GuayusaWaylandState {
            idle_inhibit_manager: true,
            ..state
        }),
{
}

/// Nothing exists at first, and idling is inhibited while there is an inhibitor.
pub proof fn inhibition_is_having_an_inhibitor(
    fresh: GuayusaWaylandState,
    state: GuayusaWaylandState,
    inhibited: bool,
)
    requires
        call_ensures(GuayusaWaylandState::new, (), fresh),
        call_ensures(GuayusaWaylandState::is_inhibited, (&state,), inhibited),
    ensures
        !fresh.compositor && !fresh.idle_inhibit_manager && !fresh.surface && !fresh.inhibitor,
        inhibited == state.inhibitor,
{
}

/// The messages tell which object is missing.
pub proof fn missing_objects_are_named(error: WaylandError, text: &'static str)
    requires
        call_ensures(WaylandError::message, (error,), text),
    ensures
        error is ManagerMissing ==> text@ == "Idle inhibit manager not available"@,
        error is SurfaceMissing ==> text@ == "Surface not available"@,
{
}

/// A failed flush is told as such, and a failed dispatch with its cause.
pub proof fn failed_exchanges_are_told_apart(error: PumpError, cause: &str, text: String)
    requires
        call_ensures(PumpError::message, (error, cause), text),
    ensures
        error is Flush ==> text@ == "Failed to flush Wayland connection"@,
        error is Dispatch ==> text@ == "Dispatch error: "@ + cause@,
{
}

/// An exchange begins with the flush if one is asked for, and with a dispatch
/// otherwise; a single one is a batch of one. A batch of none is over.
pub proof fn exchanges_begin_with_the_flush(
    needs_flush: bool,
    max_events: usize,
    single: Pump,
    batch: Pump,
)
    requires
        call_ensures(wayland::flush_and_dispatch, (needs_flush,), single),
        call_ensures(wayland::flush_and_dispatch_batch, (needs_flush, max_events), batch),
    ensures
        single is Flush <==> needs_flush,
        single is Dispatch <==> !needs_flush,
        max_events == 1 ==> single == batch,
        needs_flush ==> batch == (Pump::Flush { max_events }),
        !needs_flush && max_events > 0 ==> batch == (Pump::Dispatch { left: max_events }),
        !needs_flush && max_events == 0 ==> batch == (Pump::Over { outcome: Ok(()) }),
        single == wayland::exchange(needs_flush, 1),
        batch == wayland::exchange(needs_flush, max_events),
{
}

/// A flush that succeeds is followed by what dispatches there may be; a dispatch
/// that took something in uses up one; one that took nothing in ends the
/// exchange well. A failure ends it and is told apart. What does not answer
/// changes nothing.
pub proof fn exchanges_advance_by_their_answers(pump: Pump, event: PumpEvent, next: Pump)
    requires
        call_ensures(Pump::step, (pump, event), next),
    ensures
        next == pump.after(event),
        pump.answered_by(event) <==> {
            ||| pump is Flush && (event is Flushed || event is Failed)
            ||| pump is Dispatch && (event is Dispatched || event is Failed)
        },
        !pump.answered_by(event) ==> next == pump,
        pump is Flush && event is Failed ==> next == (Pump::Over {
            outcome: Err(PumpError::Flush),
        }),
        pump is Dispatch && event is Failed ==> next == (Pump::Over {
            outcome: Err(PumpError::Dispatch),
        }),
        pump is Dispatch && event == PumpEvent::Dispatched(0) ==> next == (Pump::Over {
            outcome: Ok(()),
        }),
        pump matches Pump::Flush { max_events } ==> (event is Flushed ==> if max_events == 0 {
            next == (Pump::Over { outcome: Ok(()) })
        } else {
            next == (Pump::Dispatch { left: max_events })
        }),
        pump matches Pump::Dispatch { left } ==> (event matches PumpEvent::Dispatched(count) ==> (
        count > 0 ==> if left <= 1 {
            next == (Pump::Over { outcome: Ok(()) })
        } else {
            next matches Pump::Dispatch { left: remaining } && remaining + 1 == left
        })),
{
}

/// The stages of the set-up, in order.
pub open spec fn stage(setup: Setup) -> nat {
    match setup {
        Setup::Connecting => 0,
        Setup::Listing => 1,
        Setup::CreatingSurface => 2,
        Setup::Flushing => 3,
        Setup::Dispatching => 4,
        Setup::Ready => 5,
        Setup::Failed(_) => 6,
    }
}

/// The set-up starts by connecting. It fails if that fails, if the globals
/// cannot be listed, if the compositor or the manager is not among them, or if
/// the request for the surface cannot be sent, each with an error of its own,
/// and for no other reason. Otherwise every action leads to the next stage, and
/// the last stage stays.
pub proof fn setup_fails_for_five_reasons(
    start: Setup,
    setup: Setup,
    state: GuayusaWaylandState,
    event: SetupEvent,
)
    requires
        call_ensures(wayland_setup::setup_wayland, (), start),
    ensures
        start is Connecting,
        setup is Ready || setup is Failed ==> setup.after(state, event) == setup,
        !(setup is Ready || setup is Failed) ==> match setup.after(state, event) {
            Setup::Failed(SetupError::Connect) => setup is Connecting && event is Failed,
            Setup::Failed(SetupError::RoundTrip) => setup is Listing && event is Failed,
            Setup::Failed(SetupError::NoCompositor) => setup is Listing && event is Done
                && !state.compositor,
            Setup::Failed(SetupError::NoManager) => setup is Listing && event is Done
                && state.compositor && !state.idle_inhibit_manager,
            Setup::Failed(SetupError::Flush) => setup is Flushing && event is Failed,
            next => {
                &&& stage(next) == stage(setup) + 1
                &&& event is Failed ==> setup is CreatingSurface || setup is Dispatching
                &&& setup is Listing ==> state.compositor && state.idle_inhibit_manager
            },
        },
{
}

/// The set-up makes a surface at the stage that is for it, and changes no other
/// object at any stage.
pub proof fn setup_makes_the_surface(setup: Setup, state: GuayusaWaylandState)
    ensures
        setup.state_after(state) == (GuayusaWaylandState {
            surface: state.surface || setup is CreatingSurface,
            ..state
        }),
{
}

/// Each error of the set-up has its message, with the cause where one is known.
pub proof fn setup_errors_have_their_messages(error: SetupError, cause: &str, text: String)
    requires
        call_ensures(SetupError::message, (error, cause), text),
    ensures
        match error {
            SetupError::Connect => text@ == "Failed to connect to Wayland display"@,
            SetupError::RoundTrip => text@ == cause@,
            SetupError::NoCompositor => text@ == "Failed to get wl_compositor"@,
            SetupError::NoManager => text@
                == "Failed to get zwp_idle_inhibit_manager_v1. Is your compositor supporting this protocol?"@,
            SetupError::Flush => text@ == "Failed to flush Wayland connection: "@ + cause@,
        },
{
}

/// Creating the inhibitor makes one, if it can be had, by the two requests that
/// take effect with the commit, and otherwise changes nothing and says why.
pub proof fn creating_makes_an_inhibitor(sent: Result<Vec<WaylandRequest>, WaylandError>)
    ensures
        forall|state: &mut GuayusaWaylandState| #[trigger]
            call_ensures(GuayusaWaylandState::create_inhibitor, (state,), sent) ==> {
                &&& match sent {
                    Ok(requests) => {
                        &&& (*final(state)) == (GuayusaWaylandState { inhibitor: true, ..*state })
                        &&& (*state).inhibitor ==> requests@ == Seq::<WaylandRequest>::empty()
                        &&& !(*state).inhibitor ==> (*state).idle_inhibit_manager
                            && (*state).surface && requests@ == seq![
                            WaylandRequest::CreateInhibitor,
                            WaylandRequest::CommitSurface,
                        ]
                    },
                    Err(error) => {
                        &&& *final(state) == *state && !(*state).inhibitor
                        &&& error is ManagerMissing <==> !(*state).idle_inhibit_manager
                        &&& error is SurfaceMissing ==> !(*state).surface
                    },
                }
            },
{
}

/// Destroying the inhibitor leaves none, with the requests for that, and
/// cleaning up leaves no surface either.
pub proof fn destroying_leaves_no_inhibitor(requests: Vec<WaylandRequest>)
    ensures
        forall|state: &mut GuayusaWaylandState| #[trigger]
            call_ensures(GuayusaWaylandState::destroy_inhibitor, (state,), requests) ==> {
                &&& *final(state) == (GuayusaWaylandState { inhibitor: false, ..*state })
                &&& !(*state).inhibitor ==> requests@ == Seq::<WaylandRequest>::empty()
                &&& (*state).inhibitor && (*state).surface ==> requests@ == seq![
                    WaylandRequest::DestroyInhibitor,
                    WaylandRequest::CommitSurface,
                ]
                &&& (*state).inhibitor && !(*state).surface ==> requests@ == seq![
                    WaylandRequest::DestroyInhibitor,
                ]
            },
        forall|state: &mut GuayusaWaylandState| #[trigger]
            call_ensures(GuayusaWaylandState::cleanup, (state,), requests) ==> {
                &&& *final(state) == (GuayusaWaylandState {
                    inhibitor: false,
                    surface: false,
                    ..*state
                })
                &&& requests@ == loop_laws::parting_requests(*state)
            },
{
    assert forall|state: &mut GuayusaWaylandState| #[trigger]
        call_ensures(GuayusaWaylandState::cleanup, (state,), requests) implies {
        &&& *final(state) == (GuayusaWaylandState { inhibitor: false, surface: false, ..*state })
        &&& requests@ == loop_laws::parting_requests(*state)
    } by {
        cleanup_keeps_the_globals(*state);
    }
}

/// An announcement is answered with what to bind, and notes a global exactly if
/// that global is to be bound.
pub proof fn announcements_note_what_is_bound(
    name: u32,
    interface: &str,
    version: u32,
    binding: Option<Binding>,
)
    ensures
        forall|state: &mut GuayusaWaylandState| #[trigger]
            call_ensures(
                GuayusaWaylandState::event,
                (state, name, interface, version),
                binding,
            ) ==> {
                &&& binding == wayland::binding_for(name, interface@, version)
                &&& *final(state) == (GuayusaWaylandState {
                    compositor: (*state).compositor || interface@ == "wl_compositor"@,
                    idle_inhibit_manager: (*state).idle_inhibit_manager || interface@
                        == "zwp_idle_inhibit_manager_v1"@,
                    ..*state
                })
            },
{
    reveal_strlit("wl_compositor");
    reveal_strlit("zwp_idle_inhibit_manager_v1");
    assert("wl_compositor"@.len() != "zwp_idle_inhibit_manager_v1"@.len());
}

/// A step of the set-up leads to the stage that follows, with the objects that
/// there are by then.
pub proof fn setup_steps_follow_the_stages(event: SetupEvent)
    ensures
        forall|setup: &mut Setup, state: &mut GuayusaWaylandState| #[trigger]
            call_ensures(Setup::step, (setup, state, event), ()) ==> {
                &&& *final(setup) == (*setup).after(*state, event)
                &&& *final(state) == (GuayusaWaylandState {
                    surface: (*state).surface || (*setup) is CreatingSurface,
                    ..*state
                })
            },
{
}

} // verus!
