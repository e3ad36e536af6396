use guayusa::event_loop::{wayland_event_loop, EventLoop, LoopAction, LoopEvent};
use guayusa::wayland::{
    flush_and_dispatch, flush_and_dispatch_batch, Binding, Global, GuayusaWaylandState,
    InhibitorMessage, Pump, PumpError, PumpEvent, WaylandError, WaylandRequest, DISPATCH_BATCH,
    HEARTBEAT_SECONDS,
};
use guayusa::wayland_setup::{setup_wayland, Setup, SetupError, SetupEvent};

fn usable() -> GuayusaWaylandState {
    GuayusaWaylandState {
        compositor: true,
        idle_inhibit_manager: true,
        surface: true,
        inhibitor: false,
    }
}

fn waiting(state: GuayusaWaylandState) -> EventLoop {
    let mut event_loop = wayland_event_loop(state);
    assert!(matches!(event_loop.action(), LoopAction::LoadShutdown));
    event_loop.step(LoopEvent::Shutdown(false));
    assert!(matches!(event_loop.action(), LoopAction::Wait));
    event_loop
}

fn sent(event_loop: &EventLoop) -> Vec<WaylandRequest> {
    match event_loop.action() {
        LoopAction::Send(requests) => requests,
        _ => panic!("nothing is sent"),
    }
}

/// Lets a change of the inhibitor go through and hands back the status that was
/// recorded.
fn finish_change(event_loop: &mut EventLoop) -> bool {
    event_loop.step(LoopEvent::Done);
    assert!(matches!(event_loop.action(), LoopAction::Flush));
    event_loop.step(LoopEvent::Pump(PumpEvent::Flushed));
    assert!(matches!(event_loop.action(), LoopAction::Dispatch));
    event_loop.step(LoopEvent::Pump(PumpEvent::Dispatched(3)));
    let status = match event_loop.action() {
        LoopAction::StoreStatus(status) => status,
        _ => panic!("no status is recorded"),
    };
    event_loop.step(LoopEvent::Done);
    assert!(matches!(event_loop.action(), LoopAction::LoadShutdown));
    event_loop.step(LoopEvent::Shutdown(false));
    status
}

#[test]
fn starts_without_objects() {
    let state = GuayusaWaylandState::new();
    assert!(!state.compositor && !state.idle_inhibit_manager);
    assert!(!state.surface && !state.inhibitor);
    assert!(!state.is_inhibited());
}

#[test]
fn binds_the_globals_it_needs() {
    let mut state = GuayusaWaylandState::new();
    assert_eq!(state.event(1, "wl_seat", 7), None);
    assert_eq!(state, GuayusaWaylandState::new());
    assert_eq!(
        state.event(2, "wl_compositor", 6),
        Some(Binding { global: Global::Compositor, name: 2, version: 4 })
    );
    assert!(state.compositor && !state.idle_inhibit_manager);
    assert_eq!(
        state.event(3, "wl_compositor", 3),
        Some(Binding { global: Global::Compositor, name: 3, version: 3 })
    );
    assert_eq!(
        state.event(4, "zwp_idle_inhibit_manager_v1", 2),
        Some(Binding { global: Global::IdleInhibitManager, name: 4, version: 1 })
    );
    assert_eq!(
        state.event(5, "zwp_idle_inhibit_manager_v1", 0),
        Some(Binding { global: Global::IdleInhibitManager, name: 5, version: 0 })
    );
    assert!(state.idle_inhibit_manager);
}

#[test]
fn creates_and_destroys_the_inhibitor() {
    let mut state = usable();
    assert_eq!(
        state.create_inhibitor(),
        Ok(vec![WaylandRequest::CreateInhibitor, WaylandRequest::CommitSurface])
    );
    assert!(state.is_inhibited());
    assert_eq!(state.create_inhibitor(), Ok(vec![]));
    assert_eq!(
        state.destroy_inhibitor(),
        vec![WaylandRequest::DestroyInhibitor, WaylandRequest::CommitSurface]
    );
    assert_eq!(state, usable());
    assert_eq!(state.destroy_inhibitor(), vec![]);
}

#[test]
fn needs_a_manager_and_a_surface() {
    let mut state = GuayusaWaylandState::new();
    assert_eq!(state.create_inhibitor(), Err(WaylandError::ManagerMissing));
    state.idle_inhibit_manager = true;
    assert_eq!(state.create_inhibitor(), Err(WaylandError::SurfaceMissing));
    assert!(!state.is_inhibited());
    assert_eq!(
        WaylandError::ManagerMissing.message(),
        "Idle inhibit manager not available"
    );
    assert_eq!(WaylandError::SurfaceMissing.message(), "Surface not available");
}

#[test]
fn cleans_up_once() {
    let mut state = usable();
    state.create_inhibitor().unwrap();
    assert_eq!(
        state.cleanup(),
        vec![
            WaylandRequest::DestroyInhibitor,
            WaylandRequest::CommitSurface,
            WaylandRequest::DestroySurface
        ]
    );
    assert!(!state.is_inhibited() && !state.surface);
    assert_eq!(state.cleanup(), vec![]);
    assert_eq!(
        usable().cleanup(),
        vec![WaylandRequest::CommitSurface, WaylandRequest::DestroySurface]
    );
}

#[test]
fn exchanges_once() {
    let pump = flush_and_dispatch(true);
    assert_eq!(pump, Pump::Flush { max_events: 1 });
    assert_eq!(pump, flush_and_dispatch_batch(true, 1));
    let pump = pump.step(PumpEvent::Flushed);
    assert_eq!(pump, flush_and_dispatch(false));
    for count in [0, 1, 9] {
        assert_eq!(
            pump.step(PumpEvent::Dispatched(count)),
            Pump::Over { outcome: Ok(()) }
        );
    }
}

#[test]
fn exchanges_in_batches() {
    let mut pump = flush_and_dispatch_batch(false, 3);
    for _ in 0..2 {
        pump = pump.step(PumpEvent::Dispatched(1));
        assert!(matches!(pump, Pump::Dispatch { .. }));
    }
    assert_eq!(
        pump.step(PumpEvent::Dispatched(1)),
        Pump::Over { outcome: Ok(()) }
    );
    assert_eq!(
        flush_and_dispatch_batch(false, 3).step(PumpEvent::Dispatched(0)),
        Pump::Over { outcome: Ok(()) }
    );
    assert_eq!(
        flush_and_dispatch_batch(false, 0),
        Pump::Over { outcome: Ok(()) }
    );
    assert_eq!(
        flush_and_dispatch_batch(true, 0).step(PumpEvent::Flushed),
        Pump::Over { outcome: Ok(()) }
    );
}

#[test]
fn failed_exchanges_are_explained() {
    let flush = flush_and_dispatch(true).step(PumpEvent::Failed);
    assert_eq!(flush, Pump::Over { outcome: Err(PumpError::Flush) });
    let dispatch = flush_and_dispatch(false).step(PumpEvent::Failed);
    assert_eq!(dispatch, Pump::Over { outcome: Err(PumpError::Dispatch) });
    assert_eq!(dispatch.step(PumpEvent::Dispatched(1)), dispatch);
    assert_eq!(
        PumpError::Flush.message("ignored"),
        "Failed to flush Wayland connection"
    );
    assert_eq!(PumpError::Dispatch.message("broken"), "Dispatch error: broken");
}

#[test]
fn sets_up() {
    let mut state = GuayusaWaylandState::new();
    let mut setup = setup_wayland();
    setup.step(&mut state, SetupEvent::Done);
    assert_eq!(setup, Setup::Listing);
    state.event(1, "wl_compositor", 4);
    state.event(2, "zwp_idle_inhibit_manager_v1", 1);
    setup.step(&mut state, SetupEvent::Done);
    assert_eq!(setup, Setup::CreatingSurface);
    assert!(!state.surface);
    setup.step(&mut state, SetupEvent::Done);
    assert_eq!(setup, Setup::Flushing);
    assert!(state.surface);
    setup.step(&mut state, SetupEvent::Done);
    assert_eq!(setup, Setup::Dispatching);
    setup.step(&mut state, SetupEvent::Failed);
    assert_eq!(setup, Setup::Ready);
    setup.step(&mut state, SetupEvent::Failed);
    assert_eq!(setup, Setup::Ready);
    assert_eq!(state, usable());
    assert!(state.create_inhibitor().is_ok());
}

#[test]
fn failed_setups_are_explained() {
    let mut state = GuayusaWaylandState::new();
    let mut setup = Setup::Connecting;
    setup.step(&mut state, SetupEvent::Failed);
    assert_eq!(setup, Setup::Failed(SetupError::Connect));
    setup = Setup::Listing;
    setup.step(&mut state, SetupEvent::Failed);
    assert_eq!(setup, Setup::Failed(SetupError::RoundTrip));
    setup = Setup::Listing;
    setup.step(&mut state, SetupEvent::Done);
    assert_eq!(setup, Setup::Failed(SetupError::NoCompositor));
    state.compositor = true;
    setup = Setup::Listing;
    setup.step(&mut state, SetupEvent::Done);
    assert_eq!(setup, Setup::Failed(SetupError::NoManager));
    setup = Setup::Flushing;
    setup.step(&mut state, SetupEvent::Failed);
    assert_eq!(setup, Setup::Failed(SetupError::Flush));
    assert_eq!(
        SetupError::Connect.message("x"),
        "Failed to connect to Wayland display"
    );
    assert_eq!(SetupError::RoundTrip.message("x"), "x");
    assert_eq!(SetupError::NoCompositor.message("x"), "Failed to get wl_compositor");
    assert_eq!(
        SetupError::NoManager.message("x"),
        "Failed to get zwp_idle_inhibit_manager_v1. Is your compositor supporting this protocol?"
    );
    assert_eq!(
        SetupError::Flush.message("x"),
        "Failed to flush Wayland connection: x"
    );
}

#[test]
fn loop_enables_and_disables() {
    let mut event_loop = waiting(usable());
    event_loop.step(LoopEvent::Message(InhibitorMessage::Enable));
    assert_eq!(
        sent(&event_loop),
        vec![WaylandRequest::CreateInhibitor, WaylandRequest::CommitSurface]
    );
    assert!(finish_change(&mut event_loop));
    assert!(event_loop.state.is_inhibited());
    event_loop.step(LoopEvent::Message(InhibitorMessage::Enable));
    assert!(matches!(event_loop.action(), LoopAction::LoadShutdown));
    event_loop.step(LoopEvent::Shutdown(false));
    event_loop.step(LoopEvent::Message(InhibitorMessage::Disable));
    assert_eq!(
        sent(&event_loop),
        vec![WaylandRequest::DestroyInhibitor, WaylandRequest::CommitSurface]
    );
    assert!(!finish_change(&mut event_loop));
    assert_eq!(event_loop.state, usable());
    event_loop.step(LoopEvent::Message(InhibitorMessage::Disable));
    assert!(matches!(event_loop.action(), LoopAction::LoadShutdown));
}

#[test]
fn loop_toggles() {
    let mut event_loop = waiting(usable());
    for expected in [true, false, true] {
        event_loop.step(LoopEvent::Message(InhibitorMessage::Toggle));
        assert_eq!(finish_change(&mut event_loop), expected);
        assert_eq!(event_loop.state.is_inhibited(), expected);
    }
}

#[test]
fn loop_records_nothing_that_was_not_made_known() {
    let mut event_loop = waiting(usable());
    event_loop.step(LoopEvent::Message(InhibitorMessage::Enable));
    event_loop.step(LoopEvent::Done);
    event_loop.step(LoopEvent::Pump(PumpEvent::Failed));
    assert!(matches!(event_loop.action(), LoopAction::LoadShutdown));
    assert!(event_loop.state.is_inhibited());
    let mut bare = waiting(GuayusaWaylandState::new());
    bare.step(LoopEvent::Message(InhibitorMessage::Toggle));
    assert!(matches!(bare.action(), LoopAction::LoadShutdown));
    assert!(!bare.state.is_inhibited());
}

#[test]
fn loop_takes_in_events() {
    assert_eq!(DISPATCH_BATCH, 5);
    let mut event_loop = waiting(usable());
    event_loop.step(LoopEvent::Readable);
    for _ in 0..5 {
        assert!(matches!(event_loop.action(), LoopAction::Dispatch));
        event_loop.step(LoopEvent::Pump(PumpEvent::Dispatched(1)));
    }
    assert!(matches!(event_loop.action(), LoopAction::ClearReady));
    event_loop.step(LoopEvent::Done);
    assert!(matches!(event_loop.action(), LoopAction::LoadShutdown));
    let mut broken = waiting(usable());
    broken.step(LoopEvent::Readable);
    broken.step(LoopEvent::Pump(PumpEvent::Failed));
    assert!(matches!(broken.action(), LoopAction::ClearReady));
}

#[test]
fn loop_checks_the_connection() {
    assert_eq!(HEARTBEAT_SECONDS, 300);
    let mut event_loop = waiting(usable());
    event_loop.step(LoopEvent::Heartbeat);
    assert!(matches!(event_loop.action(), LoopAction::FlushConnection));
    event_loop.step(LoopEvent::Done);
    assert!(matches!(event_loop.action(), LoopAction::LoadShutdown));
    event_loop.step(LoopEvent::Shutdown(false));
    event_loop.step(LoopEvent::Heartbeat);
    event_loop.step(LoopEvent::Failed);
    assert_eq!(
        sent(&event_loop),
        vec![WaylandRequest::CommitSurface, WaylandRequest::DestroySurface]
    );
}

#[test]
fn loop_cleans_up_when_it_ends() {
    let mut inhibited = usable();
    inhibited.create_inhibitor().unwrap();
    for event in [LoopEvent::Unreadable, LoopEvent::Closed] {
        let mut event_loop = waiting(inhibited);
        event_loop.step(event);
        assert_eq!(
            sent(&event_loop),
            vec![
                WaylandRequest::DestroyInhibitor,
                WaylandRequest::CommitSurface,
                WaylandRequest::DestroySurface
            ]
        );
        event_loop.step(LoopEvent::Done);
        assert!(matches!(event_loop.action(), LoopAction::Flush));
        event_loop.step(LoopEvent::Pump(PumpEvent::Failed));
        assert!(matches!(event_loop.action(), LoopAction::End));
        assert!(!event_loop.state.is_inhibited() && !event_loop.state.surface);
    }
    let mut shut_down = wayland_event_loop(inhibited);
    shut_down.step(LoopEvent::Shutdown(true));
    assert_eq!(sent(&shut_down).len(), 3);
}

#[test]
fn loop_ignores_stray_events() {
    let mut event_loop = waiting(usable());
    event_loop.step(LoopEvent::Done);
    event_loop.step(LoopEvent::Shutdown(true));
    event_loop.step(LoopEvent::Pump(PumpEvent::Failed));
    assert!(matches!(event_loop.action(), LoopAction::Wait));
    assert_eq!(event_loop.state, usable());
}

#[test]
fn loop_warns_of_wishes_that_cannot_be_met() {
    let mut event_loop = waiting(GuayusaWaylandState::new());
    for message in [InhibitorMessage::Enable, InhibitorMessage::Toggle] {
        assert_eq!(
            event_loop.warning(LoopEvent::Message(message), "").unwrap(),
            "Failed to create inhibitor: Idle inhibit manager not available"
        );
    }
    let disable = LoopEvent::Message(InhibitorMessage::Disable);
    assert_eq!(event_loop.warning(disable, ""), None);
    event_loop.announce(1, "zwp_idle_inhibit_manager_v1", 1);
    let enable = LoopEvent::Message(InhibitorMessage::Enable);
    assert_eq!(
        event_loop.warning(enable, "").unwrap(),
        "Failed to create inhibitor: Surface not available"
    );
    assert_eq!(waiting(usable()).warning(enable, ""), None);
    let mut inhibited = usable();
    inhibited.create_inhibitor().unwrap();
    assert_eq!(waiting(inhibited).warning(enable, ""), None);
}

#[test]
fn loop_warns_of_failed_exchanges() {
    let failed = LoopEvent::Pump(PumpEvent::Failed);
    let mut event_loop = waiting(usable());
    event_loop.step(LoopEvent::Message(InhibitorMessage::Enable));
    assert_eq!(event_loop.warning(failed, "cause"), None);
    event_loop.step(LoopEvent::Done);
    assert_eq!(
        event_loop.warning(failed, "cause").unwrap(),
        "Error flushing after creating inhibitor: Failed to flush Wayland connection"
    );
    assert_eq!(event_loop.warning(LoopEvent::Pump(PumpEvent::Flushed), ""), None);
    event_loop.step(LoopEvent::Pump(PumpEvent::Flushed));
    assert_eq!(
        event_loop.warning(failed, "cause").unwrap(),
        "Error flushing after creating inhibitor: Dispatch error: cause"
    );
    let mut inhibited = usable();
    inhibited.create_inhibitor().unwrap();
    let mut event_loop = waiting(inhibited);
    event_loop.step(LoopEvent::Message(InhibitorMessage::Disable));
    event_loop.step(LoopEvent::Done);
    assert_eq!(
        event_loop.warning(failed, "cause").unwrap(),
        "Error flushing after destroying inhibitor: Failed to flush Wayland connection"
    );
    let mut event_loop = waiting(usable());
    event_loop.step(LoopEvent::Readable);
    assert_eq!(
        event_loop.warning(failed, "cause").unwrap(),
        "Error dispatching Wayland events: Dispatch error: cause"
    );
}

#[test]
fn loop_warns_of_lost_connections() {
    let mut event_loop = waiting(usable());
    assert_eq!(
        event_loop.warning(LoopEvent::Unreadable, "cause").unwrap(),
        "Error waiting for Wayland events: cause"
    );
    assert_eq!(event_loop.warning(LoopEvent::Failed, "cause"), None);
    event_loop.step(LoopEvent::Heartbeat);
    assert_eq!(
        event_loop.warning(LoopEvent::Failed, "cause").unwrap(),
        "Wayland connection unhealthy (flush failed), exiting event loop"
    );
    event_loop.step(LoopEvent::Failed);
    event_loop.step(LoopEvent::Done);
    assert_eq!(
        event_loop.warning(LoopEvent::Pump(PumpEvent::Failed), "cause").unwrap(),
        "Failed to flush Wayland queue during final cleanup: cause"
    );
}

#[test]
fn loop_binds_globals_while_it_runs() {
    let mut event_loop = waiting(GuayusaWaylandState::new());
    assert_eq!(
        event_loop.announce(8, "wl_compositor", 5),
        Some(Binding { global: Global::Compositor, name: 8, version: 4 })
    );
    assert_eq!(event_loop.announce(9, "wl_seat", 5), None);
    assert!(event_loop.state.compositor && !event_loop.state.idle_inhibit_manager);
    assert!(matches!(event_loop.action(), LoopAction::Wait));
}
