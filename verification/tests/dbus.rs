use guayusa::dbus::{
    setup_dbus_service, state_poll_task, status_monitor_task, DbusAction, DbusSetup,
    DbusSetupError, DbusSetupEvent, IdleInhibitorInterface, MonitorAction, MonitorEvent, PollAction, PollEvent,
    ServiceError, Signal, DBUS_OBJECT_PATH, DBUS_SERVICE_NAME, DBUS_SETUP_SECONDS, POLL_SECONDS,
};
use guayusa::mode::Mode;
use guayusa::systemd::{ControllerError, ManagedUnit, Operation, Phase, SystemdController};

fn interface() -> IdleInhibitorInterface {
    IdleInhibitorInterface::new(SystemdController::new(None, None))
}

fn target(operation: &Operation) -> Mode {
    match operation.phase {
        Phase::Command { target, unit: ManagedUnit::Lock, opened: false } => target,
        _ => panic!("no mode is being applied"),
    }
}

#[test]
fn methods_apply_their_modes() {
    let interface = interface();
    assert_eq!(target(&interface.enable().unwrap()), Mode::NoIdle);
    assert_eq!(target(&interface.disable().unwrap()), Mode::Normal);
    assert_eq!(target(&interface.set_inhibit(true).unwrap()), Mode::NoIdle);
    assert_eq!(target(&interface.set_inhibit(false).unwrap()), Mode::Normal);
    for (name, mode) in [
        ("normal", Mode::Normal),
        ("no-suspend", Mode::NoSuspend),
        ("no-idle", Mode::NoIdle),
    ] {
        assert_eq!(target(&interface.set_mode(name).unwrap()), mode);
    }
    assert!(matches!(interface.cycle_mode().phase, Phase::Read { .. }));
}

#[test]
fn toggles_between_normal_and_no_idle() {
    let interface = interface();
    assert_eq!(target(&interface.toggle(Mode::Normal).unwrap()), Mode::NoIdle);
    for current in [Mode::NoSuspend, Mode::NoIdle, Mode::Custom, Mode::Unavailable] {
        assert_eq!(target(&interface.toggle(current).unwrap()), Mode::Normal);
    }
}

#[test]
fn refuses_unknown_mode_names() {
    for name in ["custom", "unavailable", "", "Normal"] {
        match interface().set_mode(name) {
            Err(ServiceError::InvalidArgs(message)) => assert_eq!(
                message,
                format!("invalid mode {name}; expected normal, no-suspend, or no-idle")
            ),
            _ => panic!("{name} was taken"),
        }
    }
}

#[test]
fn refuses_modes_that_are_only_reported() {
    match interface().set_controller_mode(Mode::Custom) {
        Err(ServiceError::Failed(message)) => {
            assert_eq!(message, "mode custom cannot be set directly")
        }
        _ => panic!("custom was taken"),
    }
}

#[test]
fn replies_with_the_outcome() {
    let interface = interface();
    assert!(matches!(interface.reply(Ok(Mode::Custom)), Ok(Mode::Custom)));
    assert!(interface.reply_nothing(Ok(Mode::NoIdle)).is_ok());
    assert!(matches!(interface.reply_status(Ok(Mode::NoSuspend)), Ok(true)));
    assert!(matches!(interface.reply_status(Ok(Mode::Unavailable)), Ok(false)));
    assert_eq!(interface.reply_name(Ok(Mode::NoSuspend)).unwrap(), "no-suspend");
}

#[test]
fn replies_with_the_failure() {
    let interface = interface();
    let outcome = Err(ControllerError::StopFailed(ManagedUnit::Lock));
    let expected = "failed to stop guayusa-swayidle-lock.service";
    for error in [
        interface.reply(outcome).unwrap_err(),
        interface.reply_nothing(outcome).unwrap_err(),
        interface.reply_status(outcome).unwrap_err(),
        interface.reply_name(outcome).unwrap_err(),
    ] {
        match error {
            ServiceError::Failed(message) => assert_eq!(message, expected),
            ServiceError::InvalidArgs(_) => panic!("the arguments were fine"),
        }
    }
}

#[test]
fn properties_follow_the_published_mode() {
    let interface = interface();
    for (mode, name, status) in [
        (Mode::Normal, "normal", false),
        (Mode::NoSuspend, "no-suspend", true),
        (Mode::NoIdle, "no-idle", true),
        (Mode::Custom, "custom", true),
        (Mode::Unavailable, "unavailable", false),
    ] {
        assert_eq!(interface.mode(mode), name);
        assert_eq!(interface.status(mode), status);
    }
    assert_eq!(
        interface.controller().unit_name(ManagedUnit::Suspend),
        "guayusa-swayidle-suspend.service"
    );
}

#[test]
fn signals_every_mode_and_changed_statuses() {
    let mut monitor = status_monitor_task(Mode::Unavailable);
    for (mode, name, status) in [
        (Mode::Normal, "normal", None),
        (Mode::NoSuspend, "no-suspend", Some(true)),
        (Mode::NoIdle, "no-idle", None),
        (Mode::Custom, "custom", None),
        (Mode::Unavailable, "unavailable", Some(false)),
        (Mode::NoIdle, "no-idle", Some(true)),
    ] {
        match monitor.step(MonitorEvent::Changed(mode)) {
            MonitorAction::Emit { mode_changed, status_changed } => {
                assert_eq!(mode_changed, name);
                assert_eq!(status_changed, status);
            }
            MonitorAction::Stop => panic!("the monitor stopped"),
        }
        assert_eq!(monitor.last_status, mode.is_inhibited());
    }
}

#[test]
fn monitor_stops() {
    for event in [MonitorEvent::Closed, MonitorEvent::NoEmitter, MonitorEvent::Shutdown] {
        let mut monitor = status_monitor_task(Mode::NoIdle);
        assert!(matches!(monitor.step(event), MonitorAction::Stop));
        assert!(monitor.last_status);
    }
}

#[test]
fn polls_until_shutdown() {
    assert_eq!(state_poll_task(PollEvent::Tick), PollAction::Refresh);
    assert_eq!(state_poll_task(PollEvent::Shutdown), PollAction::Stop);
    assert_eq!(POLL_SECONDS, 10);
}

#[test]
fn appears_on_the_bus() {
    assert_eq!(DBUS_OBJECT_PATH, "/");
    assert_eq!(DBUS_SERVICE_NAME, "org.guayusa.IdleInhibitor");
    assert_eq!(DBUS_SETUP_SECONDS, 5);
    let setup = setup_dbus_service();
    assert!(matches!(setup, DbusSetup::ServingObject));
    let setup = setup.step(DbusSetupEvent::Done);
    assert!(matches!(setup, DbusSetup::RequestingName));
    let setup = setup.step(DbusSetupEvent::Done);
    assert!(matches!(setup, DbusSetup::Ready));
    assert!(matches!(setup.step(DbusSetupEvent::TimedOut), DbusSetup::Ready));
}

#[test]
fn explains_why_it_is_not_on_the_bus() {
    match setup_dbus_service().step(DbusSetupEvent::TimedOut) {
        DbusSetup::Failed(error) => {
            assert!(matches!(error, DbusSetupError::TimedOut));
            assert_eq!(error.message(), "D-Bus setup timed out");
        }
        _ => panic!("the time was not up"),
    }
    let setup = setup_dbus_service().step(DbusSetupEvent::Done);
    match setup.step(DbusSetupEvent::Refused("name taken".to_string())) {
        DbusSetup::Failed(error) => assert_eq!(error.message(), "name taken"),
        _ => panic!("the name was not taken"),
    }
    let settled = setup_dbus_service()
        .step(DbusSetupEvent::Refused("no".to_string()))
        .step(DbusSetupEvent::Done);
    assert!(matches!(settled, DbusSetup::Failed(_)));
}

#[test]
fn set_up_names_its_actions() {
    let setup = setup_dbus_service();
    assert!(matches!(setup.action(), DbusAction::ServeObject { path: "/" }));
    let setup = setup.step(DbusSetupEvent::Done);
    assert!(matches!(
        setup.action(),
        DbusAction::RequestName { name: "org.guayusa.IdleInhibitor" }
    ));
    let setup = setup.step(DbusSetupEvent::Done);
    assert!(matches!(setup.action(), DbusAction::Finish));
    match setup_dbus_service().step(DbusSetupEvent::TimedOut).action() {
        DbusAction::Fail { message } => assert_eq!(message, "D-Bus setup timed out"),
        _ => panic!("the set-up went on"),
    }
}

#[test]
fn mode_goes_out_before_status() {
    let mut monitor = status_monitor_task(Mode::Unavailable);
    let mut sent: Vec<String> = vec![];
    for mode in [Mode::Normal, Mode::NoIdle, Mode::Custom, Mode::Normal] {
        for signal in monitor.step(MonitorEvent::Changed(mode)).signals() {
            sent.push(match signal {
                Signal::ModeChanged(name) => name.to_string(),
                Signal::StatusChanged(status) => status.to_string(),
            });
        }
    }
    assert_eq!(sent, vec!["normal", "no-idle", "true", "custom", "normal", "false"]);
    assert!(monitor.step(MonitorEvent::Shutdown).signals().is_empty());
}
