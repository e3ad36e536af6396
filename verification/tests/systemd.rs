use guayusa::dbus::IdleInhibitorInterface;
use guayusa::mode::Mode;
use guayusa::systemd::{
    classify_active_state, infer_mode, Action, ControllerError, Event, ManagedUnit, Operation,
    SystemdController, UnitState, SYSTEMD_MANAGER_INTERFACE, SYSTEMD_MANAGER_PATH, SYSTEMD_SERVICE,
    SYSTEMD_UNIT_INTERFACE,
};
use std::collections::HashMap;

const LOCK: &str = "guayusa-swayidle-lock.service";
const SUSPEND: &str = "guayusa-swayidle-suspend.service";

/// A stand-in for systemd and for the channel that modes are published on.
struct Bus {
    units: HashMap<String, String>,
    published: Mode,
    listening: bool,
    refused: Vec<&'static str>,
    loaded: String,
    log: Vec<String>,
}

impl Bus {
    fn new(lock: &str, suspend: &str) -> Bus {
        let mut units = HashMap::new();
        units.insert(LOCK.to_string(), lock.to_string());
        units.insert(SUSPEND.to_string(), suspend.to_string());
        Bus {
            units,
            published: Mode::Unavailable,
            listening: true,
            refused: vec![],
            loaded: String::new(),
            log: vec![],
        }
    }

    fn answer(&mut self, action: Action) -> Event {
        match action {
            Action::OpenProxy { path, interface } => {
                self.log.push(format!("open {path} {interface}"));
                if self.refused.contains(&interface) {
                    return Event::Failed;
                }
                Event::Done
            }
            Action::CallMethod { method, unit, job_mode } => {
                self.log.push(match job_mode {
                    Some(job_mode) => format!("{method} {unit} {job_mode}"),
                    None => format!("{method} {unit}"),
                });
                if self.refused.contains(&method) {
                    return Event::Failed;
                }
                match method {
                    "StartUnit" => {
                        self.units.insert(unit, "activating".to_string());
                        Event::Path("/job/1".to_string())
                    }
                    "StopUnit" => {
                        self.units.insert(unit, "deactivating".to_string());
                        Event::Path("/job/2".to_string())
                    }
                    "LoadUnit" => {
                        self.loaded = unit.clone();
                        if self.units.contains_key(&unit) {
                            Event::Path(format!("/unit/{unit}"))
                        } else {
                            Event::Failed
                        }
                    }
                    other => panic!("unexpected method {other}"),
                }
            }
            Action::GetProperty { property } => {
                self.log.push(format!("get {property}"));
                if self.refused.contains(&property) {
                    return Event::Failed;
                }
                Event::Text(self.units[&self.loaded].clone())
            }
            Action::BorrowMode => Event::Published(self.published),
            Action::SendMode(mode) => {
                self.log.push(format!("send {}", mode.as_str()));
                if self.listening {
                    self.published = mode;
                    Event::Done
                } else {
                    Event::Failed
                }
            }
            Action::Return(_) => unreachable!(),
        }
    }

    fn run(
        &mut self,
        controller: &SystemdController,
        mut operation: Operation,
    ) -> Result<Mode, ControllerError> {
        loop {
            let action = controller.action(&operation);
            if let Action::Return(outcome) = action {
                return outcome;
            }
            let event = self.answer(action);
            assert!(operation.accepts(&event));
            operation = operation.step(event);
        }
    }
}

fn default_controller() -> SystemdController {
    SystemdController::new(None, None)
}

#[test]
fn infers_modes_from_unit_states() {
    assert_eq!(
        infer_mode(UnitState::Active, UnitState::Active),
        Mode::Normal
    );
    assert_eq!(
        infer_mode(UnitState::Active, UnitState::Inactive),
        Mode::NoSuspend
    );
    assert_eq!(
        infer_mode(UnitState::Inactive, UnitState::Inactive),
        Mode::NoIdle
    );
    assert_eq!(
        infer_mode(UnitState::Inactive, UnitState::Active),
        Mode::Custom
    );
    assert_eq!(
        infer_mode(UnitState::Unavailable, UnitState::Active),
        Mode::Unavailable
    );
}

#[test]
fn one_unavailable_unit_is_enough() {
    for state in [UnitState::Active, UnitState::Inactive, UnitState::Unavailable] {
        assert_eq!(infer_mode(state, UnitState::Unavailable), Mode::Unavailable);
        assert_eq!(infer_mode(UnitState::Unavailable, state), Mode::Unavailable);
    }
}

#[test]
fn classifies_active_states() {
    for text in ["active", "activating", "reloading"] {
        assert_eq!(classify_active_state(text), UnitState::Active);
    }
    for text in ["inactive", "failed", "deactivating", "maintenance", "", "Active"] {
        assert_eq!(classify_active_state(text), UnitState::Inactive);
    }
}

#[test]
fn names_can_be_overridden() {
    let controller = default_controller();
    assert_eq!(controller.unit_name(ManagedUnit::Lock), LOCK);
    assert_eq!(controller.unit_name(ManagedUnit::Suspend), SUSPEND);
    let custom = SystemdController::new(Some("my-lock.service".to_string()), Some(String::new()));
    assert_eq!(custom.unit_name(ManagedUnit::Lock), "my-lock.service");
    assert_eq!(custom.unit_name(ManagedUnit::Suspend), "");
}

#[test]
fn refuses_modes_that_cannot_be_set() {
    let controller = default_controller();
    for mode in [Mode::Custom, Mode::Unavailable] {
        let error = controller.set_mode(mode).unwrap_err();
        assert_eq!(error, ControllerError::NotSettable(mode));
        assert_eq!(
            controller.error_text(error),
            format!("mode {} cannot be set directly", mode.as_str())
        );
    }
}

#[test]
fn explains_failures() {
    let controller = default_controller();
    assert_eq!(
        controller.error_text(ControllerError::ManagerUnavailable),
        "failed to create systemd manager proxy"
    );
    assert_eq!(
        controller.error_text(ControllerError::StartFailed(ManagedUnit::Lock)),
        "failed to start guayusa-swayidle-lock.service"
    );
    assert_eq!(
        controller.error_text(ControllerError::StopFailed(ManagedUnit::Suspend)),
        "failed to stop guayusa-swayidle-suspend.service"
    );
}

#[test]
fn addresses_systemd() {
    assert_eq!(SYSTEMD_SERVICE, "org.freedesktop.systemd1");
    assert_eq!(SYSTEMD_MANAGER_PATH, "/org/freedesktop/systemd1");
    assert_eq!(SYSTEMD_MANAGER_INTERFACE, "org.freedesktop.systemd1.Manager");
    assert_eq!(SYSTEMD_UNIT_INTERFACE, "org.freedesktop.systemd1.Unit");
}

#[test]
fn setting_no_suspend_takes_these_calls() {
    let controller = default_controller();
    let mut bus = Bus::new("inactive", "active");
    let operation = controller.set_mode(Mode::NoSuspend).unwrap();
    assert_eq!(bus.run(&controller, operation), Ok(Mode::NoSuspend));
    assert_eq!(bus.published, Mode::NoSuspend);
    let manager = "open /org/freedesktop/systemd1 org.freedesktop.systemd1.Manager";
    let expected = vec![
        manager.to_string(),
        format!("StartUnit {LOCK} replace"),
        manager.to_string(),
        format!("StopUnit {SUSPEND} replace"),
        manager.to_string(),
        format!("LoadUnit {LOCK}"),
        format!("open /unit/{LOCK} org.freedesktop.systemd1.Unit"),
        "get ActiveState".to_string(),
        manager.to_string(),
        format!("LoadUnit {SUSPEND}"),
        format!("open /unit/{SUSPEND} org.freedesktop.systemd1.Unit"),
        "get ActiveState".to_string(),
        "send no-suspend".to_string(),
    ];
    assert_eq!(bus.log, expected);
}

#[test]
fn every_primary_mode_can_be_reached() {
    let controller = default_controller();
    for from in ["active", "inactive", "failed"] {
        for mode in [Mode::Normal, Mode::NoSuspend, Mode::NoIdle] {
            let mut bus = Bus::new(from, from);
            let operation = controller.set_mode(mode).unwrap();
            assert_eq!(bus.run(&controller, operation), Ok(mode));
            assert_eq!(bus.published, mode);
        }
    }
}

#[test]
fn one_unit_cannot_be_in_no_suspend() {
    let controller = SystemdController::new(Some("same".to_string()), Some("same".to_string()));
    for (mode, reached) in [
        (Mode::Normal, Mode::Normal),
        (Mode::NoSuspend, Mode::NoIdle),
        (Mode::NoIdle, Mode::NoIdle),
    ] {
        let mut bus = Bus::new("active", "active");
        let operation = controller.set_mode(mode).unwrap();
        assert_eq!(bus.run(&controller, operation), Ok(reached));
    }
}

#[test]
fn cycling_goes_round() {
    let controller = default_controller();
    let mut bus = Bus::new("active", "active");
    for expected in [Mode::NoSuspend, Mode::NoIdle, Mode::Normal, Mode::NoSuspend] {
        let operation = controller.cycle_mode();
        assert_eq!(bus.run(&controller, operation), Ok(expected));
        assert_eq!(bus.published, expected);
    }
    let mut odd = Bus::new("inactive", "active");
    let operation = controller.cycle_mode();
    assert_eq!(odd.run(&controller, operation), Ok(Mode::Normal));
}

#[test]
fn cycling_publishes_the_mode_it_leaves() {
    let controller = default_controller();
    let mut bus = Bus::new("active", "active");
    bus.refused = vec!["StartUnit"];
    let operation = controller.cycle_mode();
    assert_eq!(
        bus.run(&controller, operation),
        Err(ControllerError::StartFailed(ManagedUnit::Lock))
    );
    assert_eq!(bus.published, Mode::Normal);
}

#[test]
fn refreshing_only_reads() {
    let controller = default_controller();
    for (lock, suspend, mode) in [
        ("active", "active", Mode::Normal),
        ("reloading", "failed", Mode::NoSuspend),
        ("inactive", "inactive", Mode::NoIdle),
        ("inactive", "activating", Mode::Custom),
    ] {
        let mut bus = Bus::new(lock, suspend);
        assert_eq!(bus.run(&controller, controller.refresh_mode()), Ok(mode));
        assert_eq!(bus.published, mode);
        assert_eq!(bus.units[LOCK], lock);
        assert_eq!(bus.units[SUSPEND], suspend);
        assert_eq!(bus.log.len(), 9);
    }
}

#[test]
fn unchanged_modes_are_not_published() {
    let controller = default_controller();
    let mut bus = Bus::new("active", "active");
    bus.published = Mode::Normal;
    assert_eq!(bus.run(&controller, controller.refresh_mode()), Ok(Mode::Normal));
    assert!(!bus.log.contains(&"send normal".to_string()));
}

#[test]
fn a_mode_without_listeners_is_still_reported() {
    let controller = default_controller();
    let mut bus = Bus::new("active", "inactive");
    bus.listening = false;
    assert_eq!(bus.run(&controller, controller.refresh_mode()), Ok(Mode::NoSuspend));
    assert_eq!(bus.published, Mode::Unavailable);
}

#[test]
fn unreadable_units_are_unavailable() {
    let controller = default_controller();
    for refused in [
        SYSTEMD_MANAGER_INTERFACE,
        "LoadUnit",
        SYSTEMD_UNIT_INTERFACE,
        "ActiveState",
    ] {
        let mut bus = Bus::new("active", "active");
        bus.published = Mode::Normal;
        bus.refused = vec![refused];
        assert_eq!(
            bus.run(&controller, controller.refresh_mode()),
            Ok(Mode::Unavailable)
        );
        assert_eq!(bus.published, Mode::Unavailable);
    }
}

#[test]
fn a_failed_command_ends_the_operation() {
    let controller = default_controller();
    for (mode, refused, error, calls) in [
        (
            Mode::Normal,
            SYSTEMD_MANAGER_INTERFACE,
            ControllerError::ManagerUnavailable,
            1,
        ),
        (
            Mode::Normal,
            "StartUnit",
            ControllerError::StartFailed(ManagedUnit::Lock),
            2,
        ),
        (
            Mode::NoSuspend,
            "StopUnit",
            ControllerError::StopFailed(ManagedUnit::Suspend),
            4,
        ),
        (
            Mode::NoIdle,
            "StopUnit",
            ControllerError::StopFailed(ManagedUnit::Lock),
            2,
        ),
    ] {
        let mut bus = Bus::new("inactive", "active");
        bus.refused = vec![refused];
        let operation = controller.set_mode(mode).unwrap();
        assert_eq!(bus.run(&controller, operation), Err(error));
        assert_eq!(bus.log.len(), calls);
        assert_eq!(bus.published, Mode::Unavailable);
    }
}

#[test]
fn stray_events_change_nothing() {
    let controller = default_controller();
    let operation = controller.set_mode(Mode::Normal).unwrap();
    assert!(!operation.accepts(&Event::Published(Mode::Normal)));
    let operation = operation.step(Event::Published(Mode::Normal));
    let operation = operation.step(Event::Text("active".to_string()));
    assert!(matches!(
        controller.action(&operation),
        Action::OpenProxy { .. }
    ));
    let finished = operation.step(Event::Failed);
    assert!(!finished.accepts(&Event::Done));
    assert!(!finished.accepts(&Event::Failed));
    let finished = finished.step(Event::Done);
    assert!(matches!(
        controller.action(&finished),
        Action::Return(Err(ControllerError::ManagerUnavailable))
    ));
}

#[test]
fn other_units_are_left_alone() {
    let controller = default_controller();
    let mut bus = Bus::new("active", "active");
    let before_sleep = "guayusa-swayidle-before-sleep.service";
    bus.units.insert(before_sleep.to_string(), "active".to_string());
    for mode in [Mode::NoIdle, Mode::NoSuspend, Mode::Normal, Mode::NoIdle] {
        let operation = controller.set_mode(mode).unwrap();
        assert_eq!(bus.run(&controller, operation), Ok(mode));
    }
    assert_eq!(bus.units[before_sleep], "active");
    assert!(bus.log.iter().all(|line| !line.contains(before_sleep)));
}

#[test]
fn warns_of_unreadable_units() {
    let controller = default_controller();
    let mut operation = controller.refresh_mode();
    let answers = vec![
        (Event::Done, "failed to create systemd manager proxy".to_string()),
        (Event::Path("/unit/1".to_string()), format!("failed to load {LOCK}")),
        (Event::Done, format!("failed to create proxy for {LOCK}")),
        (
            Event::Text("active".to_string()),
            format!("failed to read ActiveState for {LOCK}"),
        ),
    ];
    for (event, cause) in answers {
        assert_eq!(
            controller.warning(&operation),
            Some(format!("Unable to read state for {LOCK}: {cause}"))
        );
        operation = operation.step(event);
    }
    assert_eq!(
        controller.warning(&operation),
        Some(format!(
            "Unable to read state for {SUSPEND}: failed to create systemd manager proxy"
        ))
    );
    assert_eq!(controller.warning(&controller.set_mode(Mode::Normal).unwrap()), None);
}

#[test]
fn three_cycles_lead_back() {
    let controller = default_controller();
    for (lock, suspend) in [("active", "active"), ("active", "failed"), ("failed", "failed")] {
        let mut bus = Bus::new(lock, suspend);
        let start = bus.run(&controller, controller.refresh_mode());
        for _ in 0..2 {
            assert_ne!(bus.run(&controller, controller.cycle_mode()), start);
        }
        assert_eq!(bus.run(&controller, controller.cycle_mode()), start);
    }
}

#[test]
fn toggling_back_restores_normal() {
    let controller = default_controller();
    let interface = IdleInhibitorInterface::new(default_controller());
    let mut bus = Bus::new("active", "active");
    bus.published = Mode::Normal;
    for expected in [Mode::NoIdle, Mode::Normal, Mode::NoIdle] {
        let operation = interface.toggle(bus.published).unwrap();
        assert_eq!(bus.run(&controller, operation), Ok(expected));
        assert_eq!(bus.published, expected);
    }
}
