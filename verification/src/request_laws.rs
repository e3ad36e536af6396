//! What can be relied on of each request of an operation, and of each answer to
//! one.

use crate::bus_laws;
use crate::bus_laws::{Bus, Exchange};
use crate::mode::Mode;
use crate::systemd;
use crate::systemd::{
    Action, ControllerError, Event, Followup, ManagedUnit, Operation, Phase, ReadStep, Reading,
    Request, SystemdController, UnitNames, UnitState,
};
use crate::systemd_laws;
use vstd::prelude::*;

verus! {

/// Making the proxy of systemd's manager.
pub open spec fn manager_request() -> Request {
    Request::OpenProxy {
        path: "/org/freedesktop/systemd1"@,
        interface: "org.freedesktop.systemd1.Manager"@,
    }
}

/// What is done outside is what is requested, word for word.
pub proof fn actions_say_what_is_requested(
    controller: SystemdController,
    operation: Operation,
    action: Action,
)
    requires
        call_ensures(SystemdController::action, (&controller, &operation), action),
    ensures
        match systemd::pending(controller@, operation.phase) {
            Request::OpenProxy { path, interface } => action matches Action::OpenProxy {
                path: p,
                interface: i,
            } && p@ == path && i@ == interface,
            Request::CallMethod { method, unit, job_mode: Some(job_mode) } => action matches
                Action::CallMethod { method: m, unit: u, job_mode: Some(j) } && m@ == method && u@
                == unit && j@ == job_mode,
            Request::CallMethod { method, unit, job_mode: None } => action matches
                Action::CallMethod { method: m, unit: u, job_mode: None } && m@ == method && u@
                == unit,
            Request::GetProperty { property } => action matches Action::GetProperty { property: p }
                && p@ == property,
            Request::BorrowMode => action is BorrowMode,
            Request::SendMode(mode) => action == Action::SendMode(mode),
            Request::Return(outcome) => action == Action::Return(outcome),
        },
{
}

/// Every request is one that systemd or the channel understands: a proxy is for
/// the manager, or for a unit's object at the path that the manager gave; a call
/// names a managed unit, and has the job mode `replace` unless it loads the
/// unit; the property that is read is `ActiveState`.
pub proof fn requests_are_understood(names: UnitNames, phase: Phase)
    ensures
        match systemd::pending(names, phase) {
            Request::OpenProxy { path, interface } => {
                ||| systemd::pending(names, phase) == manager_request()
                ||| interface == "org.freedesktop.systemd1.Unit"@ && (phase matches Phase::Read {
                    step: ReadStep::Open { path: given },
                    ..
                } && path == given@)
            },
            Request::CallMethod { method, unit, job_mode } => {
                &&& unit == names.lock || unit == names.suspend
                &&& job_mode is None ==> method == "LoadUnit"@
                &&& job_mode matches Some(job_mode) ==> job_mode == "replace"@ && (method
                    == "StartUnit"@ || method == "StopUnit"@)
            },
            Request::GetProperty { property } => property == "ActiveState"@,
            _ => true,
        },
{
}

/// An operation hands back its outcome, unaltered, once it is finished and not
/// before.
pub proof fn outcomes_are_handed_back(names: UnitNames, operation: Operation)
    ensures
        operation.phase matches Phase::Finished { outcome } ==> systemd::pending(
            names,
            operation.phase,
        ) == Request::Return(outcome),
        systemd::pending(names, operation.phase) is Return ==> operation.phase is Finished,
{
}

/// For a mode that can be asked for, the manager is asked to start the units
/// that run in it and to stop the others, each by its name and with the job mode
/// `replace`, once the proxy of the manager is there.
pub proof fn units_are_started_and_stopped_by_name(
    names: UnitNames,
    target: Mode,
    unit: ManagedUnit,
)
    requires
        target is Normal || target is NoSuspend || target is NoIdle,
    ensures
        systemd::pending(names, Phase::Command { target, unit, opened: false })
            == manager_request(),
        systemd::pending(names, Phase::Command { target, unit, opened: true })
            == (Request::CallMethod {
            method: if target is Normal || (target is NoSuspend && unit is Lock) {
                "StartUnit"@
            } else {
                "StopUnit"@
            },
            unit: if unit is Lock {
                names.lock
            } else {
                names.suspend
            },
            job_mode: Some("replace"@),
        }),
{
}

/// The state of a unit is read with four requests, whatever is known of the
/// other unit and whatever follows: the manager, the loading of the unit by its
/// name, the object at exactly the path that was answered, and its
/// `ActiveState`. What that says decides whether the unit counts as running.
pub proof fn units_are_read_at_their_objects(
    names: UnitNames,
    reading: Reading,
    followup: Followup,
    path: String,
    active_state: String,
)
    ensures
        ({
            let name = if reading is Lock {
                names.lock
            } else {
                names.suspend
            };
            let first = Operation {
                phase: Phase::Read { reading, step: ReadStep::Manager, followup },
            };
            let second = first.after(Event::Done);
            let third = second.after(Event::Path(path));
            let fourth = third.after(Event::Done);
            let state = if bus_laws::running(active_state@) {
                UnitState::Active
            } else {
                UnitState::Inactive
            };
            &&& systemd::pending(names, first.phase) == manager_request()
            &&& systemd::pending(names, second.phase) == (Request::CallMethod {
                method: "LoadUnit"@,
                unit: name,
                job_mode: None,
            })
            &&& systemd::pending(names, third.phase) == (Request::OpenProxy {
                path: path@,
                interface: "org.freedesktop.systemd1.Unit"@,
            })
            &&& systemd::pending(names, fourth.phase) == (Request::GetProperty {
                property: "ActiveState"@,
            })
            &&& match reading {
                Reading::Lock => fourth.after(Event::Text(active_state)).phase == (Phase::Read {
                    reading: Reading::Suspend { lock: state },
                    step: ReadStep::Manager,
                    followup,
                }),
                Reading::Suspend { lock } => fourth.after(Event::Text(active_state)).phase
                    matches Phase::Compare { mode, followup: later } && later == followup && (mode
                    is Unavailable <==> lock is Unavailable),
            }
        }),
{
}

/// A unit that cannot be read, at whichever of the four requests, counts as
/// unavailable, and so does the mode then.
pub proof fn unreadable_units_are_unavailable(
    reading: Reading,
    step: ReadStep,
    followup: Followup,
)
    ensures
        ({
            let operation = Operation { phase: Phase::Read { reading, step, followup } };
            match reading {
                Reading::Lock => operation.after(Event::Failed).phase == (Phase::Read {
                    reading: Reading::Suspend { lock: UnitState::Unavailable },
                    step: ReadStep::Manager,
                    followup,
                }),
                Reading::Suspend { .. } => operation.after(Event::Failed).phase
                    == (Phase::Compare { mode: Mode::Unavailable, followup }),
            }
        }),
{
}

/// Each request takes the answers of its kind and no others; what does not
/// answer changes nothing.
pub proof fn answers_fit_requests(
    names: UnitNames,
    operation: Operation,
    event: Event,
    accepted: bool,
    next: Operation,
)
    requires
        call_ensures(Operation::accepts, (&operation, &event), accepted),
        call_ensures(Operation::step, (operation, event), next),
    ensures
        accepted <==> match systemd::pending(names, operation.phase) {
            Request::OpenProxy { .. } => event is Done || event is Failed,
            Request::CallMethod { .. } => event is Path || event is Failed,
            Request::GetProperty { .. } => event is Text || event is Failed,
            Request::BorrowMode => event is Published,
            Request::SendMode(_) => event is Done || event is Failed,
            Request::Return(_) => false,
        },
        !accepted ==> next == operation,
        next == operation.after(event),
{
}

/// A mode that has been read is published if it differs from the mode that was
/// published last, and only then; whether publishing succeeds makes no
/// difference to what follows.
pub proof fn changed_modes_are_published(
    names: UnitNames,
    mode: Mode,
    followup: Followup,
    published: Mode,
)
    ensures
        ({
            let compared = Operation { phase: Phase::Compare { mode, followup } }.after(
                Event::Published(published),
            );
            let unchanged = Operation { phase: Phase::Compare { mode, followup } }.after(
                Event::Published(mode),
            );
            &&& systemd::pending(names, Phase::Compare { mode, followup }) is BorrowMode
            &&& published != mode ==> {
                &&& systemd::pending(names, compared.phase) == Request::SendMode(mode)
                &&& compared.after(Event::Done) == unchanged
                &&& compared.after(Event::Failed) == unchanged
            }
            &&& match followup {
                Followup::Return => systemd::pending(names, unchanged.phase) == Request::Return(
                    Ok(mode),
                ),
                Followup::Advance => unchanged.phase == (Phase::Command {
                    target: bus_laws::next_in_cycle(mode),
                    unit: ManagedUnit::Lock,
                    opened: false,
                }),
            }
        }),
{
}

/// Once a mode has been set, whatever came back as the paths of the jobs, the
/// units are read, the lock unit first.
pub proof fn commands_are_read_back(target: Mode, job: String)
    ensures
        ({
            let lock = Operation {
                phase: Phase::Command { target, unit: ManagedUnit::Lock, opened: true },
            };
            let suspend = Operation {
                phase: Phase::Command { target, unit: ManagedUnit::Suspend, opened: true },
            };
            &&& lock.after(Event::Path(job)).phase == (Phase::Command {
                target,
                unit: ManagedUnit::Suspend,
                opened: false,
            })
            &&& suspend.after(Event::Path(job)).phase == (Phase::Read {
                reading: Reading::Lock,
                step: ReadStep::Manager,
                followup: Followup::Return,
            })
            &&& forall|unit: ManagedUnit|
                (#[trigger] (Operation {
                    phase: Phase::Command { target, unit, opened: false },
                }).after(Event::Done)).phase == (Phase::Command { target, unit, opened: true })
        }),
{
}

/// An operation ends with an error exactly if a call fails that was to bring a
/// unit to its state, and the message of the error tells which call that was.
pub proof fn errors_tell_what_failed(
    controller: SystemdController,
    operation: Operation,
    event: Event,
    error: ControllerError,
    message: String,
)
    requires
        !(operation.phase is Finished),
        operation.after(event).phase == (Phase::Finished { outcome: Err(error) }),
        call_ensures(SystemdController::error_text, (&controller, error), message),
    ensures
        event is Failed,
        operation.phase is Command,
        match systemd::pending(controller@, operation.phase) {
            Request::OpenProxy { .. } => {
                &&& error is ManagerUnavailable
                &&& message@ == "failed to create systemd manager proxy"@
            },
            Request::CallMethod { method, unit, .. } => {
                &&& method == "StartUnit"@ || method == "StopUnit"@
                &&& method == "StartUnit"@ ==> message@ == "failed to start "@ + unit
                &&& method == "StopUnit"@ ==> message@ == "failed to stop "@ + unit
            },
            _ => false,
        },
{
    bus_laws::methods_differ();
}

/// A call that fails while a unit is to be brought to its state ends the
/// operation with an error.
pub proof fn failed_commands_end_with_an_error(target: Mode, unit: ManagedUnit, opened: bool)
    ensures
        (Operation { phase: Phase::Command { target, unit, opened } }).after(
            Event::Failed,
        ).phase matches Phase::Finished { outcome: Err(_) },
{
}

/// Exactly the modes `normal`, `no-suspend` and `no-idle` can be set. Another
/// mode is refused by its name.
pub proof fn only_some_modes_can_be_set(
    controller: SystemdController,
    mode: Mode,
    started: Result<Operation, ControllerError>,
    message: String,
)
    requires
        call_ensures(SystemdController::set_mode, (&controller, mode), started),
        started matches Err(error) ==> call_ensures(
            SystemdController::error_text,
            (&controller, error),
            message,
        ),
    ensures
        started is Ok <==> mode is Normal || mode is NoSuspend || mode is NoIdle,
        started is Err ==> message@ == "mode "@ + mode.name() + " cannot be set directly"@,
{
}

/// A warning is due exactly for requests whose failure leaves a unit unavailable.
/// It names the unit, and tells by the request what went wrong.
pub proof fn warnings_tell_what_could_not_be_read(
    controller: SystemdController,
    operation: Operation,
    message: Option<String>,
)
    requires
        call_ensures(SystemdController::warning, (&controller, &operation), message),
    ensures
        message is Some <==> operation.phase is Read,
        operation.phase matches Phase::Read { reading, .. } ==> {
            let unit = if reading is Lock {
                controller@.lock
            } else {
                controller@.suspend
            };
            let head = "Unable to read state for "@ + unit + ": "@;
            match systemd::pending(controller@, operation.phase) {
                Request::OpenProxy { interface, .. } => if interface
                    == "org.freedesktop.systemd1.Manager"@ {
                    (message->0)@ == head + "failed to create systemd manager proxy"@
                } else {
                    (message->0)@ == head + ("failed to create proxy for "@ + unit)
                },
                Request::CallMethod { .. } => (message->0)@ == head + ("failed to load "@ + unit),
                Request::GetProperty { .. } => (message->0)@ == head + (
                "failed to read ActiveState for "@ + unit),
                _ => false,
            }
        },
{
    reveal_strlit("org.freedesktop.systemd1.Manager");
    reveal_strlit("org.freedesktop.systemd1.Unit");
    assert("org.freedesktop.systemd1.Manager"@.len() != "org.freedesktop.systemd1.Unit"@.len());
}

/// The managed units bear the names that they were given, each for itself, or
/// the names that come with the service.
pub proof fn units_bear_the_names_given(
    lock: Option<String>,
    suspend: Option<String>,
    controller: SystemdController,
    lock_name: &str,
    suspend_name: &str,
)
    requires
        call_ensures(SystemdController::new, (lock, suspend), controller),
        call_ensures(SystemdController::unit_name, (&controller, ManagedUnit::Lock), lock_name),
        call_ensures(
            SystemdController::unit_name,
            (&controller, ManagedUnit::Suspend),
            suspend_name,
        ),
    ensures
        controller@.lock == lock_name@,
        controller@.suspend == suspend_name@,
        lock matches Some(name) ==> lock_name@ == name@,
        lock is None ==> lock_name@ == "guayusa-swayidle-lock.service"@,
        suspend matches Some(name) ==> suspend_name@ == name@,
        suspend is None ==> suspend_name@ == "guayusa-swayidle-suspend.service"@,
{
}

/// Of all the texts that an `ActiveState` can be, three mean that a unit runs,
/// and every other means that it does not.
pub proof fn three_states_mean_running(active_state: &str, state: UnitState)
    requires
        call_ensures(systemd::classify_active_state, (active_state,), state),
    ensures
        state is Active <==> active_state@ == "active"@ || active_state@ == "activating"@
            || active_state@ == "reloading"@,
        state is Inactive <==> !(state is Active),
{
}

/// The mode is unavailable exactly if a unit is. Otherwise it tells of each unit
/// whether it runs.
pub proof fn modes_tell_what_runs(lock: UnitState, suspend: UnitState, mode: Mode)
    requires
        call_ensures(systemd::infer_mode, (lock, suspend), mode),
    ensures
        mode is Unavailable <==> lock is Unavailable || suspend is Unavailable,
        !(mode is Unavailable) ==> {
            &&& lock is Active <==> mode is Normal || mode is NoSuspend
            &&& suspend is Active <==> mode is Normal || mode is Custom
        },
{
}

/// How an exchange shortens what is left of an operation.
proof fn follow_length(
    names: UnitNames,
    start: (Operation, Bus),
    exchanges: Seq<Exchange>,
)
    requires
        bus_laws::plays(names, start, exchanges),
    ensures
        systemd_laws::actions_left(bus_laws::played(start, exchanges).0.phase) + exchanges.len()
            <= systemd_laws::actions_left(start.0.phase),
    decreases exchanges.len(),
{
    if exchanges.len() > 0 {
        follow_length(names, start, exchanges.drop_last());
    }
}

/// Operations come to an end: reading the mode takes 10 exchanges at most,
/// setting it 14, cycling 24, whatever fails.
pub proof fn operations_take_few_exchanges(
    controller: SystemdController,
    operation: Operation,
    mode: Mode,
    bus: Bus,
    exchanges: Seq<Exchange>,
)
    requires
        bus_laws::plays(controller@, (operation, bus), exchanges),
    ensures
        call_ensures(SystemdController::refresh_mode, (&controller,), operation)
            ==> exchanges.len() <= 10,
        call_ensures(
            SystemdController::set_mode,
            (&controller, mode),
            Ok::<Operation, ControllerError>(operation),
        ) ==> exchanges.len() <= 14,
        call_ensures(SystemdController::cycle_mode, (&controller,), operation) ==> exchanges.len()
            <= 24,
{
    follow_length(controller@, (operation, bus), exchanges);
}

/// An operation that has nothing to hand back yet can go on, whatever there is
/// outside.
pub proof fn operations_can_go_on(names: UnitNames, operation: Operation, bus: Bus)
    requires
        !(systemd::pending(names, operation.phase) is Return),
    ensures
        exists|event: Event, then_bus: Bus| #[trigger]
            bus.answers(systemd::pending(names, operation.phase), event, then_bus)
                && operation.answered_by(event),
{
    let request = systemd::pending(names, operation.phase);
    match request {
        Request::BorrowMode => {
            assert(bus.answers(request, Event::Published(bus.published), bus));
        },
        Request::SendMode(mode) => {
            if bus.listening {
                assert(bus.answers(request, Event::Done, Bus { published: mode, ..bus }));
            } else {
                assert(bus.answers(request, Event::Failed, bus));
            }
        },
        _ => {
            assert(bus.answers(request, Event::Failed, bus));
        },
    }
}

} // verus!
