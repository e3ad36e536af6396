//! What callers on the message bus can rely on, method by method.

use crate::bus_laws;
use crate::bus_laws::{Bus, Exchange};
use crate::dbus;
use crate::dbus::{
    DbusAction, DbusRequest, DbusSetup, DbusSetupError, DbusSetupEvent, IdleInhibitorInterface,
    MonitorAction, MonitorEvent, PollAction, PollEvent, ServiceError, Signal, SignalModel,
    StatusMonitor,
};
use crate::dbus_laws;
use crate::mode;
use crate::mode::Mode;
use crate::systemd;
use crate::systemd::{ControllerError, Operation, Request, SystemdController};
use vstd::prelude::*;

verus! {

/// `SetMode` takes the names `normal`, `no-suspend` and `no-idle`, and does what
/// setting the mode of that name does. Every other name is refused, and the
/// refusal repeats the name.
pub proof fn set_mode_goes_by_the_name(
    interface: IdleInhibitorInterface,
    controller: SystemdController,
    name: &str,
    started: Result<Operation, ServiceError>,
    mode: Mode,
    direct: Result<Operation, ControllerError>,
)
    requires
        call_ensures(IdleInhibitorInterface::set_mode, (&interface, name), started),
        call_ensures(SystemdController::set_mode, (&controller, mode), direct),
    ensures
        started is Ok <==> name@ == "normal"@ || name@ == "no-suspend"@ || name@ == "no-idle"@,
        started matches Err(error) ==> error matches ServiceError::InvalidArgs(message) && message@
            == "invalid mode "@ + name@ + "; expected normal, no-suspend, or no-idle"@,
        mode is Normal && name@ == "normal"@ ==> direct->Ok_0 == started->Ok_0,
        mode is NoSuspend && name@ == "no-suspend"@ ==> direct->Ok_0 == started->Ok_0,
        mode is NoIdle && name@ == "no-idle"@ ==> direct->Ok_0 == started->Ok_0,
{
    mode::only_primary_names_parse(Mode::Normal);
    mode::only_primary_names_parse(Mode::NoSuspend);
    mode::only_primary_names_parse(Mode::NoIdle);
}

/// A caller who sets a mode by its name, if no call fails that could have been
/// met, is told of success. The units are then in the mode of that name, and the
/// property `Mode` is that name.
pub proof fn callers_get_the_mode_they_name(
    interface: IdleInhibitorInterface,
    name: &str,
    operation: Operation,
    bus: Bus,
    exchanges: Seq<Exchange>,
    property: String,
)
    requires
        call_ensures(
            IdleInhibitorInterface::set_mode,
            (&interface, name),
            Ok::<Operation, ServiceError>(operation),
        ),
        bus.listening,
        bus.objects.dom().contains(interface@.lock),
        bus.objects.dom().contains(interface@.suspend),
        bus.objects[interface@.lock] != bus.objects[interface@.suspend],
        bus_laws::plays(interface@, (operation, bus), exchanges),
        bus_laws::faultless(interface@, (operation, bus), exchanges),
        call_ensures(
            IdleInhibitorInterface::mode,
            (&interface, bus_laws::played((operation, bus), exchanges).1.published),
            property,
        ),
    ensures
        ({
            let (now_doing, now) = bus_laws::played((operation, bus), exchanges);
            systemd::pending(interface@, now_doing.phase) matches Request::Return(outcome) ==> {
                &&& outcome is Ok
                &&& property@ == name@
                &&& now.mode(interface@).name() == name@
                &&& now.runs(interface@.lock) <==> name@ != "no-idle"@
                &&& now.runs(interface@.suspend) <==> name@ == "normal"@
            }
        }),
{
    mode::parsed_modes_bear_the_name(name@);
    let mode = mode::primary_named(name@)->0;
    mode::names_are_distinct(mode, Mode::Normal);
    mode::names_are_distinct(mode, Mode::NoIdle);
    bus_laws::applying_a_mode_brings_it_about(interface@, mode, operation, bus, exchanges);
}

/// The compatibility methods are settings by name: `Enable()` and
/// `SetInhibit(true)` of `no-idle`, `Disable()` and `SetInhibit(false)` of
/// `normal`. `Toggle()` is `Enable()` in the mode `normal` and `Disable()` in
/// every other.
pub proof fn compatibility_methods_are_settings_by_name(
    interface: IdleInhibitorInterface,
    no_idle: &str,
    normal: &str,
    set_no_idle: Result<Operation, ServiceError>,
    set_normal: Result<Operation, ServiceError>,
    current: Mode,
    started: Result<Operation, ServiceError>,
)
    requires
        no_idle@ == "no-idle"@,
        normal@ == "normal"@,
        call_ensures(IdleInhibitorInterface::set_mode, (&interface, no_idle), set_no_idle),
        call_ensures(IdleInhibitorInterface::set_mode, (&interface, normal), set_normal),
    ensures
        set_no_idle is Ok && set_normal is Ok,
        set_no_idle != set_normal,
        call_ensures(IdleInhibitorInterface::enable, (&interface,), started) ==> started
            == set_no_idle,
        call_ensures(IdleInhibitorInterface::disable, (&interface,), started) ==> started
            == set_normal,
        call_ensures(IdleInhibitorInterface::set_inhibit, (&interface, true), started) ==> started
            == set_no_idle,
        call_ensures(IdleInhibitorInterface::set_inhibit, (&interface, false), started) ==> started
            == set_normal,
        call_ensures(IdleInhibitorInterface::toggle, (&interface, current), started) ==> started
            == (if current is Normal {
            set_no_idle
        } else {
            set_normal
        }),
{
    mode::only_primary_names_parse(Mode::Normal);
    mode::only_primary_names_parse(Mode::NoIdle);
}

/// `CycleMode()` cycles, and `set_controller_mode` sets the mode or refuses it
/// with the message of the controller.
pub proof fn methods_are_those_of_the_controller(
    interface: IdleInhibitorInterface,
    controller: SystemdController,
    cycling: Operation,
    controller_cycling: Operation,
    mode: Mode,
    started: Result<Operation, ServiceError>,
    direct: Result<Operation, ControllerError>,
    message: String,
)
    requires
        interface@ == controller@,
        call_ensures(IdleInhibitorInterface::cycle_mode, (&interface,), cycling),
        call_ensures(SystemdController::cycle_mode, (&controller,), controller_cycling),
        call_ensures(IdleInhibitorInterface::set_controller_mode, (&interface, mode), started),
        call_ensures(SystemdController::set_mode, (&controller, mode), direct),
        direct matches Err(error) ==> call_ensures(
            SystemdController::error_text,
            (&controller, error),
            message,
        ),
    ensures
        cycling == controller_cycling,
        match direct {
            Ok(operation) => started == Ok::<Operation, ServiceError>(operation),
            Err(_) => started matches Err(ServiceError::Failed(text)) && text@ == message@,
        },
{
}

/// An interface serves the units of the controller that it was made with.
pub proof fn interfaces_keep_their_controller(
    controller: SystemdController,
    interface: IdleInhibitorInterface,
    kept: &SystemdController,
)
    requires
        call_ensures(IdleInhibitorInterface::new, (controller,), interface),
        call_ensures(IdleInhibitorInterface::controller, (&interface,), kept),
    ensures
        interface@ == controller@,
        kept@ == controller@,
{
}

/// The reply to a method that reached a mode is what the properties say in that
/// mode: `CycleMode()` replies with the property `Mode`, `Toggle()` with the
/// property `Status`. A method that failed replies with the message of the
/// error, whichever method it is.
pub proof fn replies_are_what_the_properties_say(
    interface: IdleInhibitorInterface,
    controller: SystemdController,
    outcome: Result<Mode, ControllerError>,
    plain: Result<Mode, ServiceError>,
    nothing: Result<(), ServiceError>,
    status: Result<bool, ServiceError>,
    name: Result<String, ServiceError>,
    property_status: bool,
    property_mode: String,
    message: String,
)
    requires
        interface@ == controller@,
        call_ensures(IdleInhibitorInterface::reply, (&interface, outcome), plain),
        call_ensures(IdleInhibitorInterface::reply_nothing, (&interface, outcome), nothing),
        call_ensures(IdleInhibitorInterface::reply_status, (&interface, outcome), status),
        call_ensures(IdleInhibitorInterface::reply_name, (&interface, outcome), name),
        match outcome {
            Ok(mode) => {
                &&& call_ensures(
                    IdleInhibitorInterface::status,
                    (&interface, mode),
                    property_status,
                )
                &&& call_ensures(IdleInhibitorInterface::mode, (&interface, mode), property_mode)
            },
            Err(error) => call_ensures(
                SystemdController::error_text,
                (&controller, error),
                message,
            ),
        },
    ensures
        match outcome {
            Ok(mode) => {
                &&& plain == Ok::<Mode, ServiceError>(mode)
                &&& nothing is Ok
                &&& status == Ok::<bool, ServiceError>(property_status)
                &&& name matches Ok(text) && text@ == property_mode@
            },
            Err(_) => {
                &&& plain matches Err(ServiceError::Failed(text)) && text@ == message@
                &&& nothing matches Err(ServiceError::Failed(text)) && text@ == message@
                &&& status matches Err(ServiceError::Failed(text)) && text@ == message@
                &&& name matches Err(ServiceError::Failed(text)) && text@ == message@
            },
        },
{
}

/// The property `Mode` is the name of the mode, and the property `Status` is set
/// in exactly the modes `no-suspend`, `no-idle` and `custom`.
pub proof fn properties_tell_the_mode(
    interface: IdleInhibitorInterface,
    mode: Mode,
    name: String,
    status: bool,
)
    requires
        call_ensures(IdleInhibitorInterface::mode, (&interface, mode), name),
        call_ensures(IdleInhibitorInterface::status, (&interface, mode), status),
    ensures
        name@ == mode.name(),
        status <==> name@ == "no-suspend"@ || name@ == "no-idle"@ || name@ == "custom"@,
{
    mode::names_are_distinct(mode, Mode::NoSuspend);
    mode::names_are_distinct(mode, Mode::NoIdle);
    mode::names_are_distinct(mode, Mode::Custom);
}

/// To appear on the bus, the service serves its object at `/` and then requests
/// the name `org.guayusa.IdleInhibitor`, and is done when both have succeeded.
/// The first of the two that does not succeed ends the attempt with the message
/// of the bus, or as timed out. Nothing that comes later changes the result.
pub proof fn service_appears_step_by_step(events: Seq<DbusSetupEvent>, start: DbusSetup)
    requires
        call_ensures(dbus::setup_dbus_service, (), start),
    ensures
        ({
            let pending = dbus_laws::setup_run(start, events).pending();
            if events.len() == 0 {
                pending == (DbusRequest::ServeObject { path: "/"@ })
            } else if !(events[0] is Done) {
                pending == (DbusRequest::Fail { message: reason(events[0]) })
            } else if events.len() == 1 {
                pending == (DbusRequest::RequestName { name: "org.guayusa.IdleInhibitor"@ })
            } else if !(events[1] is Done) {
                pending == (DbusRequest::Fail { message: reason(events[1]) })
            } else {
                pending is Finish
            }
        }),
{
    follow_appearance(events);
}

/// Why an attempt to appear on the bus ended.
pub open spec fn reason(event: DbusSetupEvent) -> Seq<char> {
    match event {
        DbusSetupEvent::Refused(message) => message@,
        _ => "D-Bus setup timed out"@,
    }
}

/// Where the attempt to appear on the bus stands after some events.
proof fn follow_appearance(events: Seq<DbusSetupEvent>)
    ensures
        match dbus_laws::setup_run(DbusSetup::ServingObject, events) {
            DbusSetup::ServingObject => events.len() == 0,
            DbusSetup::RequestingName => events.len() == 1 && events[0] is Done,
            DbusSetup::Ready => events.len() >= 2 && events[0] is Done && events[1] is Done,
            DbusSetup::Failed(error) => {
                &&& events.len() >= 1
                &&& if !(events[0] is Done) {
                    DbusSetup::Failed(error).pending() == (DbusRequest::Fail {
                        message: reason(events[0]),
                    })
                } else {
                    &&& events.len() >= 2 && !(events[1] is Done)
                    &&& DbusSetup::Failed(error).pending() == (DbusRequest::Fail {
                        message: reason(events[1]),
                    })
                }
            },
        },
    decreases events.len(),
{
    if events.len() > 0 {
        follow_appearance(events.drop_last());
    }
}

/// What is done to appear on the bus is what is requested, word for word, and
/// each step is the one that follows.
pub proof fn appearance_actions_say_what_is_requested(
    setup: DbusSetup,
    action: DbusAction,
    event: DbusSetupEvent,
    next: DbusSetup,
)
    requires
        call_ensures(DbusSetup::action, (&setup,), action),
        call_ensures(DbusSetup::step, (setup, event), next),
    ensures
        match setup.pending() {
            DbusRequest::ServeObject { path } => action matches DbusAction::ServeObject { path: p }
                && p@ == path,
            DbusRequest::RequestName { name } => action matches DbusAction::RequestName { name: n }
                && n@ == name,
            DbusRequest::Finish => action is Finish,
            DbusRequest::Fail { message } => action matches DbusAction::Fail { message: m } && m@
                == message,
        },
        next == setup.after(event),
{
}

/// The message of a failed attempt is that of the bus, or tells of the time.
pub proof fn appearance_errors_are_those_of_the_bus(error: DbusSetupError, text: String)
    requires
        call_ensures(DbusSetupError::message, (&error,), text),
    ensures
        match error {
            DbusSetupError::Bus(message) => text@ == message@,
            DbusSetupError::TimedOut => text@ == "D-Bus setup timed out"@,
        },
{
}

/// The mode is read at every tick, and only the end of the service ends that.
pub proof fn polling_goes_on_until_shutdown(event: PollEvent, action: PollAction)
    requires
        call_ensures(dbus::state_poll_task, (event,), action),
    ensures
        action is Refresh <==> event is Tick,
        action is Stop <==> event is Shutdown,
{
}

/// The monitor stops when no mode comes any more, when it cannot send, or when
/// the service shuts down, and sends nothing then. A mode never stops it.
pub proof fn monitor_stops_when_there_is_nothing_to_do(monitor: StatusMonitor, event: MonitorEvent)
    ensures
        monitor.emission(event) is Stop <==> event is Closed || event is NoEmitter || event
            is Shutdown,
        monitor.emission(event) is Stop ==> monitor.emission(event).signals() == Seq::<
            SignalModel,
        >::empty(),
{
}

/// A monitor that was started in some mode tells listeners exactly of the modes
/// that are published from then on, in order, each by its name, and of the
/// status right behind it where that has changed.
pub proof fn listeners_are_told_of_changes(first: Mode, monitor: StatusMonitor, modes: Seq<Mode>)
    requires
        call_ensures(dbus::status_monitor_task, (first,), monitor),
    ensures
        dbus_laws::signals_sent(monitor, modes) == dbus_laws::changes(first, modes),
{
    dbus_laws::signals_follow_the_modes(monitor, first, modes);
}

/// The signals that are sent are those of the emission, each with its own name
/// or status, in order.
pub proof fn signals_say_what_is_emitted(action: MonitorAction, signals: Vec<Signal>)
    requires
        call_ensures(MonitorAction::signals, (&action,), signals),
    ensures
        match action {
            MonitorAction::Emit { mode_changed, status_changed } => {
                &&& signals@.len() == (if status_changed is Some {
                    2nat
                } else {
                    1
                })
                &&& signals@[0] matches Signal::ModeChanged(name) && name@ == mode_changed@
                &&& status_changed matches Some(status) ==> signals@[1] == Signal::StatusChanged(
                    status,
                )
            },
            MonitorAction::Stop => signals@.len() == 0,
        },
        match action@ {
            dbus::Emission::Emit { mode_changed, status_changed } => action matches
                MonitorAction::Emit { mode_changed: name, status_changed: status } && name@
                == mode_changed && status == status_changed,
            dbus::Emission::Stop => action is Stop,
        },
{
    let seen = signals@.map_values(|signal: Signal| signal@);
    assert(seen.len() == signals@.len());
    assert(forall|i: int| 0 <= i < signals@.len() ==> seen[i] == #[trigger] signals@[i]@);
    if signals@.len() > 0 {
        assert(seen[0] == signals@[0]@);
    }
    if signals@.len() > 1 {
        assert(seen[1] == signals@[1]@);
    }
}

/// A mode that is published is told by its name, with its status exactly if that
/// differs from the last, and the monitor keeps the status for the next time.
pub proof fn monitor_remembers_the_status(event: MonitorEvent, action: MonitorAction)
    ensures
        forall|monitor: &mut StatusMonitor| #[trigger]
            call_ensures(StatusMonitor::step, (monitor, event), action) ==> match event {
                MonitorEvent::Changed(mode) => {
                    let status = mode is NoSuspend || mode is NoIdle || mode is Custom;
                    &&& (*final(monitor)).last_status == status
                    &&& action matches MonitorAction::Emit { mode_changed, status_changed }
                        && mode_changed@ == mode.name() && status_changed == (if status
                        != (*monitor).last_status {
                        Some(status)
                    } else {
                        None
                    })
                },
                _ => action is Stop,
            },
        forall|monitor: &mut StatusMonitor| #[trigger]
            call_ensures(StatusMonitor::step, (monitor, event), action) ==> {
                &&& action@ == (*monitor).emission(event)
                &&& *final(monitor) == (*monitor).after(event)
            },
{
}

} // verus!
