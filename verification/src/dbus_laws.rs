//! What callers and listeners on the message bus can rely on.

use crate::dbus;
use crate::dbus::{
    DbusSetup, DbusSetupEvent, Emission, MonitorEvent, SignalModel, StatusMonitor,
};
use crate::mode;
use crate::mode::Mode;
use crate::systemd;
use crate::systemd::{Event, Operation, Phase, UnitNames};
use crate::systemd_laws;
use crate::systemd_laws::World;
use vstd::prelude::*;

verus! {

/// `Enable()` and `SetInhibit(true)` are `SetMode("no-idle")`; `Disable()` and
/// `SetInhibit(false)` are `SetMode("normal")`.
pub proof fn compatibility_methods_set_modes()
    ensures
        mode::primary_named("no-idle"@) == Some(Mode::NoIdle),
        dbus::inhibit_mode(true) == Mode::NoIdle,
        mode::primary_named("normal"@) == Some(Mode::Normal),
        dbus::inhibit_mode(false) == Mode::Normal,
{
    mode::only_primary_names_parse(Mode::NoIdle);
    mode::only_primary_names_parse(Mode::Normal);
}

/// Toggling asks for primary modes only, switches between holding everything
/// off and holding nothing off, and takes itself back.
pub proof fn toggling_switches(current: Mode)
    ensures
        dbus::toggled(current) == if current is Normal {
            Mode::NoIdle
        } else {
            Mode::Normal
        },
        dbus::toggled(current).primary(),
        current is Normal || current is NoIdle ==> dbus::toggled(dbus::toggled(current)) == current,
        current.inhibits() ==> !dbus::toggled(current).inhibits(),
{
}

/// A mode that is set by name with success is the mode whose name the property
/// `Mode` then has and whose status the property `Status` then has.
pub proof fn properties_show_the_mode_that_was_set(
    world: World,
    names: UnitNames,
    name: Seq<char>,
    events: Seq<Event>,
)
    requires
        world.listening,
        mode::primary_named(name) matches Some(mode) && {
            &&& mode is NoSuspend ==> names.lock != names.suspend
            &&& world.allows_all(names, Operation { phase: systemd::applying(mode) }, events)
        },
    ensures
        ({
            let mode = mode::primary_named(name)->0;
            let operation = Operation { phase: systemd::applying(mode) };
            let now = world.after_all(names, operation, events);
            systemd_laws::run(operation, events).phase matches Phase::Finished {
                outcome: Ok(reported),
            } ==> {
                &&& reported.name() == name
                &&& now.published.name() == name
                &&& now.published.inhibits() <==> !(mode is Normal)
            }
        }),
{
    let mode = mode::primary_named(name)->0;
    systemd_laws::applying_reaches_the_mode(world, names, mode, events);
}

/// Whether toggling in this world succeeds with these events.
pub open spec fn toggles_with(world: World, names: UnitNames, events: Seq<Event>) -> bool {
    let operation = Operation { phase: systemd::applying(dbus::toggled(world.published)) };
    &&& world.allows_all(names, operation, events)
    &&& systemd_laws::run(operation, events).phase matches Phase::Finished { outcome: Ok(_) }
}

/// The world after toggling with these events.
pub open spec fn world_toggled(world: World, names: UnitNames, events: Seq<Event>) -> World {
    world.after_all(
        names,
        Operation { phase: systemd::applying(dbus::toggled(world.published)) },
        events,
    )
}

/// Toggling twice with success leads back to the mode that it started from, be
/// it `normal` or `no-idle`, for the units as for listeners.
pub proof fn toggling_back_restores_the_mode(
    world: World,
    names: UnitNames,
    first: Seq<Event>,
    second: Seq<Event>,
)
    requires
        world.listening,
        world.published is Normal || world.published is NoIdle,
        toggles_with(world, names, first),
        toggles_with(world_toggled(world, names, first), names, second),
    ensures
        ({
            let now = world_toggled(world_toggled(world, names, first), names, second);
            now.published == world.published && now.mode(names) == world.published
        }),
{
    let between = world_toggled(world, names, first);
    systemd_laws::applying_reaches_the_mode(world, names, dbus::toggled(world.published), first);
    systemd_laws::applying_reaches_the_mode(
        between,
        names,
        dbus::toggled(between.published),
        second,
    );
}

/// A mode name that is not that of a primary mode is refused.
pub proof fn other_modes_cannot_be_set_by_name(mode: Mode)
    requires
        !mode.primary(),
    ensures
        mode::primary_named(mode.name()) is None,
{
    mode::only_primary_names_parse(mode);
}

/// The monitor after all the modes were published.
pub open spec fn monitored(monitor: StatusMonitor, modes: Seq<Mode>) -> StatusMonitor
    decreases modes.len(),
{
    if modes.len() == 0 {
        monitor
    } else {
        monitored(monitor, modes.drop_last()).after(MonitorEvent::Changed(modes.last()))
    }
}

/// The mode names that listeners are sent when these modes are published.
pub open spec fn names_sent(monitor: StatusMonitor, modes: Seq<Mode>) -> Seq<Seq<char>>
    decreases modes.len(),
{
    if modes.len() == 0 {
        Seq::empty()
    } else {
        let before = names_sent(monitor, modes.drop_last());
        match monitored(monitor, modes.drop_last()).emission(MonitorEvent::Changed(modes.last())) {
            Emission::Emit { mode_changed, .. } => before.push(mode_changed),
            Emission::Stop => before,
        }
    }
}

/// The statuses that listeners are sent when these modes are published.
pub open spec fn statuses_sent(monitor: StatusMonitor, modes: Seq<Mode>) -> Seq<bool>
    decreases modes.len(),
{
    if modes.len() == 0 {
        Seq::empty()
    } else {
        let before = statuses_sent(monitor, modes.drop_last());
        match monitored(monitor, modes.drop_last()).emission(MonitorEvent::Changed(modes.last())) {
            Emission::Emit { status_changed: Some(status), .. } => before.push(status),
            _ => before,
        }
    }
}

/// Every published mode is sent by its name, in order.
pub proof fn every_mode_is_sent(monitor: StatusMonitor, modes: Seq<Mode>)
    ensures
        names_sent(monitor, modes) == modes.map_values(|mode: Mode| mode.name()),
    decreases modes.len(),
{
    if modes.len() > 0 {
        every_mode_is_sent(monitor, modes.drop_last());
        assert(modes.map_values(|mode: Mode| mode.name()) =~= modes.drop_last().map_values(
            |mode: Mode| mode.name(),
        ).push(modes.last().name()));
    } else {
        assert(modes.map_values(|mode: Mode| mode.name()) =~= Seq::<Seq<char>>::empty());
    }
}

/// Statuses are sent exactly as they change: each differs from the one before,
/// the first from the status at the start, and a listener who keeps the last
/// one knows the status of the last mode.
pub proof fn statuses_are_sent_as_they_change(monitor: StatusMonitor, modes: Seq<Mode>)
    ensures
        ({
            let sent = statuses_sent(monitor, modes);
            &&& sent.len() > 0 ==> sent[0] != monitor.last_status
            &&& forall|i: int| 0 < i < sent.len() ==> #[trigger] sent[i] != sent[i - 1]
            &&& monitored(monitor, modes).last_status == (if sent.len() > 0 {
                sent.last()
            } else {
                monitor.last_status
            })
            &&& modes.len() > 0 ==> monitored(monitor, modes).last_status
                == modes.last().inhibits()
        }),
    decreases modes.len(),
{
    if modes.len() > 0 {
        statuses_are_sent_as_they_change(monitor, modes.drop_last());
    }
}

/// The signals that listeners are sent, in order, when these modes are published.
pub open spec fn signals_sent(monitor: StatusMonitor, modes: Seq<Mode>) -> Seq<SignalModel>
    decreases modes.len(),
{
    if modes.len() == 0 {
        Seq::empty()
    } else {
        signals_sent(monitor, modes.drop_last()) + monitored(monitor, modes.drop_last()).emission(
            MonitorEvent::Changed(modes.last()),
        ).signals()
    }
}

/// What listeners are to be sent when a mode follows another: the name of the
/// mode, and then its status if that is another status.
pub open spec fn change(previous: Mode, mode: Mode) -> Seq<SignalModel> {
    if mode.inhibits() != previous.inhibits() {
        seq![
            SignalModel::ModeChanged(mode.name()),
            SignalModel::StatusChanged(mode.inhibits()),
        ]
    } else {
        seq![SignalModel::ModeChanged(mode.name())]
    }
}

/// What listeners are to be sent when modes follow each other, beginning after
/// `first`.
pub open spec fn changes(first: Mode, modes: Seq<Mode>) -> Seq<SignalModel>
    decreases modes.len(),
{
    if modes.len() == 0 {
        Seq::empty()
    } else {
        let previous = if modes.len() == 1 {
            first
        } else {
            modes[modes.len() - 2]
        };
        changes(first, modes.drop_last()) + change(previous, modes.last())
    }
}

/// A monitor that starts in some mode sends exactly what follows from the modes
/// that are published from then on, in order: for each mode `ModeChanged`, and
/// right after it `StatusChanged` where the status differs from that of the
/// mode before. Nothing is sent for the mode at the start.
pub proof fn signals_follow_the_modes(monitor: StatusMonitor, first: Mode, modes: Seq<Mode>)
    requires
        monitor.last_status == first.inhibits(),
    ensures
        signals_sent(monitor, modes) == changes(first, modes),
    decreases modes.len(),
{
    if modes.len() > 0 {
        signals_follow_the_modes(monitor, first, modes.drop_last());
        statuses_are_sent_as_they_change(monitor, modes.drop_last());
    }
}

/// The set-up after all the events.
pub open spec fn setup_run(setup: DbusSetup, events: Seq<DbusSetupEvent>) -> DbusSetup
    decreases events.len(),
{
    if events.len() == 0 {
        setup
    } else {
        setup_run(setup, events.drop_last()).after(events.last())
    }
}

/// The service is on the bus exactly if its first two actions succeeded: to
/// serve the object, and then to request the name.
pub proof fn service_appears_after_both_actions(events: Seq<DbusSetupEvent>)
    ensures
        setup_run(DbusSetup::ServingObject, events) is Ready <==> events.len() >= 2 && events[0]
            is Done && events[1] is Done,
    decreases events.len(),
{
    follow_dbus_setup(events);
}

/// Where the set-up stands after some events.
proof fn follow_dbus_setup(events: Seq<DbusSetupEvent>)
    ensures
        match setup_run(DbusSetup::ServingObject, events) {
            DbusSetup::ServingObject => events.len() == 0,
            DbusSetup::RequestingName => events.len() == 1 && events[0] is Done,
            DbusSetup::Ready => events.len() >= 2 && events[0] is Done && events[1] is Done,
            DbusSetup::Failed(_) => events.len() >= 1 && (!(events[0] is Done) || (events.len() >= 2
                && !(events[1] is Done))),
        },
    decreases events.len(),
{
    if events.len() > 0 {
        follow_dbus_setup(events.drop_last());
    }
}

} // verus!
