//! What operations do to systemd, which knows nothing of their phases and goes
//! by the requests alone.

use crate::mode::Mode;
use crate::systemd;
use crate::systemd::{
    ControllerError, Event, Followup, ManagedUnit, Operation, Phase, ReadStep, Reading, Request,
    SystemdController, UnitNames, UnitState,
};
use vstd::prelude::*;

verus! {

/// What there is on the other side of the requests: systemd, the proxy that was
/// made last, and the channel that modes are published on.
pub struct Bus {
    /// The path of the object of each unit that can be loaded.
    pub objects: Map<Seq<char>, Seq<char>>,
    /// The properties of units, by object path and property name.
    pub properties: Map<(Seq<char>, Seq<char>), Seq<char>>,
    /// Object path and interface of the proxy that was made last.
    pub proxy: Option<(Seq<char>, Seq<char>)>,
    /// The mode that was published last.
    pub published: Mode,
    /// Whether anybody listens for modes.
    pub listening: bool,
}

/// The outcome of a request, and what there is after it.
pub struct Exchange {
    pub event: Event,
    pub then_bus: Bus,
}

/// Whether a unit with this `ActiveState` runs.
pub open spec fn running(active_state: Seq<char>) -> bool {
    active_state == "active"@ || active_state == "activating"@ || active_state == "reloading"@
}

/// The mode that the cycle leads to.
pub open spec fn next_in_cycle(mode: Mode) -> Mode {
    match mode {
        Mode::Normal => Mode::NoSuspend,
        Mode::NoSuspend => Mode::NoIdle,
        Mode::NoIdle => Mode::Normal,
        Mode::Custom => Mode::Normal,
        Mode::Unavailable => Mode::Normal,
    }
}

impl Bus {
    /// Whether calls go to systemd's manager.
    pub open spec fn at_manager(self) -> bool {
        self.proxy == Some(
            ("/org/freedesktop/systemd1"@, "org.freedesktop.systemd1.Manager"@),
        )
    }

    /// Where the `ActiveState` of a unit is kept.
    pub open spec fn key(self, unit: Seq<char>) -> (Seq<char>, Seq<char>) {
        (self.objects[unit], "ActiveState"@)
    }

    /// Whether the state of a unit can be read.
    pub open spec fn readable(self, unit: Seq<char>) -> bool {
        self.objects.dom().contains(unit) && self.properties.dom().contains(self.key(unit))
    }

    /// Whether a unit runs.
    pub open spec fn runs(self, unit: Seq<char>) -> bool {
        self.readable(unit) && running(self.properties[self.key(unit)])
    }

    /// The mode that the units are in.
    pub open spec fn mode(self, names: UnitNames) -> Mode {
        if !self.readable(names.lock) || !self.readable(names.suspend) {
            Mode::Unavailable
        } else {
            match (self.runs(names.lock), self.runs(names.suspend)) {
                (true, true) => Mode::Normal,
                (true, false) => Mode::NoSuspend,
                (false, false) => Mode::NoIdle,
                (false, true) => Mode::Custom,
            }
        }
    }

    /// Whether a request makes sense on the bus and can be met. The manager
    /// loads a unit by its name alone, and starts or stops it by its name and a
    /// job mode. A property is read from a proxy for the object that has it.
    pub open spec fn serves(self, request: Request) -> bool {
        match request {
            Request::OpenProxy { .. } => true,
            Request::CallMethod { method, unit, job_mode } => {
                &&& self.at_manager()
                &&& self.objects.dom().contains(unit)
                &&& {
                    ||| method == "LoadUnit"@ && job_mode is None
                    ||| (method == "StartUnit"@ || method == "StopUnit"@) && job_mode == Some(
                        "replace"@,
                    )
                }
            },
            Request::GetProperty { property } => self.proxy matches Some((path, interface))
                && interface == "org.freedesktop.systemd1.Unit"@
                && self.properties.dom().contains((path, property)),
            Request::BorrowMode => true,
            Request::SendMode(_) => self.listening,
            Request::Return(_) => false,
        }
    }

    /// Whether a request that is met has this outcome. A unit that is started
    /// then runs, and a unit that is stopped does not.
    pub open spec fn meets(self, request: Request, event: Event, then_bus: Bus) -> bool {
        match request {
            Request::OpenProxy { path, interface } => event is Done && then_bus == (Bus {
                proxy: Some((path, interface)),
                ..self
            }),
            Request::CallMethod { method, unit, .. } => event matches Event::Path(path) && if method
                == "LoadUnit"@ {
                path@ == self.objects[unit] && then_bus == self
            } else {
                let state = then_bus.properties[self.key(unit)];
                &&& then_bus == (Bus {
                    properties: self.properties.insert(self.key(unit), state),
                    ..self
                })
                &&& running(state) == (method == "StartUnit"@)
            },
            Request::GetProperty { property } => event matches Event::Text(value)
                && self.proxy matches Some((path, _)) && value@ == self.properties[(path, property)]
                && then_bus == self,
            Request::BorrowMode => event == Event::Published(self.published) && then_bus == self,
            Request::SendMode(mode) => event is Done && then_bus == (Bus {
                published: mode,
                ..self
            }),
            Request::Return(_) => false,
        }
    }

    /// Whether a request can have this outcome. Any call to systemd may fail;
    /// publishing fails exactly if nobody listens.
    pub open spec fn answers(self, request: Request, event: Event, then_bus: Bus) -> bool {
        if event is Failed {
            &&& then_bus == self
            &&& match request {
                Request::BorrowMode => false,
                Request::SendMode(_) => !self.listening,
                Request::Return(_) => false,
                _ => true,
            }
        } else {
            self.serves(request) && self.meets(request, event, then_bus)
        }
    }
}

/// The operation, and what there is, after all the exchanges.
pub open spec fn played(start: (Operation, Bus), exchanges: Seq<Exchange>) -> (Operation, Bus)
    decreases exchanges.len(),
{
    if exchanges.len() == 0 {
        start
    } else {
        let (operation, _) = played(start, exchanges.drop_last());
        (operation.after(exchanges.last().event), exchanges.last().then_bus)
    }
}

/// Whether every exchange answers the request that the operation makes.
pub open spec fn plays(
    names: UnitNames,
    start: (Operation, Bus),
    exchanges: Seq<Exchange>,
) -> bool
    decreases exchanges.len(),
{
    exchanges.len() > 0 ==> {
        let (operation, bus) = played(start, exchanges.drop_last());
        &&& plays(names, start, exchanges.drop_last())
        &&& bus.answers(
            systemd::pending(names, operation.phase),
            exchanges.last().event,
            exchanges.last().then_bus,
        )
    }
}

/// Whether no request failed that could be met.
pub open spec fn faultless(
    names: UnitNames,
    start: (Operation, Bus),
    exchanges: Seq<Exchange>,
) -> bool
    decreases exchanges.len(),
{
    exchanges.len() > 0 ==> {
        let (operation, bus) = played(start, exchanges.drop_last());
        &&& faultless(names, start, exchanges.drop_last())
        &&& exchanges.last().event is Failed ==> !bus.serves(
            systemd::pending(names, operation.phase),
        )
    }
}

/// Whether a unit was found in the state that it is in.
spec fn found(state: UnitState, bus: Bus, unit: Seq<char>, perfect: bool) -> bool {
    match state {
        UnitState::Unavailable => perfect ==> !bus.readable(unit),
        UnitState::Active => bus.readable(unit) && bus.runs(unit),
        UnitState::Inactive => bus.readable(unit) && !bus.runs(unit),
    }
}

/// Whether the units were found in the mode that they are in. A fault makes
/// that `unavailable`, and nothing else.
pub open spec fn concluded(mode: Mode, bus: Bus, names: UnitNames, perfect: bool) -> bool {
    mode == bus.mode(names) || (!perfect && mode is Unavailable)
}

/// How far reading the units has come.
spec fn being_read(
    names: UnitNames,
    bus: Bus,
    phase: Phase,
    followup: Followup,
    perfect: bool,
) -> bool {
    match phase {
        Phase::Read { reading, step, followup: later } => {
            let unit = if reading is Lock {
                names.lock
            } else {
                names.suspend
            };
            &&& later == followup
            &&& reading matches Reading::Suspend { lock } ==> found(lock, bus, names.lock, perfect)
            &&& match step {
                ReadStep::Manager => true,
                ReadStep::Load => bus.at_manager(),
                ReadStep::Open { path } => bus.objects.dom().contains(unit) && path@
                    == bus.objects[unit],
                ReadStep::ActiveState => bus.objects.dom().contains(unit) && bus.proxy == Some(
                    (bus.objects[unit], "org.freedesktop.systemd1.Unit"@),
                ),
            }
        },
        Phase::Compare { mode, followup: later } => later == followup && concluded(
            mode,
            bus,
            names,
            perfect,
        ),
        Phase::Publish { mode, followup: later } => later == followup && concluded(
            mode,
            bus,
            names,
            perfect,
        ) && mode != bus.published,
        _ => false,
    }
}

/// No two of the manager's methods share a name.
pub proof fn methods_differ()
    ensures
        "LoadUnit"@ != "StartUnit"@,
        "LoadUnit"@ != "StopUnit"@,
        "StartUnit"@ != "StopUnit"@,
{
    reveal_strlit("LoadUnit");
    reveal_strlit("StartUnit");
    reveal_strlit("StopUnit");
    assert("LoadUnit"@[0] != "StartUnit"@[0]);
    assert("LoadUnit"@[0] != "StopUnit"@[0]);
    assert("StartUnit"@.len() != "StopUnit"@.len());
}

/// One exchange while units are being read.
proof fn follow_reading(
    names: UnitNames,
    operation: Operation,
    bus: Bus,
    followup: Followup,
    before: bool,
    exchange: Exchange,
    perfect: bool,
)
    requires
        being_read(names, bus, operation.phase, followup, before),
        bus.answers(
            systemd::pending(names, operation.phase),
            exchange.event,
            exchange.then_bus,
        ),
        perfect ==> before && (exchange.event is Failed ==> !bus.serves(
            systemd::pending(names, operation.phase),
        )),
    ensures
        ({
            let now = exchange.then_bus;
            let phase = operation.after(exchange.event).phase;
            &&& now.objects == bus.objects && now.properties == bus.properties
            &&& now.listening == bus.listening
            &&& if operation.phase is Read {
                being_read(names, now, phase, followup, perfect) && now.published == bus.published
            } else {
                ||| being_read(names, now, phase, followup, perfect) && now.published
                    == bus.published
                ||| exists|mode: Mode|
                    {
                        &&& #[trigger] concluded(mode, now, names, perfect)
                        &&& phase == systemd::after_refresh(mode, followup)
                        &&& now.published == (if bus.listening {
                            mode
                        } else {
                            bus.published
                        })
                    }
            }
        }),
{
    methods_differ();
    match operation.phase {
        Phase::Compare { mode, .. } => {
            assert(concluded(mode, exchange.then_bus, names, perfect));
        },
        Phase::Publish { mode, .. } => {
            assert(concluded(mode, exchange.then_bus, names, perfect));
        },
        _ => {},
    }
}

/// Where reading the mode stands after some exchanges.
proof fn follow_refresh(names: UnitNames, bus: Bus, exchanges: Seq<Exchange>)
    requires
        plays(
            names,
            (Operation { phase: systemd::reading_units(Followup::Return) }, bus),
            exchanges,
        ),
    ensures
        ({
            let start = (Operation { phase: systemd::reading_units(Followup::Return) }, bus);
            let (operation, now) = played(start, exchanges);
            let perfect = faultless(names, start, exchanges);
            &&& now.objects == bus.objects && now.properties == bus.properties
            &&& now.listening == bus.listening
            &&& match operation.phase {
                Phase::Finished { outcome } => outcome matches Ok(mode) && concluded(
                    mode,
                    now,
                    names,
                    perfect,
                ) && now.published == (if bus.listening {
                    mode
                } else {
                    bus.published
                }),
                phase => being_read(names, now, phase, Followup::Return, perfect) && now.published
                    == bus.published,
            }
        }),
    decreases exchanges.len(),
{
    if exchanges.len() > 0 {
        let start = (Operation { phase: systemd::reading_units(Followup::Return) }, bus);
        let (operation, between) = played(start, exchanges.drop_last());
        follow_refresh(names, bus, exchanges.drop_last());
        if !(operation.phase is Finished) {
            follow_reading(
                names,
                operation,
                between,
                Followup::Return,
                faultless(names, start, exchanges.drop_last()),
                exchanges.last(),
                faultless(names, start, exchanges),
            );
        }
    }
}

/// Reading the mode starts and stops nothing at any time. It never fails: it
/// reports the mode that the units are in by their `ActiveState`, or else, if a
/// call failed that could have been met, that the mode is unavailable. What it
/// reports, listeners are told.
pub proof fn refreshing_reports_what_runs(
    controller: SystemdController,
    operation: Operation,
    bus: Bus,
    exchanges: Seq<Exchange>,
)
    requires
        call_ensures(SystemdController::refresh_mode, (&controller,), operation),
        plays(controller@, (operation, bus), exchanges),
    ensures
        ({
            let (now_doing, now) = played((operation, bus), exchanges);
            &&& now.objects == bus.objects && now.properties == bus.properties
            &&& now.listening == bus.listening
            &&& systemd::pending(controller@, now_doing.phase) matches Request::Return(outcome)
                ==> outcome matches Ok(mode) && {
                &&& faultless(controller@, (operation, bus), exchanges) ==> mode == bus.mode(
                    controller@,
                )
                &&& mode == bus.mode(controller@) || mode is Unavailable
                &&& now.published == (if bus.listening {
                    mode
                } else {
                    bus.published
                })
            }
        }),
{
    follow_refresh(controller@, bus, exchanges);
}

/// Whether the lock unit runs in a mode that can be asked for.
pub open spec fn lock_runs_in(mode: Mode) -> bool {
    mode is Normal || mode is NoSuspend
}

/// Whether the suspend unit runs in a mode that can be asked for.
pub open spec fn suspend_runs_in(mode: Mode) -> bool {
    mode is Normal
}

/// Whether the units were brought to their states for a mode, and nothing else
/// was touched. One object cannot both run and not run.
pub open spec fn brought_to(bus: Bus, now: Bus, names: UnitNames, mode: Mode) -> bool {
    &&& now.objects == bus.objects
    &&& now.readable(names.lock) && now.readable(names.suspend)
    &&& now.key(names.lock) != now.key(names.suspend) ==> now.runs(names.lock) == lock_runs_in(mode)
    &&& now.runs(names.suspend) == suspend_runs_in(mode)
    &&& now.properties.remove(bus.key(names.lock)).remove(bus.key(names.suspend))
        == bus.properties.remove(bus.key(names.lock)).remove(bus.key(names.suspend))
}

/// Whether the lock unit alone was brought to its state for a mode.
pub open spec fn lock_brought_to(bus: Bus, now: Bus, names: UnitNames, mode: Mode) -> bool {
    &&& now.objects == bus.objects
    &&& now.readable(names.lock)
    &&& now.runs(names.lock) == lock_runs_in(mode)
    &&& now.properties.remove(bus.key(names.lock)) == bus.properties.remove(bus.key(names.lock))
}

/// How far applying a mode has come.
spec fn being_applied(
    names: UnitNames,
    bus: Bus,
    mode: Mode,
    phase: Phase,
    now: Bus,
    perfect: bool,
) -> bool {
    let untouched = now.objects == bus.objects && now.properties == bus.properties;
    &&& now.listening == bus.listening
    &&& match phase {
        Phase::Command { target, unit, opened } => {
            &&& target == mode
            &&& opened ==> now.at_manager()
            &&& match unit {
                ManagedUnit::Lock => untouched,
                ManagedUnit::Suspend => lock_brought_to(bus, now, names, mode),
            }
        },
        Phase::Finished { outcome: Ok(reported) } => {
            &&& brought_to(bus, now, names, mode)
            &&& concluded(reported, now, names, perfect)
            &&& bus.listening ==> now.published == reported
        },
        Phase::Finished { outcome: Err(_) } => {
            &&& untouched || lock_brought_to(bus, now, names, mode)
            &&& perfect ==> !bus.objects.dom().contains(names.lock)
                || !bus.objects.dom().contains(names.suspend)
        },
        _ => brought_to(bus, now, names, mode) && being_read(
            names,
            now,
            phase,
            Followup::Return,
            perfect,
        ),
    }
}

/// One exchange while a mode is being applied.
proof fn follow_applying(
    names: UnitNames,
    bus: Bus,
    mode: Mode,
    operation: Operation,
    between: Bus,
    before: bool,
    exchange: Exchange,
    perfect: bool,
)
    requires
        mode.primary(),
        being_applied(names, bus, mode, operation.phase, between, before),
        between.answers(
            systemd::pending(names, operation.phase),
            exchange.event,
            exchange.then_bus,
        ),
        perfect ==> before && (exchange.event is Failed ==> !between.serves(
            systemd::pending(names, operation.phase),
        )),
    ensures
        being_applied(
            names,
            bus,
            mode,
            operation.after(exchange.event).phase,
            exchange.then_bus,
            perfect,
        ),
        ({
            let phase = operation.after(exchange.event).phase;
            !(phase matches Phase::Finished { outcome: Ok(_) }) || !bus.listening
                ==> exchange.then_bus.published == between.published
        }),
{
    methods_differ();
    let now = exchange.then_bus;
    match operation.phase {
        Phase::Command { target, unit, opened } => {
            if opened && !(exchange.event is Failed) {
                let lock = bus.key(names.lock);
                let suspend = bus.key(names.suspend);
                match unit {
                    ManagedUnit::Lock => {
                        assert(now.properties.remove(lock) =~= bus.properties.remove(lock));
                    },
                    ManagedUnit::Suspend => {
                        assert(now.properties.remove(lock).remove(suspend)
                            =~= between.properties.remove(lock).remove(suspend));
                    },
                }
            }
        },
        Phase::Finished { .. } => {},
        _ => {
            follow_reading(names, operation, between, Followup::Return, before, exchange, perfect);
        },
    }
}

/// Where applying a mode stands after some exchanges.
proof fn follow_setting(names: UnitNames, bus: Bus, mode: Mode, exchanges: Seq<Exchange>)
    requires
        mode.primary(),
        plays(names, (Operation { phase: systemd::applying(mode) }, bus), exchanges),
    ensures
        ({
            let start = (Operation { phase: systemd::applying(mode) }, bus);
            let (operation, now) = played(start, exchanges);
            &&& being_applied(
                names,
                bus,
                mode,
                operation.phase,
                now,
                faultless(names, start, exchanges),
            )
            &&& !(operation.phase matches Phase::Finished { outcome: Ok(_) }) || !bus.listening
                ==> now.published == bus.published
        }),
    decreases exchanges.len(),
{
    if exchanges.len() > 0 {
        let start = (Operation { phase: systemd::applying(mode) }, bus);
        let (operation, between) = played(start, exchanges.drop_last());
        follow_setting(names, bus, mode, exchanges.drop_last());
        follow_applying(
            names,
            bus,
            mode,
            operation,
            between,
            faultless(names, start, exchanges.drop_last()),
            exchanges.last(),
            faultless(names, start, exchanges),
        );
    }
}

/// An operation that applies a mode succeeds unless a call fails that could have
/// been met. The lock unit then runs in `normal` and `no-suspend`, the suspend
/// unit runs in `normal`, nothing else has changed, and the mode is what is
/// reported and what listeners are told.
pub proof fn applying_a_mode_brings_it_about(
    names: UnitNames,
    mode: Mode,
    operation: Operation,
    bus: Bus,
    exchanges: Seq<Exchange>,
)
    requires
        mode is Normal || mode is NoSuspend || mode is NoIdle,
        operation.phase == systemd::applying(mode),
        bus.objects.dom().contains(names.lock),
        bus.objects.dom().contains(names.suspend),
        mode is NoSuspend ==> bus.objects[names.lock] != bus.objects[names.suspend],
        plays(names, (operation, bus), exchanges),
        faultless(names, (operation, bus), exchanges),
    ensures
        ({
            let (now_doing, now) = played((operation, bus), exchanges);
            systemd::pending(names, now_doing.phase) matches Request::Return(outcome) ==> {
                &&& outcome == Ok::<Mode, ControllerError>(mode)
                &&& now.runs(names.lock) == lock_runs_in(mode)
                &&& now.runs(names.suspend) == suspend_runs_in(mode)
                &&& now.mode(names) == mode
                &&& brought_to(bus, now, names, mode)
                &&& now.listening == bus.listening
                &&& now.published == (if bus.listening {
                    mode
                } else {
                    bus.published
                })
            }
        }),
{
    follow_setting(names, bus, mode, exchanges);
}

/// Setting a mode succeeds unless a call fails that could have been met. The
/// lock unit then runs in `normal` and `no-suspend`, the suspend unit runs in
/// `normal`, nothing else has changed, and the mode is what is reported and what
/// listeners are told.
pub proof fn setting_a_mode_brings_it_about(
    controller: SystemdController,
    mode: Mode,
    operation: Operation,
    bus: Bus,
    exchanges: Seq<Exchange>,
)
    requires
        call_ensures(
            SystemdController::set_mode,
            (&controller, mode),
            Ok::<Operation, ControllerError>(operation),
        ),
        bus.objects.dom().contains(controller@.lock),
        bus.objects.dom().contains(controller@.suspend),
        mode is NoSuspend ==> bus.objects[controller@.lock] != bus.objects[controller@.suspend],
        plays(controller@, (operation, bus), exchanges),
        faultless(controller@, (operation, bus), exchanges),
    ensures
        ({
            let (now_doing, now) = played((operation, bus), exchanges);
            systemd::pending(controller@, now_doing.phase) matches Request::Return(outcome) ==> {
                &&& outcome == Ok::<Mode, ControllerError>(mode)
                &&& now.runs(controller@.lock) == lock_runs_in(mode)
                &&& now.runs(controller@.suspend) == suspend_runs_in(mode)
                &&& now.mode(controller@) == mode
                &&& brought_to(bus, now, controller@, mode)
                &&& now.listening == bus.listening
                &&& now.published == (if bus.listening {
                    mode
                } else {
                    bus.published
                })
            }
        }),
{
    applying_a_mode_brings_it_about(controller@, mode, operation, bus, exchanges);
}

/// Whatever fails, setting a mode commands both units before it reports a mode,
/// and reports the mode that was set or that the mode is unavailable. If it ends
/// with an error instead, listeners were told nothing and the suspend unit was
/// not touched (unless both are one object).
pub proof fn setting_a_mode_is_all_or_an_error(
    controller: SystemdController,
    mode: Mode,
    operation: Operation,
    bus: Bus,
    exchanges: Seq<Exchange>,
)
    requires
        call_ensures(
            SystemdController::set_mode,
            (&controller, mode),
            Ok::<Operation, ControllerError>(operation),
        ),
        mode is NoSuspend ==> bus.objects[controller@.lock] != bus.objects[controller@.suspend],
        plays(controller@, (operation, bus), exchanges),
    ensures
        ({
            let (now_doing, now) = played((operation, bus), exchanges);
            systemd::pending(controller@, now_doing.phase) matches Request::Return(outcome)
                ==> match outcome {
                Ok(reported) => {
                    &&& reported == mode || reported is Unavailable
                    &&& brought_to(bus, now, controller@, mode)
                    &&& now.published == (if bus.listening {
                        reported
                    } else {
                        bus.published
                    })
                },
                Err(_) => {
                    &&& now.published == bus.published
                    &&& now.objects == bus.objects
                    &&& now.properties == bus.properties || lock_brought_to(
                        bus,
                        now,
                        controller@,
                        mode,
                    )
                },
            }
        }),
{
    follow_setting(controller@, bus, mode, exchanges);
}

/// Where cycling stands after some exchanges.
proof fn follow_cycling(names: UnitNames, bus: Bus, exchanges: Seq<Exchange>)
    requires
        plays(
            names,
            (Operation { phase: systemd::reading_units(Followup::Advance) }, bus),
            exchanges,
        ),
    ensures
        ({
            let start = (Operation { phase: systemd::reading_units(Followup::Advance) }, bus);
            let (operation, now) = played(start, exchanges);
            let perfect = faultless(names, start, exchanges);
            let next = next_in_cycle(bus.mode(names));
            ||| {
                &&& being_read(names, now, operation.phase, Followup::Advance, perfect)
                &&& now.objects == bus.objects && now.properties == bus.properties
                &&& now.listening == bus.listening && now.published == bus.published
            }
            ||| {
                &&& {
                    ||| being_applied(names, bus, next, operation.phase, now, perfect)
                    ||| !perfect && being_applied(
                        names,
                        bus,
                        Mode::Normal,
                        operation.phase,
                        now,
                        perfect,
                    )
                }
                &&& !bus.listening ==> now.published == bus.published
                &&& bus.listening && !(operation.phase matches Phase::Finished { outcome: Ok(_) })
                    ==> concluded(now.published, bus, names, perfect)
            }
        }),
    decreases exchanges.len(),
{
    if exchanges.len() > 0 {
        let start = (Operation { phase: systemd::reading_units(Followup::Advance) }, bus);
        let (operation, between) = played(start, exchanges.drop_last());
        let before = faultless(names, start, exchanges.drop_last());
        let perfect = faultless(names, start, exchanges);
        let next = next_in_cycle(bus.mode(names));
        follow_cycling(names, bus, exchanges.drop_last());
        if being_read(names, between, operation.phase, Followup::Advance, before) {
            follow_reading(
                names,
                operation,
                between,
                Followup::Advance,
                before,
                exchanges.last(),
                perfect,
            );
        } else if being_applied(names, bus, next, operation.phase, between, before) {
            follow_applying(
                names,
                bus,
                next,
                operation,
                between,
                before,
                exchanges.last(),
                perfect,
            );
        } else {
            follow_applying(
                names,
                bus,
                Mode::Normal,
                operation,
                between,
                before,
                exchanges.last(),
                perfect,
            );
        }
    }
}

/// Cycling leads from the mode that the units are in by their `ActiveState` to
/// the next of `normal -> no-suspend -> no-idle -> normal`, and from any other
/// mode to `normal`, unless a call fails that could have been met. The units are
/// then in that mode, nothing else has changed, and the mode is what is reported
/// and what listeners are told.
pub proof fn cycling_brings_about_the_next_mode(
    controller: SystemdController,
    operation: Operation,
    bus: Bus,
    exchanges: Seq<Exchange>,
)
    requires
        call_ensures(SystemdController::cycle_mode, (&controller,), operation),
        bus.objects.dom().contains(controller@.lock),
        bus.objects.dom().contains(controller@.suspend),
        bus.mode(controller@) is Normal ==> bus.objects[controller@.lock]
            != bus.objects[controller@.suspend],
        plays(controller@, (operation, bus), exchanges),
        faultless(controller@, (operation, bus), exchanges),
    ensures
        ({
            let (now_doing, now) = played((operation, bus), exchanges);
            let next = next_in_cycle(bus.mode(controller@));
            systemd::pending(controller@, now_doing.phase) matches Request::Return(outcome) ==> {
                &&& outcome == Ok::<Mode, ControllerError>(next)
                &&& now.runs(controller@.lock) == lock_runs_in(next)
                &&& now.runs(controller@.suspend) == suspend_runs_in(next)
                &&& now.mode(controller@) == next
                &&& brought_to(bus, now, controller@, next)
                &&& now.listening == bus.listening
                &&& now.published == (if bus.listening {
                    next
                } else {
                    bus.published
                })
            }
        }),
{
    follow_cycling(controller@, bus, exchanges);
}

/// Whatever fails, cycling leads to the next mode, or to `normal` if the mode
/// could not be read. If it ends with an error, the last that listeners were
/// told is the mode that was read.
pub proof fn cycling_is_all_or_an_error(
    controller: SystemdController,
    operation: Operation,
    bus: Bus,
    exchanges: Seq<Exchange>,
)
    requires
        call_ensures(SystemdController::cycle_mode, (&controller,), operation),
        bus.mode(controller@) is Normal ==> bus.objects[controller@.lock]
            != bus.objects[controller@.suspend],
        plays(controller@, (operation, bus), exchanges),
    ensures
        ({
            let (now_doing, now) = played((operation, bus), exchanges);
            let next = next_in_cycle(bus.mode(controller@));
            systemd::pending(controller@, now_doing.phase) matches Request::Return(outcome)
                ==> match outcome {
                Ok(reported) => {
                    &&& {
                        ||| (reported == next || reported is Unavailable) && brought_to(
                            bus,
                            now,
                            controller@,
                            next,
                        )
                        ||| (reported is Normal || reported is Unavailable) && brought_to(
                            bus,
                            now,
                            controller@,
                            Mode::Normal,
                        )
                    }
                    &&& now.published == (if bus.listening {
                        reported
                    } else {
                        bus.published
                    })
                },
                Err(_) => {
                    &&& now.objects == bus.objects
                    &&& now.properties.remove(bus.key(controller@.lock)) == bus.properties.remove(
                        bus.key(controller@.lock),
                    )
                    &&& if bus.listening {
                        now.published == bus.mode(controller@) || now.published is Unavailable
                    } else {
                        now.published == bus.published
                    }
                },
            }
        }),
{
    follow_cycling(controller@, bus, exchanges);
}

} // verus!
