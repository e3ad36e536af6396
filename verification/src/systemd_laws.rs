//! What holds of whole runs of an operation.

use crate::mode::Mode;
use crate::systemd;
use crate::systemd::{
    ControllerError, Event, Followup, ManagedUnit, Operation, Phase, ReadStep, Reading, Request,
    UnitNames, UnitState,
};
use vstd::prelude::*;

verus! {

/// The operation after all the events.
pub open spec fn run(operation: Operation, events: Seq<Event>) -> Operation
    decreases events.len(),
{
    if events.len() == 0 {
        operation
    } else {
        run(operation, events.drop_last()).after(events.last())
    }
}

/// Whether every event answers the action that is pending when it comes.
pub open spec fn all_answered(operation: Operation, events: Seq<Event>) -> bool
    decreases events.len(),
{
    events.len() > 0 ==> {
        &&& all_answered(operation, events.drop_last())
        &&& run(operation, events.drop_last()).answered_by(events.last())
    }
}

/// How many more actions an operation can take at most.
pub open spec fn actions_left(phase: Phase) -> nat {
    match phase {
        Phase::Finished { .. } => 0,
        Phase::Command { unit, opened, .. } => 11 + (if unit is Lock {
            2nat
        } else {
            0
        }) + (if opened {
            0nat
        } else {
            1
        }),
        Phase::Publish { followup, .. } => 1 + after_followup(followup),
        Phase::Compare { followup, .. } => 2 + after_followup(followup),
        Phase::Read { reading, step, followup } => 2 + after_followup(followup) + (match step {
            ReadStep::Manager => 4nat,
            ReadStep::Load => 3,
            ReadStep::Open { .. } => 2,
            ReadStep::ActiveState => 1,
        }) + (if reading is Lock {
            4nat
        } else {
            0
        }),
    }
}

/// How many actions can follow once the mode has been read and published.
pub open spec fn after_followup(followup: Followup) -> nat {
    match followup {
        Followup::Return => 0,
        Followup::Advance => 14,
    }
}

/// An operation applies primary modes only, whatever comes in.
pub proof fn runs_stay_well_formed(operation: Operation, events: Seq<Event>)
    requires
        operation.wf(),
    ensures
        run(operation, events).wf(),
    decreases events.len(),
{
    if events.len() > 0 {
        runs_stay_well_formed(operation, events.drop_last());
    }
}

/// Every operation ends: each answer lowers the number of actions that are
/// left, which is nothing exactly for a finished operation. Applying a mode
/// takes at most 14 actions, reading it at most 10, cycling at most 24.
pub proof fn operations_end(operation: Operation, events: Seq<Event>)
    requires
        all_answered(operation, events),
    ensures
        actions_left(run(operation, events).phase) + events.len() <= actions_left(
            operation.phase,
        ),
        run(operation, events).finished() <==> actions_left(run(operation, events).phase) == 0,
        forall|mode: Mode| #[trigger] actions_left(systemd::applying(mode)) == 14,
        actions_left(systemd::reading_units(Followup::Return)) == 10,
        actions_left(systemd::reading_units(Followup::Advance)) == 24,
    decreases events.len(),
{
    if events.len() > 0 {
        operations_end(operation, events.drop_last());
    }
}

/// A finished operation stays as it is.
pub proof fn finished_operations_stay(operation: Operation, events: Seq<Event>)
    requires
        operation.finished(),
    ensures
        run(operation, events) == operation,
    decreases events.len(),
{
    if events.len() > 0 {
        finished_operations_stay(operation, events.drop_last());
    }
}

/// An operation addresses the managed units and no other, so units outside its
/// control keep running.
pub proof fn only_managed_units_are_addressed(names: UnitNames, phase: Phase)
    ensures
        systemd::pending(names, phase) matches Request::CallMethod { unit, .. } ==> unit
            == names.lock || unit == names.suspend,
{
}

/// With the default names, the unit that locks before sleep is never addressed.
pub proof fn before_sleep_unit_is_left_alone(names: UnitNames, phase: Phase)
    requires
        names.lock == systemd::chosen_name(None, "guayusa-swayidle-lock.service"@),
        names.suspend == systemd::chosen_name(None, "guayusa-swayidle-suspend.service"@),
    ensures
        systemd::pending(names, phase) matches Request::CallMethod { unit, .. } ==> unit
            != "guayusa-swayidle-before-sleep.service"@,
{
    reveal_strlit("guayusa-swayidle-lock.service");
    reveal_strlit("guayusa-swayidle-suspend.service");
    reveal_strlit("guayusa-swayidle-before-sleep.service");
    assert("guayusa-swayidle-before-sleep.service"@.len() != names.lock.len());
    assert("guayusa-swayidle-before-sleep.service"@.len() != names.suspend.len());
}

/// The unit states of a primary mode amount to that mode, and to no other.
pub proof fn target_states_amount_to_the_mode(mode: Mode, lock: UnitState, suspend: UnitState)
    requires
        mode.primary(),
    ensures
        systemd::inferred(lock, suspend) == mode <==> {
            &&& lock == systemd::target_state(ManagedUnit::Lock, mode)
            &&& suspend == systemd::target_state(ManagedUnit::Suspend, mode)
        },
{
}

/// Reading the mode never fails, and neither starts nor stops anything,
/// whatever comes in.
pub proof fn reading_never_fails(events: Seq<Event>)
    ensures
        match run(Operation { phase: systemd::reading_units(Followup::Return) }, events).phase {
            Phase::Command { .. } => false,
            Phase::Read { followup, .. } => followup is Return,
            Phase::Compare { followup, .. } => followup is Return,
            Phase::Publish { followup, .. } => followup is Return,
            Phase::Finished { outcome } => outcome is Ok,
        },
    decreases events.len(),
{
    if events.len() > 0 {
        reading_never_fails(events.drop_last());
    }
}

/// The units that were successfully started (`true`) or stopped (`false`), in
/// order.
pub open spec fn commands(operation: Operation, events: Seq<Event>) -> Seq<(ManagedUnit, bool)>
    decreases events.len(),
{
    if events.len() == 0 {
        Seq::empty()
    } else {
        let before = commands(operation, events.drop_last());
        match run(operation, events.drop_last()).phase {
            Phase::Command { target, unit, opened } => if opened && events.last() is Path {
                before.push((unit, systemd::runs_in(unit, target)))
            } else {
                before
            },
            _ => before,
        }
    }
}

/// The commands that bring both units to their states for a mode.
pub open spec fn commands_for(mode: Mode) -> Seq<(ManagedUnit, bool)> {
    seq![
        (ManagedUnit::Lock, systemd::runs_in(ManagedUnit::Lock, mode)),
        (ManagedUnit::Suspend, systemd::runs_in(ManagedUnit::Suspend, mode)),
    ]
}

/// Applying a mode commands the lock unit first and the suspend unit second,
/// each once. It succeeds only after both, and a failure leaves out the command
/// that failed and whatever would have followed.
pub proof fn modes_are_applied_in_order(mode: Mode, events: Seq<Event>)
    ensures
        ({
            let operation = Operation { phase: systemd::applying(mode) };
            let done = commands(operation, events);
            match run(operation, events).phase {
                Phase::Command { target, unit, .. } => target == mode && done == (match unit {
                    ManagedUnit::Lock => commands_for(mode).take(0),
                    ManagedUnit::Suspend => commands_for(mode).take(1),
                }),
                Phase::Finished { outcome: Err(error) } => match error {
                    ControllerError::NotSettable(_) => false,
                    ControllerError::ManagerUnavailable => done == commands_for(mode).take(0)
                        || done == commands_for(mode).take(1),
                    ControllerError::StartFailed(unit) => systemd::runs_in(unit, mode) && done
                        == commands_for(mode).take(
                        if unit is Lock {
                            0
                        } else {
                            1
                        },
                    ),
                    ControllerError::StopFailed(unit) => !systemd::runs_in(unit, mode) && done
                        == commands_for(mode).take(
                        if unit is Lock {
                            0
                        } else {
                            1
                        },
                    ),
                },
                Phase::Finished { outcome: Ok(_) } => done == commands_for(mode),
                Phase::Read { followup, .. } => followup is Return && done == commands_for(mode),
                Phase::Compare { followup, .. } => followup is Return && done == commands_for(
                    mode,
                ),
                Phase::Publish { followup, .. } => followup is Return && done == commands_for(
                    mode,
                ),
            }
        }),
    decreases events.len(),
{
    if events.len() > 0 {
        modes_are_applied_in_order(mode, events.drop_last());
    }
}

/// What there is outside: the state of each unit, the mode that was published
/// last, and whether anybody listens for modes.
pub struct World {
    pub states: Map<Seq<char>, UnitState>,
    pub published: Mode,
    pub listening: bool,
}

impl World {
    /// The state of a unit.
    pub open spec fn state(self, name: Seq<char>) -> UnitState {
        if self.states.dom().contains(name) {
            self.states[name]
        } else {
            UnitState::Unavailable
        }
    }

    /// The mode that the managed units amount to.
    pub open spec fn mode(self, names: UnitNames) -> Mode {
        systemd::inferred(self.state(names.lock), self.state(names.suspend))
    }

    /// The world after a unit was brought to its state for a mode.
    pub open spec fn commanded(self, names: UnitNames, unit: ManagedUnit, mode: Mode) -> World {
        World {
            states: self.states.insert(names.of(unit), systemd::target_state(unit, mode)),
            ..self
        }
    }

    /// The world after both units were brought to their states for a mode.
    pub open spec fn applied(self, names: UnitNames, mode: Mode) -> World {
        self.commanded(names, ManagedUnit::Lock, mode).commanded(names, ManagedUnit::Suspend, mode)
    }

    /// The world after the mode was read and, to listeners, published.
    pub open spec fn refreshed(self, names: UnitNames) -> World {
        World {
            published: if self.listening {
                self.mode(names)
            } else {
                self.published
            },
            ..self
        }
    }

    /// Whether `event` tells the truth about this world. Commands may fail.
    /// Reading fails at some point for unavailable units, and only for those.
    pub open spec fn allows(self, names: UnitNames, operation: Operation, event: Event) -> bool {
        &&& operation.answered_by(event)
        &&& match operation.phase {
            Phase::Read { reading, .. } => {
                let state = self.state(names.of(systemd::unit_read(reading)));
                match event {
                    Event::Failed => state is Unavailable,
                    Event::Text(value) => state == systemd::classified(value@),
                    _ => true,
                }
            },
            Phase::Compare { .. } => event == Event::Published(self.published),
            Phase::Publish { .. } => event is Done <==> self.listening,
            _ => true,
        }
    }

    /// The world after the pending action of an operation had this outcome.
    pub open spec fn after(self, names: UnitNames, operation: Operation, event: Event) -> World {
        match operation.phase {
            Phase::Command { target, unit, .. } => if event is Path {
                self.commanded(names, unit, target)
            } else {
                self
            },
            Phase::Publish { mode, .. } => if event is Done {
                World { published: mode, ..self }
            } else {
                self
            },
            _ => self,
        }
    }

    /// The world after a whole run.
    pub open spec fn after_all(
        self,
        names: UnitNames,
        operation: Operation,
        events: Seq<Event>,
    ) -> World
        decreases events.len(),
    {
        if events.len() == 0 {
            self
        } else {
            self.after_all(names, operation, events.drop_last()).after(
                names,
                run(operation, events.drop_last()),
                events.last(),
            )
        }
    }

    /// Whether every event of a run tells the truth at its time.
    pub open spec fn allows_all(
        self,
        names: UnitNames,
        operation: Operation,
        events: Seq<Event>,
    ) -> bool
        decreases events.len(),
    {
        events.len() > 0 ==> {
            &&& self.allows_all(names, operation, events.drop_last())
            &&& self.after_all(names, operation, events.drop_last()).allows(
                names,
                run(operation, events.drop_last()),
                events.last(),
            )
        }
    }

    /// How far reading this world has come.
    spec fn being_read(self, names: UnitNames, phase: Phase, followup: Followup) -> bool {
        match phase {
            Phase::Read { reading, followup: then_do, .. } => then_do == followup && (
            reading matches Reading::Suspend { lock } ==> lock == self.state(names.lock)),
            Phase::Compare { mode, followup: then_do } => then_do == followup && mode == self.mode(
                names,
            ),
            Phase::Publish { mode, followup: then_do } => then_do == followup && mode == self.mode(
                names,
            ) && mode != self.published,
            _ => false,
        }
    }

    /// How far applying a mode to this world has come, in the world `now`.
    spec fn being_applied(self, names: UnitNames, mode: Mode, phase: Phase, now: World) -> bool {
        match phase {
            Phase::Command { target, unit, .. } => target == mode && now == (match unit {
                ManagedUnit::Lock => self,
                ManagedUnit::Suspend => self.commanded(names, ManagedUnit::Lock, mode),
            }),
            Phase::Finished { outcome: Ok(result) } => {
                &&& result == self.applied(names, mode).mode(names)
                &&& now == self.applied(names, mode).refreshed(names)
            },
            Phase::Finished { outcome: Err(_) } => {
                now == self || now == self.commanded(names, ManagedUnit::Lock, mode)
            },
            _ => now == self.applied(names, mode) && now.being_read(names, phase, Followup::Return),
        }
    }
}

/// Reading the mode reports what the managed units amount to, tells it to
/// listeners, and leaves every unit as it is.
pub proof fn refreshing_reports_the_mode(world: World, names: UnitNames, events: Seq<Event>)
    requires
        world.allows_all(
            names,
            Operation { phase: systemd::reading_units(Followup::Return) },
            events,
        ),
    ensures
        ({
            let operation = Operation { phase: systemd::reading_units(Followup::Return) };
            run(operation, events).phase matches Phase::Finished { outcome } ==> {
                &&& outcome == Ok::<Mode, ControllerError>(world.mode(names))
                &&& world.after_all(names, operation, events) == world.refreshed(names)
            }
        }),
{
    follow_refresh(world, names, events);
}

/// Where reading the mode stands after some events.
proof fn follow_refresh(world: World, names: UnitNames, events: Seq<Event>)
    requires
        world.allows_all(
            names,
            Operation { phase: systemd::reading_units(Followup::Return) },
            events,
        ),
    ensures
        ({
            let operation = Operation { phase: systemd::reading_units(Followup::Return) };
            let now = world.after_all(names, operation, events);
            match run(operation, events).phase {
                Phase::Finished { outcome } => outcome == Ok::<Mode, ControllerError>(
                    world.mode(names),
                ) && now == world.refreshed(names),
                phase => now == world && world.being_read(names, phase, Followup::Return),
            }
        }),
    decreases events.len(),
{
    if events.len() > 0 {
        follow_refresh(world, names, events.drop_last());
    }
}

/// A mode that is applied with success is the mode that is reported, the mode
/// that the units are in and the mode that listeners are told. With failure,
/// listeners are told nothing. (One unit cannot both run and not run, so
/// `no-suspend` needs two units.)
pub proof fn applying_reaches_the_mode(
    world: World,
    names: UnitNames,
    mode: Mode,
    events: Seq<Event>,
)
    requires
        mode.primary(),
        mode is NoSuspend ==> names.lock != names.suspend,
        world.allows_all(names, Operation { phase: systemd::applying(mode) }, events),
    ensures
        ({
            let operation = Operation { phase: systemd::applying(mode) };
            let now = world.after_all(names, operation, events);
            run(operation, events).phase matches Phase::Finished { outcome } ==> match outcome {
                Ok(reported) => {
                    &&& reported == mode
                    &&& now.mode(names) == mode
                    &&& now.published == (if world.listening {
                        mode
                    } else {
                        world.published
                    })
                    &&& now.states == world.applied(names, mode).states
                    &&& now.listening == world.listening
                },
                Err(_) => {
                    &&& now.listening == world.listening
                    &&& now.published == world.published
                    &&& now.states == world.states || now.states == world.commanded(
                        names,
                        ManagedUnit::Lock,
                        mode,
                    ).states
                },
            }
        }),
{
    follow_applying(world, names, mode, events);
}

/// Where applying a mode stands after some events.
proof fn follow_applying(world: World, names: UnitNames, mode: Mode, events: Seq<Event>)
    requires
        world.allows_all(names, Operation { phase: systemd::applying(mode) }, events),
    ensures
        ({
            let operation = Operation { phase: systemd::applying(mode) };
            world.being_applied(
                names,
                mode,
                run(operation, events).phase,
                world.after_all(names, operation, events),
            )
        }),
    decreases events.len(),
{
    if events.len() > 0 {
        follow_applying(world, names, mode, events.drop_last());
    }
}

/// Listeners are told of changes only: a mode that is about to be published
/// differs from the mode that was published last.
pub proof fn only_changes_are_published(
    world: World,
    names: UnitNames,
    operation: Operation,
    events: Seq<Event>,
)
    requires
        !(operation.phase is Publish),
        world.allows_all(names, operation, events),
    ensures
        run(operation, events).phase matches Phase::Publish { mode, .. } ==> mode
            != world.after_all(names, operation, events).published,
{
}

/// Cycling with success leads from the mode that the units were in to its
/// successor. With failure, the last that listeners were told is the mode that
/// the units were in.
pub proof fn cycling_reaches_the_successor(world: World, names: UnitNames, events: Seq<Event>)
    requires
        world.mode(names).successor() is NoSuspend ==> names.lock != names.suspend,
        world.allows_all(
            names,
            Operation { phase: systemd::reading_units(Followup::Advance) },
            events,
        ),
    ensures
        ({
            let operation = Operation { phase: systemd::reading_units(Followup::Advance) };
            let now = world.after_all(names, operation, events);
            let next = world.mode(names).successor();
            run(operation, events).phase matches Phase::Finished { outcome } ==> match outcome {
                Ok(reported) => {
                    &&& reported == next
                    &&& now.mode(names) == next
                    &&& now.published == (if world.listening {
                        next
                    } else {
                        world.published
                    })
                    &&& now.states == world.applied(names, next).states
                    &&& now.listening == world.listening
                },
                Err(_) => {
                    &&& now.listening == world.listening
                    &&& now.published == world.refreshed(names).published
                    &&& now.states == world.states || now.states == world.commanded(
                        names,
                        ManagedUnit::Lock,
                        next,
                    ).states
                },
            }
        }),
{
    follow_cycling(world, names, events);
}

/// Whether cycling in this world succeeds with these events.
pub open spec fn cycles_with(world: World, names: UnitNames, events: Seq<Event>) -> bool {
    let operation = Operation { phase: systemd::reading_units(Followup::Advance) };
    &&& world.allows_all(names, operation, events)
    &&& run(operation, events).phase matches Phase::Finished { outcome: Ok(_) }
}

/// The world after cycling with these events.
pub open spec fn cycled(world: World, names: UnitNames, events: Seq<Event>) -> World {
    world.after_all(
        names,
        Operation { phase: systemd::reading_units(Followup::Advance) },
        events,
    )
}

/// Cycling three times with success leads back to the primary mode that it
/// started from.
pub proof fn three_cycles_return(
    world: World,
    names: UnitNames,
    first: Seq<Event>,
    second: Seq<Event>,
    third: Seq<Event>,
)
    requires
        names.lock != names.suspend,
        world.mode(names).primary(),
        cycles_with(world, names, first),
        cycles_with(cycled(world, names, first), names, second),
        cycles_with(cycled(cycled(world, names, first), names, second), names, third),
    ensures
        cycled(cycled(cycled(world, names, first), names, second), names, third).mode(names)
            == world.mode(names),
{
    let after_one = cycled(world, names, first);
    let after_two = cycled(after_one, names, second);
    cycling_reaches_the_successor(world, names, first);
    cycling_reaches_the_successor(after_one, names, second);
    cycling_reaches_the_successor(after_two, names, third);
}

/// Where cycling stands after some events.
proof fn follow_cycling(world: World, names: UnitNames, events: Seq<Event>)
    requires
        world.allows_all(
            names,
            Operation { phase: systemd::reading_units(Followup::Advance) },
            events,
        ),
    ensures
        ({
            let operation = Operation { phase: systemd::reading_units(Followup::Advance) };
            let phase = run(operation, events).phase;
            let now = world.after_all(names, operation, events);
            ||| now == world && world.being_read(names, phase, Followup::Advance)
            ||| world.refreshed(names).being_applied(
                names,
                world.mode(names).successor(),
                phase,
                now,
            )
        }),
    decreases events.len(),
{
    if events.len() > 0 {
        follow_cycling(world, names, events.drop_last());
    }
}

} // verus!
