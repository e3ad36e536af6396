//! Control of the managed user units through systemd's bus interface.
//!
//! An [`Operation`] is one request to read or to change the mode. It names one
//! outside action at a time and advances with the outcome of that action.

use crate::mode::Mode;
use crate::text::{joined, same_text};
use vstd::prelude::*;

verus! {

/// Bus name of systemd.
pub const SYSTEMD_SERVICE: &'static str = "org.freedesktop.systemd1";

/// Object path of systemd's manager.
pub const SYSTEMD_MANAGER_PATH: &'static str = "/org/freedesktop/systemd1";

/// Interface of systemd's manager.
pub const SYSTEMD_MANAGER_INTERFACE: &'static str = "org.freedesktop.systemd1.Manager";

/// Interface of systemd's units.
pub const SYSTEMD_UNIT_INTERFACE: &'static str = "org.freedesktop.systemd1.Unit";

/// Unit that locks the session and turns displays off, unless overridden.
pub const DEFAULT_LOCK_UNIT: &'static str = "guayusa-swayidle-lock.service";

/// Unit that suspends the machine, unless overridden.
pub const DEFAULT_SUSPEND_UNIT: &'static str = "guayusa-swayidle-suspend.service";

/// What is known of one unit.
#[derive(Debug, Clone, Copy, PartialEq, Eq, Structural)]
pub enum UnitState {
    Active,
    Inactive,
    Unavailable,
}

/// The units that the service starts and stops.
#[derive(Debug, Clone, Copy, PartialEq, Eq, Structural)]
pub enum ManagedUnit {
    Lock,
    Suspend,
}

/// Whether systemd reports a running unit with this `ActiveState`.
pub open spec fn means_active(active_state: Seq<char>) -> bool {
    active_state == "active"@ || active_state == "activating"@ || active_state == "reloading"@
}

/// The state of a unit with this `ActiveState`.
pub open spec fn classified(active_state: Seq<char>) -> UnitState {
    if means_active(active_state) {
        UnitState::Active
    } else {
        UnitState::Inactive
    }
}

/// The mode that two unit states amount to.
pub open spec fn inferred(lock: UnitState, suspend: UnitState) -> Mode {
    if lock is Unavailable || suspend is Unavailable {
        Mode::Unavailable
    } else if lock is Active {
        if suspend is Active {
            Mode::Normal
        } else {
            Mode::NoSuspend
        }
    } else {
        if suspend is Active {
            Mode::Custom
        } else {
            Mode::NoIdle
        }
    }
}

/// Whether a unit runs in a primary mode: `normal` runs both, `no-suspend` the
/// lock unit alone, `no-idle` none.
pub open spec fn runs_in(unit: ManagedUnit, mode: Mode) -> bool {
    match unit {
        ManagedUnit::Lock => mode is Normal || mode is NoSuspend,
        ManagedUnit::Suspend => mode is Normal,
    }
}

/// The state that a unit is brought to for a primary mode.
pub open spec fn target_state(unit: ManagedUnit, mode: Mode) -> UnitState {
    if runs_in(unit, mode) {
        UnitState::Active
    } else {
        UnitState::Inactive
    }
}

/// The state of a unit with this `ActiveState`.
pub fn classify_active_state(active_state: &str) -> (state: UnitState)
    ensures
        state == classified(active_state@),
{
    if same_text(active_state, "active") || same_text(active_state, "activating") || same_text(
        active_state,
        "reloading",
    ) {
        UnitState::Active
    } else {
        UnitState::Inactive
    }
}

/// The mode that two unit states amount to.
pub fn infer_mode(lock: UnitState, suspend: UnitState) -> (mode: Mode)
    ensures
        mode == inferred(lock, suspend),
{
    match (lock, suspend) {
        (UnitState::Active, UnitState::Active) => Mode::Normal,
        (UnitState::Active, UnitState::Inactive) => Mode::NoSuspend,
        (UnitState::Inactive, UnitState::Inactive) => Mode::NoIdle,
        (UnitState::Inactive, UnitState::Active) => Mode::Custom,
        (UnitState::Unavailable, _) | (_, UnitState::Unavailable) => Mode::Unavailable,
    }
}

/// Why an operation failed.
#[derive(Debug, Clone, Copy, PartialEq, Eq, Structural)]
pub enum ControllerError {
    /// The mode is not one that can be asked for.
    NotSettable(Mode),
    /// The proxy of systemd's manager could not be made.
    ManagerUnavailable,
    /// systemd refused to start the unit.
    StartFailed(ManagedUnit),
    /// systemd refused to stop the unit.
    StopFailed(ManagedUnit),
}

/// What happens once the mode has been read and published.
#[derive(Debug, Clone, Copy, PartialEq, Eq, Structural)]
pub enum Followup {
    /// The operation ends with the mode.
    Return,
    /// The successor of the mode is applied.
    Advance,
}

/// Which unit is being read, with the state of the lock unit once that is known.
#[derive(Debug, Clone, Copy, PartialEq, Eq, Structural)]
pub enum Reading {
    Lock,
    Suspend { lock: UnitState },
}

/// The outside calls that read one unit, in order.
#[derive(Debug)]
pub enum ReadStep {
    /// Making the proxy of the manager.
    Manager,
    /// Asking the manager to load the unit.
    Load,
    /// Making the proxy of the unit's object, found at this path.
    Open { path: String },
    /// Reading the unit's `ActiveState`.
    ActiveState,
}

/// How far an operation has come.
#[derive(Debug)]
pub enum Phase {
    /// Bringing a unit to the state it has in the target mode; `opened` tells
    /// that the proxy of the manager is there.
    Command { target: Mode, unit: ManagedUnit, opened: bool },
    /// Reading the state of a unit.
    Read { reading: Reading, step: ReadStep, followup: Followup },
    /// Looking up which mode was published last.
    Compare { mode: Mode, followup: Followup },
    /// Publishing a mode that differs from the last.
    Publish { mode: Mode, followup: Followup },
    /// Nothing is left to do.
    Finished { outcome: Result<Mode, ControllerError> },
}

/// One request to read or to change the mode.
#[derive(Debug)]
pub struct Operation {
    pub phase: Phase,
}

/// Outcome of an outside action.
#[derive(Debug)]
pub enum Event {
    /// The action succeeded and gave nothing back.
    Done,
    /// The manager answered with this object path.
    Path(String),
    /// The property has this value.
    Text(String),
    /// The mode that was published last.
    Published(Mode),
    /// The action failed.
    Failed,
}

/// The kind of event that answers an action, apart from failure.
#[derive(Debug, Clone, Copy, PartialEq, Eq, Structural)]
pub enum Answer {
    Done,
    Path,
    Text,
    Published,
    Nothing,
}

/// The phase that starts reading both units.
pub open spec fn reading_units(followup: Followup) -> Phase {
    Phase::Read { reading: Reading::Lock, step: ReadStep::Manager, followup }
}

/// The phase that starts bringing both units to their states for `target`.
pub open spec fn applying(target: Mode) -> Phase {
    Phase::Command { target, unit: ManagedUnit::Lock, opened: false }
}

/// The phase after one unit was found in `state`.
pub open spec fn after_reading(reading: Reading, state: UnitState, followup: Followup) -> Phase {
    match reading {
        Reading::Lock => Phase::Read {
            reading: Reading::Suspend { lock: state },
            step: ReadStep::Manager,
            followup,
        },
        Reading::Suspend { lock } => Phase::Compare { mode: inferred(lock, state), followup },
    }
}

/// The phase after the mode was read, and published if it had changed.
pub open spec fn after_refresh(mode: Mode, followup: Followup) -> Phase {
    match followup {
        Followup::Return => Phase::Finished { outcome: Ok(mode) },
        Followup::Advance => applying(mode.successor()),
    }
}

/// The phase after a unit was brought to its state.
pub open spec fn after_command(target: Mode, unit: ManagedUnit) -> Phase {
    match unit {
        ManagedUnit::Lock => Phase::Command { target, unit: ManagedUnit::Suspend, opened: false },
        ManagedUnit::Suspend => reading_units(Followup::Return),
    }
}

/// Why bringing a unit to its state failed.
pub open spec fn command_error(target: Mode, unit: ManagedUnit, opened: bool) -> ControllerError {
    if !opened {
        ControllerError::ManagerUnavailable
    } else if runs_in(unit, target) {
        ControllerError::StartFailed(unit)
    } else {
        ControllerError::StopFailed(unit)
    }
}

impl Operation {
    /// Only primary modes are ever applied.
    pub open spec fn wf(self) -> bool {
        self.phase matches Phase::Command { target, .. } ==> target.primary()
    }

    /// Whether nothing is left to do.
    pub open spec fn finished(self) -> bool {
        self.phase is Finished
    }

    /// The kind of event that answers the pending action, apart from failure.
    pub open spec fn expected(self) -> Answer {
        match self.phase {
            Phase::Command { opened, .. } => if opened {
                Answer::Path
            } else {
                Answer::Done
            },
            Phase::Read { step, .. } => match step {
                ReadStep::Manager => Answer::Done,
                ReadStep::Load => Answer::Path,
                ReadStep::Open { .. } => Answer::Done,
                ReadStep::ActiveState => Answer::Text,
            },
            Phase::Compare { .. } => Answer::Published,
            Phase::Publish { .. } => Answer::Done,
            Phase::Finished { .. } => Answer::Nothing,
        }
    }

    /// Whether `event` is an outcome that the pending action can have.
    pub open spec fn answered_by(self, event: Event) -> bool {
        match event {
            Event::Done => self.expected() is Done,
            Event::Path(_) => self.expected() is Path,
            Event::Text(_) => self.expected() is Text,
            Event::Published(_) => self.expected() is Published,
            Event::Failed => !(self.expected() is Published || self.expected() is Nothing),
        }
    }

    /// The phase that an outcome of the pending action leads to. A command that
    /// fails ends the operation; a reading that fails leaves the unit
    /// unavailable; whether publishing succeeds makes no difference.
    pub open spec fn answered_phase(self, event: Event) -> Phase {
        match self.phase {
            Phase::Command { target, unit, opened } => if event is Failed {
                Phase::Finished { outcome: Err(command_error(target, unit, opened)) }
            } else if opened {
                after_command(target, unit)
            } else {
                Phase::Command { target, unit, opened: true }
            },
            Phase::Read { reading, step, followup } => match event {
                Event::Failed => after_reading(reading, UnitState::Unavailable, followup),
                Event::Text(value) => after_reading(reading, classified(value@), followup),
                Event::Path(path) => Phase::Read {
                    reading,
                    step: ReadStep::Open { path },
                    followup,
                },
                _ => Phase::Read {
                    reading,
                    step: if step is Manager {
                        ReadStep::Load
                    } else {
                        ReadStep::ActiveState
                    },
                    followup,
                },
            },
            Phase::Compare { mode, followup } => if event == Event::Published(mode) {
                after_refresh(mode, followup)
            } else {
                Phase::Publish { mode, followup }
            },
            Phase::Publish { mode, followup } => after_refresh(mode, followup),
            Phase::Finished { outcome } => Phase::Finished { outcome },
        }
    }

    /// The operation after `event`. An event that does not answer the pending
    /// action changes nothing.
    pub open spec fn after(self, event: Event) -> Operation {
        if self.answered_by(event) {
            Operation { phase: self.answered_phase(event) }
        } else {
            self
        }
    }

    /// The kind of event that answers the pending action, apart from failure.
    fn expects(&self) -> (answer: Answer)
        ensures
            answer == self.expected(),
    {
        match &self.phase {
            Phase::Command { opened, .. } => if *opened {
                Answer::Path
            } else {
                Answer::Done
            },
            Phase::Read { step, .. } => match step {
                ReadStep::Manager => Answer::Done,
                ReadStep::Load => Answer::Path,
                ReadStep::Open { .. } => Answer::Done,
                ReadStep::ActiveState => Answer::Text,
            },
            Phase::Compare { .. } => Answer::Published,
            Phase::Publish { .. } => Answer::Done,
            Phase::Finished { .. } => Answer::Nothing,
        }
    }

    /// Whether `event` is an outcome that the pending action can have.
    pub fn accepts(&self, event: &Event) -> (accepted: bool)
        ensures
            accepted == self.answered_by(*event),
    {
        let answer = self.expects();
        match event {
            Event::Done => matches!(answer, Answer::Done),
            Event::Path(_) => matches!(answer, Answer::Path),
            Event::Text(_) => matches!(answer, Answer::Text),
            Event::Published(_) => matches!(answer, Answer::Published),
            Event::Failed => !matches!(answer, Answer::Published | Answer::Nothing),
        }
    }

    /// Advances the operation by an outcome of its pending action.
    pub fn step(self, event: Event) -> (next: Operation)
        ensures
            next == self.after(event),
            self.wf() ==> next.wf(),
    {
        if !self.accepts(&event) {
            return self;
        }
        let phase = match self.phase {
            Phase::Command { target, unit, opened } => advance_command(
                target,
                unit,
                opened,
                matches!(event, Event::Failed),
            ),
            Phase::Read { reading, step, followup } => match event {
                Event::Failed => finish_reading(reading, UnitState::Unavailable, followup),
                Event::Text(value) => finish_reading(
                    reading,
                    classify_active_state(value.as_str()),
                    followup,
                ),
                Event::Path(path) => Phase::Read {
                    reading,
                    step: ReadStep::Open { path },
                    followup,
                },
                _ => Phase::Read {
                    reading,
                    step: if matches!(step, ReadStep::Manager) {
                        ReadStep::Load
                    } else {
                        ReadStep::ActiveState
                    },
                    followup,
                },
            },
            Phase::Compare { mode, followup } => match event {
                Event::Published(published) if published == mode => finish_refresh(mode, followup),
                _ => Phase::Publish { mode, followup },
            },
            Phase::Publish { mode, followup } => finish_refresh(mode, followup),
            Phase::Finished { outcome } => Phase::Finished { outcome },
        };
        Operation { phase }
    }
}

/// Whether a unit runs in a primary mode.
fn should_run(unit: ManagedUnit, mode: Mode) -> (run: bool)
    ensures
        run == runs_in(unit, mode),
{
    match unit {
        ManagedUnit::Lock => matches!(mode, Mode::Normal | Mode::NoSuspend),
        ManagedUnit::Suspend => matches!(mode, Mode::Normal),
    }
}

/// The phase after one call that brings a unit to its state.
fn advance_command(target: Mode, unit: ManagedUnit, opened: bool, failed: bool) -> (phase: Phase)
    ensures
        phase == if failed {
            Phase::Finished { outcome: Err(command_error(target, unit, opened)) }
        } else if opened {
            after_command(target, unit)
        } else {
            Phase::Command { target, unit, opened: true }
        },
{
    if failed {
        let error = if !opened {
            ControllerError::ManagerUnavailable
        } else if should_run(unit, target) {
            ControllerError::StartFailed(unit)
        } else {
            ControllerError::StopFailed(unit)
        };
        Phase::Finished { outcome: Err(error) }
    } else if !opened {
        Phase::Command { target, unit, opened: true }
    } else {
        match unit {
            ManagedUnit::Lock => Phase::Command {
                target,
                unit: ManagedUnit::Suspend,
                opened: false,
            },
            ManagedUnit::Suspend => Phase::Read {
                reading: Reading::Lock,
                step: ReadStep::Manager,
                followup: Followup::Return,
            },
        }
    }
}

/// The phase after one unit was found in `state`.
fn finish_reading(reading: Reading, state: UnitState, followup: Followup) -> (phase: Phase)
    ensures
        phase == after_reading(reading, state, followup),
{
    match reading {
        Reading::Lock => Phase::Read {
            reading: Reading::Suspend { lock: state },
            step: ReadStep::Manager,
            followup,
        },
        Reading::Suspend { lock } => Phase::Compare { mode: infer_mode(lock, state), followup },
    }
}

/// The phase after the mode was read, and published if it had changed.
fn finish_refresh(mode: Mode, followup: Followup) -> (phase: Phase)
    ensures
        phase == after_refresh(mode, followup),
{
    match followup {
        Followup::Return => Phase::Finished { outcome: Ok(mode) },
        Followup::Advance => Phase::Command {
            target: mode.next_cycle(),
            unit: ManagedUnit::Lock,
            opened: false,
        },
    }
}

/// The names of the managed units.
pub struct UnitNames {
    pub lock: Seq<char>,
    pub suspend: Seq<char>,
}

impl UnitNames {
    /// The name of one unit.
    pub open spec fn of(self, unit: ManagedUnit) -> Seq<char> {
        match unit {
            ManagedUnit::Lock => self.lock,
            ManagedUnit::Suspend => self.suspend,
        }
    }
}

/// The name that is used for a unit: the override if there is one.
pub open spec fn chosen_name(name_override: Option<String>, default_name: Seq<char>) -> Seq<char> {
    match name_override {
        Some(name) => name@,
        None => default_name,
    }
}

/// Something to do outside, on behalf of an operation. Calls and properties go
/// to the proxy that was made last.
#[derive(Debug)]
pub enum Action {
    /// Make a proxy for an object of [`SYSTEMD_SERVICE`].
    OpenProxy { path: String, interface: &'static str },
    /// Call a method with a unit's name and, where there is one, a job mode. It
    /// answers with an object path.
    CallMethod { method: &'static str, unit: String, job_mode: Option<&'static str> },
    /// Read a property that holds text.
    GetProperty { property: &'static str },
    /// Look up the mode that was published last.
    BorrowMode,
    /// Publish the mode.
    SendMode(Mode),
    /// Hand the outcome back to the caller.
    Return(Result<Mode, ControllerError>),
}

/// An [`Action`] with its texts as character sequences.
pub enum Request {
    OpenProxy { path: Seq<char>, interface: Seq<char> },
    CallMethod { method: Seq<char>, unit: Seq<char>, job_mode: Option<Seq<char>> },
    GetProperty { property: Seq<char> },
    BorrowMode,
    SendMode(Mode),
    Return(Result<Mode, ControllerError>),
}

impl View for Action {
    type V = Request;

    open spec fn view(&self) -> Request {
        match *self {
            Action::OpenProxy { path, interface } => Request::OpenProxy {
                path: path@,
                interface: interface@,
            },
            Action::CallMethod { method, unit, job_mode } => Request::CallMethod {
                method: method@,
                unit: unit@,
                job_mode: match job_mode {
                    Some(job_mode) => Some(job_mode@),
                    None => None,
                },
            },
            Action::GetProperty { property } => Request::GetProperty { property: property@ },
            Action::BorrowMode => Request::BorrowMode,
            Action::SendMode(mode) => Request::SendMode(mode),
            Action::Return(outcome) => Request::Return(outcome),
        }
    }
}

/// The unit whose state is being read.
pub open spec fn unit_read(reading: Reading) -> ManagedUnit {
    match reading {
        Reading::Lock => ManagedUnit::Lock,
        Reading::Suspend { .. } => ManagedUnit::Suspend,
    }
}

/// Making the proxy of the manager.
pub open spec fn open_manager() -> Request {
    Request::OpenProxy {
        path: "/org/freedesktop/systemd1"@,
        interface: "org.freedesktop.systemd1.Manager"@,
    }
}

/// What an operation in `phase` does next, for units with these names.
pub open spec fn pending(names: UnitNames, phase: Phase) -> Request {
    match phase {
        Phase::Command { target, unit, opened } => if !opened {
            open_manager()
        } else {
            Request::CallMethod {
                method: if runs_in(unit, target) {
                    "StartUnit"@
                } else {
                    "StopUnit"@
                },
                unit: names.of(unit),
                job_mode: Some("replace"@),
            }
        },
        Phase::Read { reading, step, .. } => match step {
            ReadStep::Manager => open_manager(),
            ReadStep::Load => Request::CallMethod {
                method: "LoadUnit"@,
                unit: names.of(unit_read(reading)),
                job_mode: None,
            },
            ReadStep::Open { path } => Request::OpenProxy {
                path: path@,
                interface: "org.freedesktop.systemd1.Unit"@,
            },
            ReadStep::ActiveState => Request::GetProperty { property: "ActiveState"@ },
        },
        Phase::Compare { .. } => Request::BorrowMode,
        Phase::Publish { mode, .. } => Request::SendMode(mode),
        Phase::Finished { outcome } => Request::Return(outcome),
    }
}

/// The message of an error, for units with these names.
pub open spec fn error_message(names: UnitNames, error: ControllerError) -> Seq<char> {
    match error {
        ControllerError::NotSettable(mode) => "mode "@ + mode.name() + " cannot be set directly"@,
        ControllerError::ManagerUnavailable => "failed to create systemd manager proxy"@,
        ControllerError::StartFailed(unit) => "failed to start "@ + names.of(unit),
        ControllerError::StopFailed(unit) => "failed to stop "@ + names.of(unit),
    }
}

/// What it means that the pending call of a reading fails, for units with these
/// names.
pub open spec fn reading_failure(names: UnitNames, reading: Reading, step: ReadStep) -> Seq<char> {
    let unit = names.of(unit_read(reading));
    "Unable to read state for "@ + unit + ": "@ + (match step {
        ReadStep::Manager => "failed to create systemd manager proxy"@,
        ReadStep::Load => "failed to load "@ + unit,
        ReadStep::Open { .. } => "failed to create proxy for "@ + unit,
        ReadStep::ActiveState => "failed to read ActiveState for "@ + unit,
    })
}

/// Reads and changes the mode by way of the managed units.
#[derive(Debug)]
pub struct SystemdController {
    lock_unit: String,
    suspend_unit: String,
}

impl View for SystemdController {
    type V = UnitNames;

    closed spec fn view(&self) -> UnitNames {
        UnitNames { lock: self.lock_unit@, suspend: self.suspend_unit@ }
    }
}

impl SystemdController {
    /// Manages the units of these names, or of the default names.
    pub fn new(lock_unit: Option<String>, suspend_unit: Option<String>) -> (controller: Self)
        ensures
            controller@.lock == chosen_name(lock_unit, "guayusa-swayidle-lock.service"@),
            controller@.suspend == chosen_name(suspend_unit, "guayusa-swayidle-suspend.service"@),
    {
        let lock_unit = match lock_unit {
            Some(name) => name,
            None => DEFAULT_LOCK_UNIT.to_owned(),
        };
        let suspend_unit = match suspend_unit {
            Some(name) => name,
            None => DEFAULT_SUSPEND_UNIT.to_owned(),
        };
        SystemdController { lock_unit, suspend_unit }
    }

    /// The name of a managed unit.
    pub fn unit_name(&self, unit: ManagedUnit) -> (name: &str)
        ensures
            name@ == self@.of(unit),
    {
        match unit {
            ManagedUnit::Lock => self.lock_unit.as_str(),
            ManagedUnit::Suspend => self.suspend_unit.as_str(),
        }
    }

    /// Starts to apply a mode and to read it back. Only primary modes can be
    /// asked for.
    pub fn set_mode(&self, mode: Mode) -> (started: Result<Operation, ControllerError>)
        ensures
            started == if mode.primary() {
                Ok(Operation { phase: applying(mode) })
            } else {
                Err(ControllerError::NotSettable(mode))
            },
            started matches Ok(operation) ==> operation.wf(),
    {
        if !mode.is_primary() {
            return Err(ControllerError::NotSettable(mode));
        }
        Ok(
            Operation {
                phase: Phase::Command { target: mode, unit: ManagedUnit::Lock, opened: false },
            },
        )
    }

    /// Starts to read the mode, to apply its successor and to read that back.
    pub fn cycle_mode(&self) -> (operation: Operation)
        ensures
            operation == (Operation { phase: reading_units(Followup::Advance) }),
            operation.wf(),
    {
        Operation {
            phase: Phase::Read {
                reading: Reading::Lock,
                step: ReadStep::Manager,
                followup: Followup::Advance,
            },
        }
    }

    /// Starts to read the mode.
    pub fn refresh_mode(&self) -> (operation: Operation)
        ensures
            operation == (Operation { phase: reading_units(Followup::Return) }),
            operation.wf(),
    {
        Operation {
            phase: Phase::Read {
                reading: Reading::Lock,
                step: ReadStep::Manager,
                followup: Followup::Return,
            },
        }
    }

    /// What the operation has to do next.
    pub fn action(&self, operation: &Operation) -> (action: Action)
        ensures
            action@ == pending(self@, operation.phase),
    {
        match &operation.phase {
            Phase::Command { target, unit, opened } => if !*opened {
                Action::OpenProxy {
                    path: SYSTEMD_MANAGER_PATH.to_owned(),
                    interface: SYSTEMD_MANAGER_INTERFACE,
                }
            } else {
                Action::CallMethod {
                    method: if should_run(*unit, *target) {
                        "StartUnit"
                    } else {
                        "StopUnit"
                    },
                    unit: self.unit_name(*unit).to_owned(),
                    job_mode: Some("replace"),
                }
            },
            Phase::Read { reading, step, .. } => match step {
                ReadStep::Manager => Action::OpenProxy {
                    path: SYSTEMD_MANAGER_PATH.to_owned(),
                    interface: SYSTEMD_MANAGER_INTERFACE,
                },
                ReadStep::Load => Action::CallMethod {
                    method: "LoadUnit",
                    unit: match reading {
                        Reading::Lock => self.lock_unit.clone(),
                        Reading::Suspend { .. } => self.suspend_unit.clone(),
                    },
                    job_mode: None,
                },
                ReadStep::Open { path } => Action::OpenProxy {
                    path: path.clone(),
                    interface: SYSTEMD_UNIT_INTERFACE,
                },
                ReadStep::ActiveState => Action::GetProperty { property: "ActiveState" },
            },
            Phase::Compare { .. } => Action::BorrowMode,
            Phase::Publish { mode, .. } => Action::SendMode(*mode),
            Phase::Finished { outcome } => Action::Return(*outcome),
        }
    }

    /// What it means that the pending action of an operation fails, if that
    /// leaves a unit unavailable.
    pub fn warning(&self, operation: &Operation) -> (message: Option<String>)
        ensures
            match operation.phase {
                Phase::Read { reading, step, .. } => message matches Some(text) && text@
                    == reading_failure(self@, reading, step),
                _ => message is None,
            },
    {
        match &operation.phase {
            Phase::Read { reading, step, .. } => {
                let unit = match reading {
                    Reading::Lock => self.unit_name(ManagedUnit::Lock),
                    Reading::Suspend { .. } => self.unit_name(ManagedUnit::Suspend),
                };
                let cause = match step {
                    ReadStep::Manager => "failed to create systemd manager proxy".to_owned(),
                    ReadStep::Load => joined("failed to load ", unit),
                    ReadStep::Open { .. } => joined("failed to create proxy for ", unit),
                    ReadStep::ActiveState => joined("failed to read ActiveState for ", unit),
                };
                let head = joined("Unable to read state for ", unit);
                let head = joined(head.as_str(), ": ");
                Some(joined(head.as_str(), cause.as_str()))
            },
            _ => None,
        }
    }

    /// The message of an error.
    pub fn error_text(&self, error: ControllerError) -> (message: String)
        ensures
            message@ == error_message(self@, error),
    {
        match error {
            ControllerError::NotSettable(mode) => {
                let head = joined("mode ", mode.as_str());
                joined(head.as_str(), " cannot be set directly")
            },
            ControllerError::ManagerUnavailable => "failed to create systemd manager proxy".to_owned(),
            ControllerError::StartFailed(unit) => joined("failed to start ", self.unit_name(unit)),
            ControllerError::StopFailed(unit) => joined("failed to stop ", self.unit_name(unit)),
        }
    }
}

} // verus!
