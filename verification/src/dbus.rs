//! The service's own interface on the message bus.

use crate::mode;
use crate::mode::Mode;
use crate::systemd;
use crate::systemd::{ControllerError, Followup, Operation, SystemdController, UnitNames};
use crate::text::joined;
use vstd::prelude::*;

verus! {

/// Object path of the interface.
pub const DBUS_OBJECT_PATH: &'static str = "/";

/// Bus name of the service.
pub const DBUS_SERVICE_NAME: &'static str = "org.guayusa.IdleInhibitor";

/// Seconds that the service may take to appear on the bus.
pub const DBUS_SETUP_SECONDS: u64 = 5;

/// Seconds between two looks at the managed units.
pub const POLL_SECONDS: u64 = 10;

/// An error that is reported to a caller.
#[derive(Debug)]
pub enum ServiceError {
    /// The call could not be carried out.
    Failed(String),
    /// The arguments of the call make no sense.
    InvalidArgs(String),
}

/// Why a mode name is refused.
pub open spec fn invalid_mode_message(name: Seq<char>) -> Seq<char> {
    "invalid mode "@ + name + "; expected normal, no-suspend, or no-idle"@
}

/// Whether `reply` passes an outcome on: a mode as it is, an error as a failure
/// with the message of the error.
pub open spec fn passes_on(
    names: UnitNames,
    outcome: Result<Mode, ControllerError>,
    reply: Result<Mode, ServiceError>,
) -> bool {
    match outcome {
        Ok(mode) => reply == Ok::<Mode, ServiceError>(mode),
        Err(error) => reply matches Err(ServiceError::Failed(message)) && message@
            == systemd::error_message(names, error),
    }
}

/// The mode that stands for inhibiting or not inhibiting.
pub open spec fn inhibit_mode(enable: bool) -> Mode {
    if enable {
        Mode::NoIdle
    } else {
        Mode::Normal
    }
}

/// The mode that toggling leads to.
pub open spec fn toggled(current: Mode) -> Mode {
    inhibit_mode(current is Normal)
}

/// The methods and properties of the interface. A method gives the operation
/// that carries it out; the outcome of that operation is turned into a reply.
#[derive(Debug)]
pub struct IdleInhibitorInterface {
    controller: SystemdController,
}

impl View for IdleInhibitorInterface {
    type V = UnitNames;

    closed spec fn view(&self) -> UnitNames {
        self.controller@
    }
}

impl IdleInhibitorInterface {
    /// An interface to the units of a controller.
    pub fn new(controller: SystemdController) -> (interface: Self)
        ensures
            interface@ == controller@,
    {
        IdleInhibitorInterface { controller }
    }

    /// The controller that carries operations out.
    pub fn controller(&self) -> (controller: &SystemdController)
        ensures
            controller@ == self@,
    {
        &self.controller
    }

    /// Starts to apply a mode.
    pub fn set_controller_mode(&self, mode: Mode) -> (started: Result<Operation, ServiceError>)
        ensures
            match started {
                Ok(operation) => {
                    &&& mode.primary()
                    &&& operation == (Operation { phase: systemd::applying(mode) })
                    &&& operation.wf()
                },
                Err(error) => {
                    &&& !mode.primary()
                    &&& error matches ServiceError::Failed(message) && message@
                        == systemd::error_message(self@, ControllerError::NotSettable(mode))
                },
            },
    {
        match self.controller.set_mode(mode) {
            Ok(operation) => Ok(operation),
            Err(error) => Err(ServiceError::Failed(self.controller.error_text(error))),
        }
    }

    /// `Enable()`: holds everything off.
    pub fn enable(&self) -> (started: Result<Operation, ServiceError>)
        ensures
            started == Ok::<Operation, ServiceError>(
                Operation { phase: systemd::applying(Mode::NoIdle) },
            ),
    {
        self.set_controller_mode(Mode::NoIdle)
    }

    /// `Disable()`: holds nothing off.
    pub fn disable(&self) -> (started: Result<Operation, ServiceError>)
        ensures
            started == Ok::<Operation, ServiceError>(
                Operation { phase: systemd::applying(Mode::Normal) },
            ),
    {
        self.set_controller_mode(Mode::Normal)
    }

    /// `SetInhibit(bool)`: holds everything off, or nothing.
    pub fn set_inhibit(&self, enable: bool) -> (started: Result<Operation, ServiceError>)
        ensures
            started == Ok::<Operation, ServiceError>(
                Operation { phase: systemd::applying(inhibit_mode(enable)) },
            ),
    {
        let mode = if enable {
            Mode::NoIdle
        } else {
            Mode::Normal
        };
        self.set_controller_mode(mode)
    }

    /// `SetMode(string)`: applies the primary mode of that name.
    pub fn set_mode(&self, name: &str) -> (started: Result<Operation, ServiceError>)
        ensures
            match mode::primary_named(name@) {
                Some(mode) => started == Ok::<Operation, ServiceError>(
                    Operation { phase: systemd::applying(mode) },
                ),
                None => started matches Err(ServiceError::InvalidArgs(message)) && message@
                    == invalid_mode_message(name@),
            },
            started matches Ok(operation) ==> operation.wf(),
    {
        match Mode::parse_primary(name) {
            Some(mode) => self.set_controller_mode(mode),
            None => {
                let head = joined("invalid mode ", name);
                Err(
                    ServiceError::InvalidArgs(
                        joined(head.as_str(), "; expected normal, no-suspend, or no-idle"),
                    ),
                )
            },
        }
    }

    /// `Toggle()`: leaves `normal` for `no-idle`, and any other mode for
    /// `normal`.
    pub fn toggle(&self, current: Mode) -> (started: Result<Operation, ServiceError>)
        ensures
            started == Ok::<Operation, ServiceError>(
                Operation { phase: systemd::applying(toggled(current)) },
            ),
    {
        let next = if current == Mode::Normal {
            Mode::NoIdle
        } else {
            Mode::Normal
        };
        self.set_controller_mode(next)
    }

    /// `CycleMode()`: leads to the next primary mode.
    pub fn cycle_mode(&self) -> (operation: Operation)
        ensures
            operation == (Operation { phase: systemd::reading_units(Followup::Advance) }),
    {
        self.controller.cycle_mode()
    }

    /// The outcome of an operation, for the caller.
    pub fn reply(&self, outcome: Result<Mode, ControllerError>) -> (reply: Result<
        Mode,
        ServiceError,
    >)
        ensures
            passes_on(self@, outcome, reply),
    {
        match outcome {
            Ok(mode) => Ok(mode),
            Err(error) => Err(ServiceError::Failed(self.controller.error_text(error))),
        }
    }

    /// The reply of methods that give nothing back.
    pub fn reply_nothing(&self, outcome: Result<Mode, ControllerError>) -> (reply: Result<
        (),
        ServiceError,
    >)
        ensures
            match outcome {
                Ok(_) => reply is Ok,
                Err(error) => reply matches Err(ServiceError::Failed(message)) && message@
                    == systemd::error_message(self@, error),
            },
    {
        match self.reply(outcome) {
            Ok(_) => Ok(()),
            Err(error) => Err(error),
        }
    }

    /// The reply of `Toggle()`: whether some idle policy is now held off.
    pub fn reply_status(&self, outcome: Result<Mode, ControllerError>) -> (reply: Result<
        bool,
        ServiceError,
    >)
        ensures
            match outcome {
                Ok(mode) => reply == Ok::<bool, ServiceError>(mode.inhibits()),
                Err(error) => reply matches Err(ServiceError::Failed(message)) && message@
                    == systemd::error_message(self@, error),
            },
    {
        match self.reply(outcome) {
            Ok(mode) => Ok(mode.is_inhibited()),
            Err(error) => Err(error),
        }
    }

    /// The reply of `CycleMode()`: the name of the mode that was reached.
    pub fn reply_name(&self, outcome: Result<Mode, ControllerError>) -> (reply: Result<
        String,
        ServiceError,
    >)
        ensures
            match outcome {
                Ok(mode) => reply matches Ok(name) && name@ == mode.name(),
                Err(error) => reply matches Err(ServiceError::Failed(message)) && message@
                    == systemd::error_message(self@, error),
            },
    {
        match self.reply(outcome) {
            Ok(mode) => Ok(mode.as_str().to_owned()),
            Err(error) => Err(error),
        }
    }

    /// The property `Status`, in the mode that was published last.
    pub fn status(&self, current: Mode) -> (status: bool)
        ensures
            status == current.inhibits(),
    {
        current.is_inhibited()
    }

    /// The property `Mode`, in the mode that was published last.
    pub fn mode(&self, current: Mode) -> (name: String)
        ensures
            name@ == current.name(),
    {
        current.as_str().to_owned()
    }
}

/// Why the service did not appear on the bus.
#[derive(Debug)]
pub enum DbusSetupError {
    /// The bus refused, with this message.
    Bus(String),
    /// It took too long.
    TimedOut,
}

/// What the service is about to do to appear on the bus.
#[derive(Debug)]
pub enum DbusSetup {
    /// Serving the interface at [`DBUS_OBJECT_PATH`].
    ServingObject,
    /// Requesting the name [`DBUS_SERVICE_NAME`].
    RequestingName,
    /// The service is on the bus.
    Ready,
    /// The service is not on the bus.
    Failed(DbusSetupError),
}

/// Outcome of an action towards the bus.
#[derive(Debug)]
pub enum DbusSetupEvent {
    Done,
    /// The bus refused, with this message.
    Refused(String),
    /// The time is up.
    TimedOut,
}

/// Something to do outside, on behalf of the set-up.
#[derive(Debug)]
pub enum DbusAction {
    /// Serve the interface at this object path.
    ServeObject { path: &'static str },
    /// Request this name on the bus.
    RequestName { name: &'static str },
    /// Go on: the service is on the bus.
    Finish,
    /// Give up, with this message.
    Fail { message: String },
}

/// A [`DbusAction`] with its texts as character sequences.
pub enum DbusRequest {
    ServeObject { path: Seq<char> },
    RequestName { name: Seq<char> },
    Finish,
    Fail { message: Seq<char> },
}

impl View for DbusAction {
    type V = DbusRequest;

    open spec fn view(&self) -> DbusRequest {
        match *self {
            DbusAction::ServeObject { path } => DbusRequest::ServeObject { path: path@ },
            DbusAction::RequestName { name } => DbusRequest::RequestName { name: name@ },
            DbusAction::Finish => DbusRequest::Finish,
            DbusAction::Fail { message } => DbusRequest::Fail { message: message@ },
        }
    }
}

/// The message of a failed set-up.
pub open spec fn dbus_setup_message(error: DbusSetupError) -> Seq<char> {
    match error {
        DbusSetupError::Bus(message) => message@,
        DbusSetupError::TimedOut => "D-Bus setup timed out"@,
    }
}

impl DbusSetupError {
    /// The message of the error.
    pub fn message(&self) -> (text: String)
        ensures
            text@ == dbus_setup_message(*self),
    {
        match self {
            DbusSetupError::Bus(message) => message.clone(),
            DbusSetupError::TimedOut => "D-Bus setup timed out".to_owned(),
        }
    }
}

/// The set-up, before its first action.
pub fn setup_dbus_service() -> (setup: DbusSetup)
    ensures
        setup == DbusSetup::ServingObject,
{
    DbusSetup::ServingObject
}

impl DbusSetup {
    /// Whether nothing is left to do.
    pub open spec fn settled(self) -> bool {
        self is Ready || self is Failed
    }

    /// The set-up after an action: the object is served before the name is
    /// requested, and the first thing to go wrong ends it.
    pub open spec fn after(self, event: DbusSetupEvent) -> DbusSetup {
        if self.settled() {
            self
        } else {
            match event {
                DbusSetupEvent::Done => if self is ServingObject {
                    DbusSetup::RequestingName
                } else {
                    DbusSetup::Ready
                },
                DbusSetupEvent::Refused(message) => DbusSetup::Failed(DbusSetupError::Bus(message)),
                DbusSetupEvent::TimedOut => DbusSetup::Failed(DbusSetupError::TimedOut),
            }
        }
    }

    /// What the set-up does next.
    pub open spec fn pending(self) -> DbusRequest {
        match self {
            DbusSetup::ServingObject => DbusRequest::ServeObject { path: "/"@ },
            DbusSetup::RequestingName => DbusRequest::RequestName {
                name: "org.guayusa.IdleInhibitor"@,
            },
            DbusSetup::Ready => DbusRequest::Finish,
            DbusSetup::Failed(error) => DbusRequest::Fail { message: dbus_setup_message(error) },
        }
    }

    /// What the set-up has to do next.
    pub fn action(&self) -> (action: DbusAction)
        ensures
            action@ == self.pending(),
    {
        match self {
            DbusSetup::ServingObject => DbusAction::ServeObject { path: DBUS_OBJECT_PATH },
            DbusSetup::RequestingName => DbusAction::RequestName { name: DBUS_SERVICE_NAME },
            DbusSetup::Ready => DbusAction::Finish,
            DbusSetup::Failed(error) => DbusAction::Fail { message: error.message() },
        }
    }

    /// Advances the set-up by the outcome of its pending action.
    pub fn step(self, event: DbusSetupEvent) -> (next: DbusSetup)
        ensures
            next == self.after(event),
    {
        match self {
            DbusSetup::Ready => self,
            DbusSetup::Failed(_) => self,
            DbusSetup::ServingObject => match event {
                DbusSetupEvent::Done => DbusSetup::RequestingName,
                DbusSetupEvent::Refused(message) => DbusSetup::Failed(DbusSetupError::Bus(message)),
                DbusSetupEvent::TimedOut => DbusSetup::Failed(DbusSetupError::TimedOut),
            },
            DbusSetup::RequestingName => match event {
                DbusSetupEvent::Done => DbusSetup::Ready,
                DbusSetupEvent::Refused(message) => DbusSetup::Failed(DbusSetupError::Bus(message)),
                DbusSetupEvent::TimedOut => DbusSetup::Failed(DbusSetupError::TimedOut),
            },
        }
    }
}

/// What the poll task is woken by.
#[derive(Debug, Clone, Copy, PartialEq, Eq, Structural)]
pub enum PollEvent {
    /// The interval has passed.
    Tick,
    /// The service shuts down.
    Shutdown,
}

/// What a task does when it is woken.
#[derive(Debug, Clone, Copy, PartialEq, Eq, Structural)]
pub enum PollAction {
    /// Read the mode, and go on whatever comes of it.
    Refresh,
    /// Stop.
    Stop,
}

/// The poll task reads the mode at every tick until the service shuts down.
pub fn state_poll_task(event: PollEvent) -> (action: PollAction)
    ensures
        action == if event is Tick {
            PollAction::Refresh
        } else {
            PollAction::Stop
        },
{
    match event {
        PollEvent::Tick => PollAction::Refresh,
        PollEvent::Shutdown => PollAction::Stop,
    }
}

/// What the status monitor is woken by.
#[derive(Debug, Clone, Copy, PartialEq, Eq, Structural)]
pub enum MonitorEvent {
    /// Another mode was published.
    Changed(Mode),
    /// No mode will be published any more.
    Closed,
    /// Signals cannot be sent.
    NoEmitter,
    /// The service shuts down.
    Shutdown,
}

/// What the status monitor does when it is woken.
#[derive(Debug, Clone, Copy)]
pub enum MonitorAction {
    /// Send `ModeChanged` with this name and then, where there is one,
    /// `StatusChanged` with this status.
    Emit { mode_changed: &'static str, status_changed: Option<bool> },
    /// Stop.
    Stop,
}

/// A [`MonitorAction`] with its name as a character sequence.
pub enum Emission {
    Emit { mode_changed: Seq<char>, status_changed: Option<bool> },
    Stop,
}

impl View for MonitorAction {
    type V = Emission;

    open spec fn view(&self) -> Emission {
        match *self {
            MonitorAction::Emit { mode_changed, status_changed } => Emission::Emit {
                mode_changed: mode_changed@,
                status_changed,
            },
            MonitorAction::Stop => Emission::Stop,
        }
    }
}

/// A signal of the interface.
#[derive(Debug, Clone, Copy)]
pub enum Signal {
    /// `ModeChanged` with the name of the mode.
    ModeChanged(&'static str),
    /// `StatusChanged` with the status.
    StatusChanged(bool),
}

/// A [`Signal`] with its name as a character sequence.
pub enum SignalModel {
    ModeChanged(Seq<char>),
    StatusChanged(bool),
}

impl View for Signal {
    type V = SignalModel;

    open spec fn view(&self) -> SignalModel {
        match *self {
            Signal::ModeChanged(name) => SignalModel::ModeChanged(name@),
            Signal::StatusChanged(status) => SignalModel::StatusChanged(status),
        }
    }
}

impl Emission {
    /// The signals to send, in order: the mode first, then the status if there
    /// is one to send.
    pub open spec fn signals(self) -> Seq<SignalModel> {
        match self {
            Emission::Emit { mode_changed, status_changed } => match status_changed {
                Some(status) => seq![
                    SignalModel::ModeChanged(mode_changed),
                    SignalModel::StatusChanged(status),
                ],
                None => seq![SignalModel::ModeChanged(mode_changed)],
            },
            Emission::Stop => Seq::empty(),
        }
    }
}

impl MonitorAction {
    /// The signals to send, in order. Each is sent whether or not the one before
    /// it could be sent.
    pub fn signals(&self) -> (signals: Vec<Signal>)
        ensures
            signals@.map_values(|signal: Signal| signal@) == self@.signals(),
    {
        let mut signals: Vec<Signal> = Vec::new();
        if let MonitorAction::Emit { mode_changed, status_changed } = *self {
            signals.push(Signal::ModeChanged(mode_changed));
            if let Some(status) = status_changed {
                signals.push(Signal::StatusChanged(status));
            }
        }
        assert(signals@.map_values(|signal: Signal| signal@) =~= self@.signals());
        signals
    }
}

/// Turns published modes into signals.
#[derive(Debug, Clone, Copy, PartialEq, Eq, Structural)]
pub struct StatusMonitor {
    pub last_status: bool,
}

/// The monitor, in the mode that was published last.
pub fn status_monitor_task(current: Mode) -> (monitor: StatusMonitor)
    ensures
        monitor.last_status == current.inhibits(),
{
    StatusMonitor { last_status: current.is_inhibited() }
}

impl StatusMonitor {
    /// The monitor after it was woken.
    pub open spec fn after(self, event: MonitorEvent) -> StatusMonitor {
        match event {
            MonitorEvent::Changed(mode) => StatusMonitor { last_status: mode.inhibits() },
            _ => self,
        }
    }

    /// What the monitor does when it is woken. The status is sent only if it
    /// differs from the last.
    pub open spec fn emission(self, event: MonitorEvent) -> Emission {
        match event {
            MonitorEvent::Changed(mode) => Emission::Emit {
                mode_changed: mode.name(),
                status_changed: if mode.inhibits() != self.last_status {
                    Some(mode.inhibits())
                } else {
                    None
                },
            },
            _ => Emission::Stop,
        }
    }

    /// Wakes the monitor.
    pub fn step(&mut self, event: MonitorEvent) -> (action: MonitorAction)
        ensures
            action@ == old(self).emission(event),
            *final(self) == old(self).after(event),
    {
        match event {
            MonitorEvent::Changed(mode) => {
                let status = mode.is_inhibited();
                let status_changed = if status != self.last_status {
                    self.last_status = status;
                    Some(status)
                } else {
                    None
                };
                MonitorAction::Emit { mode_changed: mode.as_str(), status_changed }
            },
            MonitorEvent::Closed | MonitorEvent::NoEmitter | MonitorEvent::Shutdown => {
                MonitorAction::Stop
            },
        }
    }
}

} // verus!
