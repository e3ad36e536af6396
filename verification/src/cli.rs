//! The command line and what commands print.

use crate::mode::Mode;
use crate::text;
use crate::text::{joined, pad_right, same_text};
use vstd::prelude::*;
use vstd::string::*;

verus! {

/// What the program is asked to do.
#[derive(Debug, Clone, Copy, PartialEq, Eq, Structural)]
pub enum Command {
    /// Run the service.
    Daemon,
    /// Enable and start the packaged units.
    Up,
    /// Show the mode and the managed units.
    Status,
    /// Show how the program is used.
    Help,
}

/// Why a command line is refused.
#[derive(Debug)]
pub enum CommandError {
    /// There is more than one argument.
    TooManyArguments,
    /// The argument is no command.
    UnknownCommand(String),
}

/// The command that an argument names.
pub open spec fn command_named(argument: Seq<char>) -> Option<Command> {
    if argument == "up"@ {
        Some(Command::Up)
    } else if argument == "status"@ {
        Some(Command::Status)
    } else if argument == "help"@ || argument == "-h"@ || argument == "--help"@ {
        Some(Command::Help)
    } else {
        None
    }
}

/// How the program is used.
pub open spec fn usage_text() -> Seq<char> {
    "Usage:\n  guayusa             Run the D-Bus service\n  guayusa up          Enable and start the packaged user services\n  guayusa status      Show Guayusa mode and managed unit state"@
}

/// The message of a refused command line.
pub open spec fn command_error_message(error: CommandError) -> Seq<char> {
    match error {
        CommandError::TooManyArguments => "too many arguments\n\n"@ + usage_text(),
        CommandError::UnknownCommand(argument) => "unknown command: "@ + argument@ + "\n\n"@
            + usage_text(),
    }
}

impl Command {
    /// The command that the arguments after the program's name ask for. Without
    /// arguments, the service runs.
    pub fn parse_from(args: Vec<String>) -> (command: Result<Self, CommandError>)
        ensures
            if args@.len() == 0 {
                command == Ok::<Command, CommandError>(Command::Daemon)
            } else if args@.len() > 1 {
                command == Err::<Command, CommandError>(CommandError::TooManyArguments)
            } else {
                match command_named(args@[0]@) {
                    Some(named) => command == Ok::<Command, CommandError>(named),
                    None => command matches Err(CommandError::UnknownCommand(argument)) && argument@
                        == args@[0]@,
                }
            },
    {
        if args.len() == 0 {
            return Ok(Command::Daemon);
        }
        if args.len() > 1 {
            return Err(CommandError::TooManyArguments);
        }
        let argument = args[0].as_str();
        if same_text(argument, "up") {
            Ok(Command::Up)
        } else if same_text(argument, "status") {
            Ok(Command::Status)
        } else if same_text(argument, "help") || same_text(argument, "-h") || same_text(
            argument,
            "--help",
        ) {
            Ok(Command::Help)
        } else {
            Err(CommandError::UnknownCommand(argument.to_owned()))
        }
    }
}

impl CommandError {
    /// The message of the error.
    pub fn message(&self) -> (text: String)
        ensures
            text@ == command_error_message(*self),
    {
        match self {
            CommandError::TooManyArguments => joined("too many arguments\n\n", usage()),
            CommandError::UnknownCommand(argument) => {
                let mut text = joined("unknown command: ", argument.as_str());
                text.append("\n\n");
                text.append(usage());
                text
            },
        }
    }
}

/// How the program is used.
pub fn usage() -> (text: &'static str)
    ensures
        text@ == usage_text(),
{
    "Usage:\n  guayusa             Run the D-Bus service\n  guayusa up          Enable and start the packaged user services\n  guayusa status      Show Guayusa mode and managed unit state"
}

/// What systemd knows of a unit.
#[derive(Debug)]
pub struct UnitReport {
    pub name: String,
    pub unit_file_state: String,
    pub active_state: String,
}

/// The line that tells the mode.
pub open spec fn mode_text(mode: Mode) -> Seq<char> {
    "Mode: "@ + mode.name()
}

/// The line that tells of a unit.
pub open spec fn report_text(report: UnitReport) -> Seq<char> {
    text::padded(report.name@, 42) + " enabled="@ + text::padded(report.unit_file_state@, 12)
        + " active="@ + report.active_state@
}

/// The lines that tell the mode and the units.
pub open spec fn status_texts(mode: Mode, reports: Seq<UnitReport>) -> Seq<Seq<char>> {
    seq![mode_text(mode)] + reports.map_values(|report: UnitReport| report_text(report))
}

/// The line that tells the mode.
pub fn mode_line(mode: Mode) -> (line: String)
    ensures
        line@ == mode_text(mode),
{
    joined("Mode: ", mode.as_str())
}

/// The line that tells of a unit, in columns.
pub fn report_line(report: &UnitReport) -> (line: String)
    ensures
        line@ == report_text(*report),
{
    let mut line = pad_right(report.name.as_str(), 42);
    line.append(" enabled=");
    line.append(pad_right(report.unit_file_state.as_str(), 12).as_str());
    line.append(" active=");
    line.append(report.active_state.as_str());
    line
}

/// The lines that `status` prints.
pub fn run_status(mode: Mode, reports: &Vec<UnitReport>) -> (lines: Vec<String>)
    ensures
        text::texts(lines@) == status_texts(mode, reports@),
{
    let mut lines: Vec<String> = Vec::new();
    lines.push(mode_line(mode));
    let mut i: usize = 0;
    assert(text::texts(lines@) =~= status_texts(mode, reports@.take(0)));
    while i < reports.len()
        invariant
            i <= reports.len(),
            text::texts(lines@) == status_texts(mode, reports@.take(i as int)),
        decreases reports.len() - i,
    {
        let ghost before = lines@;
        lines.push(report_line(&reports[i]));
        i = i + 1;
        assert(text::texts(lines@) =~= text::texts(before).push(report_text(reports@[i - 1])));
        assert(reports@.take(i as int) =~= reports@.take(i - 1).push(reports@[i - 1]));
        assert(status_texts(mode, reports@.take(i as int)) =~= status_texts(
            mode,
            reports@.take(i - 1),
        ).push(report_text(reports@[i - 1])));
    }
    assert(reports@.take(reports.len() as int) =~= reports@);
    lines
}

/// The lines that `up` prints once the units are up.
pub fn run_up(mode: Mode, reports: &Vec<UnitReport>) -> (lines: Vec<String>)
    ensures
        text::texts(lines@) == seq!["Enabled and started Guayusa units."@] + status_texts(
            mode,
            reports@,
        ),
{
    let mut lines = run_status(mode, reports);
    let ghost status = lines@;
    lines.insert(0, "Enabled and started Guayusa units.".to_owned());
    assert(text::texts(lines@) =~= seq!["Enabled and started Guayusa units."@] + text::texts(
        status,
    ));
    lines
}

} // verus!
