//! What can be relied on of the command line and of what commands print.

use crate::cli;
use crate::cli::{Command, CommandError, UnitReport};
use crate::mode;
use crate::mode::Mode;
use crate::text;
use vstd::prelude::*;

verus! {

/// The line that tells the mode is `Mode: ` followed by the name of the mode.
/// What follows the sixth character parses back to the mode, if that can be
/// asked for, and to nothing otherwise. Lines of different modes differ.
pub proof fn mode_lines_tell_the_mode(mode: Mode, line: String, other: Mode, other_line: String)
    requires
        call_ensures(cli::mode_line, (mode,), line),
        call_ensures(cli::mode_line, (other,), other_line),
    ensures
        line@.take(6) == "Mode: "@,
        line@.skip(6) == mode.name(),
        mode is Normal || mode is NoSuspend || mode is NoIdle ==> mode::primary_named(line@.skip(6))
            == Some(mode),
        mode is Custom || mode is Unavailable ==> mode::primary_named(line@.skip(6)) is None,
        line@ == other_line@ ==> mode == other,
{
    reveal_strlit("Mode: ");
    assert(line@.take(6) =~= "Mode: "@);
    assert(line@.skip(6) =~= mode.name());
    assert(other_line@.skip(6) =~= other.name());
    mode::only_primary_names_parse(mode);
    mode::names_are_distinct(mode, other);
}

/// A command line asks for the service if it is empty, and otherwise for a
/// command only if it is nothing but that command. Whatever is refused is
/// refused for its length, or else named.
pub proof fn command_lines_ask_for_what_they_say(
    args: Vec<String>,
    command: Result<Command, CommandError>,
)
    requires
        call_ensures(Command::parse_from, (args,), command),
    ensures
        ({
            let words = text::texts(args@);
            &&& command == Ok::<Command, CommandError>(Command::Daemon) <==> words == Seq::<
                Seq<char>,
            >::empty()
            &&& command == Ok::<Command, CommandError>(Command::Up) <==> words == seq!["up"@]
            &&& command == Ok::<Command, CommandError>(Command::Status) <==> words
                == seq!["status"@]
            &&& command == Ok::<Command, CommandError>(Command::Help) <==> words == seq!["help"@]
                || words == seq!["-h"@] || words == seq!["--help"@]
            &&& command == Err::<Command, CommandError>(CommandError::TooManyArguments)
                <==> words.len() >= 2
            &&& command matches Err(CommandError::UnknownCommand(argument)) ==> words
                == seq![argument@]
        }),
{
    reveal_strlit("up");
    reveal_strlit("status");
    reveal_strlit("help");
    reveal_strlit("-h");
    reveal_strlit("--help");
    let words = text::texts(args@);
    assert("up"@.len() == 2 && "-h"@.len() == 2 && "up"@[0] != "-h"@[0]);
    assert("status"@.len() == 6 && "--help"@.len() == 6 && "status"@[0] != "--help"@[0]);
    assert("help"@.len() == 4);
    if words.len() == 0 {
        assert(words =~= Seq::<Seq<char>>::empty());
    }
    if words.len() == 1 {
        assert(words =~= seq![args@[0]@]);
        assert forall|word: Seq<char>| words == seq![word] implies args@[0]@ == word by {
            assert(words[0] == word);
        }
        assert(seq!["up"@][0] == "up"@);
        assert(seq!["status"@][0] == "status"@);
        assert(seq!["help"@][0] == "help"@);
        assert(seq!["-h"@][0] == "-h"@);
        assert(seq!["--help"@][0] == "--help"@);
    }
}

/// A refused command line is answered with the reason, which repeats an unknown
/// command letter by letter, then an empty line, then the usage to its end.
pub proof fn refusals_end_with_the_usage(
    error: CommandError,
    message: String,
    usage: &'static str,
)
    requires
        call_ensures(CommandError::message, (&error,), message),
        call_ensures(cli::usage, (), usage),
    ensures
        message@.len() >= usage@.len() + 2,
        message@.skip(message@.len() - usage@.len()) == usage@,
        message@.take(message@.len() - usage@.len()) == (match error {
            CommandError::TooManyArguments => "too many arguments"@,
            CommandError::UnknownCommand(argument) => "unknown command: "@ + argument@,
        }) + "\n\n"@,
{
    reveal_strlit("too many arguments\n\n");
    reveal_strlit("too many arguments");
    reveal_strlit("\n\n");
    assert("too many arguments\n\n"@ =~= "too many arguments"@ + "\n\n"@);
    assert(message@.skip(message@.len() - usage@.len()) =~= usage@);
    match error {
        CommandError::TooManyArguments => {
            assert(message@.take(message@.len() - usage@.len()) =~= "too many arguments"@
                + "\n\n"@);
        },
        CommandError::UnknownCommand(argument) => {
            assert(message@.take(message@.len() - usage@.len()) =~= "unknown command: "@ + argument@
                + "\n\n"@);
        },
    }
}

/// Padding keeps the text and adds nothing but spaces behind it, just as many as
/// it takes to fill the column.
pub proof fn padding_fills_columns(content: &str, width: usize, column: String)
    requires
        call_ensures(text::pad_right, (content, width), column),
    ensures
        content@ == column@.take(content@.len() as int),
        forall|i: int| content@.len() <= i < column@.len() ==> column@[i] == ' ',
        column@.len() == (if content@.len() < width {
            width as nat
        } else {
            content@.len()
        }),
{
    assert(content@ =~= column@.take(content@.len() as int));
}

/// The line of a unit tells, from left to right and unabridged: the name in a
/// column of 42 characters, whether the unit is enabled in a column of 12, and
/// whether it is active. Columns grow where they have to, and nothing but spaces
/// fills them up.
pub proof fn report_lines_tell_everything(report: UnitReport, line: String)
    requires
        call_ensures(cli::report_line, (&report,), line),
    ensures
        ({
            let name_end = if report.name@.len() < 42 {
                42
            } else {
                report.name@.len() as int
            };
            let state_start = name_end + 9;
            let state_end = state_start + if report.unit_file_state@.len() < 12 {
                12
            } else {
                report.unit_file_state@.len() as int
            };
            let active_start = state_end + 8;
            &&& line@.len() == active_start + report.active_state@.len()
            &&& line@.take(report.name@.len() as int) == report.name@
            &&& forall|i: int| report.name@.len() <= i < name_end ==> line@[i] == ' '
            &&& line@.subrange(name_end, state_start) == " enabled="@
            &&& line@.subrange(state_start, state_start + report.unit_file_state@.len())
                == report.unit_file_state@
            &&& forall|i: int|
                state_start + report.unit_file_state@.len() <= i < state_end ==> line@[i] == ' '
            &&& line@.subrange(state_end, active_start) == " active="@
            &&& line@.skip(active_start) == report.active_state@
        }),
{
    reveal_strlit(" enabled=");
    reveal_strlit(" active=");
    let name = text::padded(report.name@, 42);
    let state = text::padded(report.unit_file_state@, 12);
    let name_end = name.len() as int;
    let state_start = name_end + 9;
    let state_end = state_start + state.len();
    let active_start = state_end + 8;
    assert(line@ =~= name + (" enabled="@ + (state + (" active="@ + report.active_state@))));
    assert(line@.take(report.name@.len() as int) =~= report.name@);
    assert(line@.subrange(name_end, state_start) =~= " enabled="@);
    assert(line@.subrange(state_start, state_start + report.unit_file_state@.len())
        =~= report.unit_file_state@);
    assert(line@.subrange(state_end, active_start) =~= " active="@);
    assert(line@.skip(active_start) =~= report.active_state@);
}

/// `status` prints the line of the mode and then the line of each unit, in
/// order.
pub proof fn status_tells_the_mode_and_each_unit(
    mode: Mode,
    reports: Vec<UnitReport>,
    lines: Vec<String>,
    mode_line: String,
)
    requires
        call_ensures(cli::run_status, (mode, &reports), lines),
        call_ensures(cli::mode_line, (mode,), mode_line),
    ensures
        lines@.len() == reports@.len() + 1,
        lines@[0]@ == mode_line@,
        forall|i: int, line: String|
            0 <= i < reports@.len() && #[trigger] call_ensures(
                cli::report_line,
                (&reports@[i],),
                line,
            ) ==> lines@[i + 1]@ == line@,
{
    let told = text::texts(lines@);
    assert(told.len() == reports@.len() + 1);
    assert(told[0] == lines@[0]@);
    assert forall|i: int, line: String|
        0 <= i < reports@.len() && #[trigger] call_ensures(
            cli::report_line,
            (&reports@[i],),
            line,
        ) implies lines@[i + 1]@ == line@ by {
        assert(told[i + 1] == lines@[i + 1]@);
    }
}

/// `up` says that the units are up and then prints what `status` prints.
pub proof fn up_prints_the_status(
    mode: Mode,
    reports: Vec<UnitReport>,
    lines: Vec<String>,
    status: Vec<String>,
)
    requires
        call_ensures(cli::run_up, (mode, &reports), lines),
        call_ensures(cli::run_status, (mode, &reports), status),
    ensures
        lines@.len() == status@.len() + 1,
        lines@[0]@ == "Enabled and started Guayusa units."@,
        forall|i: int| 0 <= i < status@.len() ==> (#[trigger] status@[i])@ == lines@[i + 1]@,
{
    let told = text::texts(lines@);
    let known = text::texts(status@);
    assert(told.len() == known.len() + 1);
    assert(told[0] == lines@[0]@);
    assert forall|i: int| 0 <= i < status@.len() implies (#[trigger] status@[i])@
        == lines@[i + 1]@ by {
        assert(told[i + 1] == lines@[i + 1]@);
        assert(known[i] == status@[i]@);
    }
}

} // verus!
