//! Idle modes and their names on the bus.

use crate::text::same_text;
use vstd::prelude::*;

verus! {

/// What the managed idle policies add up to.
#[derive(Debug, Clone, Copy, PartialEq, Eq, Structural)]
pub enum Mode {
    /// Lock/display-off and suspend policies both run.
    Normal,
    /// Lock/display-off runs, idle suspend does not.
    NoSuspend,
    /// Neither policy runs.
    NoIdle,
    /// Idle suspend runs without lock/display-off.
    Custom,
    /// The state of a policy cannot be read.
    Unavailable,
}

/// The primary mode named `value`, or nothing if no primary mode has that name.
pub open spec fn primary_named(value: Seq<char>) -> Option<Mode> {
    if value == Mode::Normal.name() {
        Some(Mode::Normal)
    } else if value == Mode::NoSuspend.name() {
        Some(Mode::NoSuspend)
    } else if value == Mode::NoIdle.name() {
        Some(Mode::NoIdle)
    } else {
        None
    }
}

impl Mode {
    /// The name of the mode on the bus.
    pub open spec fn name(self) -> Seq<char> {
        match self {
            Mode::Normal => "normal"@,
            Mode::NoSuspend => "no-suspend"@,
            Mode::NoIdle => "no-idle"@,
            Mode::Custom => "custom"@,
            Mode::Unavailable => "unavailable"@,
        }
    }

    /// The modes that a caller can ask for.
    pub open spec fn primary(self) -> bool {
        self is Normal || self is NoSuspend || self is NoIdle
    }

    /// Whether some idle policy is known to be held off.
    pub open spec fn inhibits(self) -> bool {
        self is NoSuspend || self is NoIdle || self is Custom
    }

    /// The mode that follows in the cycle `normal -> no-suspend -> no-idle ->
    /// normal`. Modes outside the cycle enter it at `normal`.
    pub open spec fn successor(self) -> Mode {
        if self is Normal {
            Mode::NoSuspend
        } else if self is NoSuspend {
            Mode::NoIdle
        } else {
            Mode::Normal
        }
    }

    /// The name of the mode.
    pub fn as_str(self) -> (text: &'static str)
        ensures
            text@ == self.name(),
    {
        match self {
            Mode::Normal => "normal",
            Mode::NoSuspend => "no-suspend",
            Mode::NoIdle => "no-idle",
            Mode::Custom => "custom",
            Mode::Unavailable => "unavailable",
        }
    }

    /// The primary mode of that name, if there is one.
    pub fn parse_primary(value: &str) -> (mode: Option<Self>)
        ensures
            mode == primary_named(value@),
    {
        if same_text(value, "normal") {
            Some(Mode::Normal)
        } else if same_text(value, "no-suspend") {
            Some(Mode::NoSuspend)
        } else if same_text(value, "no-idle") {
            Some(Mode::NoIdle)
        } else {
            None
        }
    }

    /// Whether a caller can ask for this mode.
    pub fn is_primary(self) -> (primary: bool)
        ensures
            primary == self.primary(),
    {
        matches!(self, Mode::Normal | Mode::NoSuspend | Mode::NoIdle)
    }

    /// Whether some idle policy is known to be held off.
    pub fn is_inhibited(self) -> (inhibited: bool)
        ensures
            inhibited == self.inhibits(),
    {
        matches!(self, Mode::NoSuspend | Mode::NoIdle | Mode::Custom)
    }

    /// The next mode of the cycle.
    pub fn next_cycle(self) -> (next: Self)
        ensures
            next == self.successor(),
    {
        match self {
            Mode::Normal => Mode::NoSuspend,
            Mode::NoSuspend => Mode::NoIdle,
            Mode::NoIdle => Mode::Normal,
            Mode::Custom | Mode::Unavailable => Mode::Normal,
        }
    }
}

/// No two modes share a name.
pub proof fn names_are_distinct(a: Mode, b: Mode)
    ensures
        a.name() == b.name() ==> a == b,
{
    reveal_strlit("normal");
    reveal_strlit("no-suspend");
    reveal_strlit("no-idle");
    reveal_strlit("custom");
    reveal_strlit("unavailable");
    if a.name() == b.name() {
        assert(a.name().len() == b.name().len());
        assert(a.name()[0] == b.name()[0]);
    }
}

/// Parsing the name of a primary mode gives the mode back, and the names of the
/// other modes parse to nothing.
pub proof fn only_primary_names_parse(mode: Mode)
    ensures
        primary_named(mode.name()) == if mode.primary() {
            Some(mode)
        } else {
            None
        },
{
    names_are_distinct(mode, Mode::Normal);
    names_are_distinct(mode, Mode::NoSuspend);
    names_are_distinct(mode, Mode::NoIdle);
}

/// Whatever parses is the name of the primary mode that it parses to.
pub proof fn parsed_modes_bear_the_name(value: Seq<char>)
    ensures
        match primary_named(value) {
            Some(mode) => mode.primary() && mode.name() == value,
            None => forall|mode: Mode| mode.primary() ==> #[trigger] mode.name() != value,
        },
{
}

/// Parsing takes the names of the modes that can be asked for and gives the mode
/// of that name; it takes nothing else.
pub proof fn parsing_inverts_naming(value: &str, parsed: Option<Mode>, mode: Mode, name: &'static str)
    requires
        call_ensures(Mode::parse_primary, (value,), parsed),
        call_ensures(Mode::as_str, (mode,), name),
    ensures
        parsed == Some(mode) <==> name@ == value@ && (mode is Normal || mode is NoSuspend || mode
            is NoIdle),
        name@ == mode.name(),
{
    only_primary_names_parse(mode);
    parsed_modes_bear_the_name(value@);
    if parsed is Some {
        names_are_distinct(parsed->0, mode);
    }
}

/// What is computed of a mode is what is said of it.
pub proof fn modes_are_what_is_said_of_them(mode: Mode, primary: bool, inhibited: bool, next: Mode)
    requires
        call_ensures(Mode::is_primary, (mode,), primary),
        call_ensures(Mode::is_inhibited, (mode,), inhibited),
        call_ensures(Mode::next_cycle, (mode,), next),
    ensures
        primary <==> !(mode is Custom) && !(mode is Unavailable),
        inhibited <==> !(mode is Normal) && !(mode is Unavailable),
        next is NoSuspend <==> mode is Normal,
        next is NoIdle <==> mode is NoSuspend,
        next is Normal <==> !(mode is Normal) && !(mode is NoSuspend),
{
}

/// The cycle leads to primary modes only.
pub proof fn cycle_stays_primary(mode: Mode)
    ensures
        mode.successor().primary(),
{
}

/// Three steps of the cycle lead back to the primary mode they started from,
/// and fewer do not.
pub proof fn cycle_has_three_modes(mode: Mode)
    requires
        mode.primary(),
    ensures
        mode.successor() != mode,
        mode.successor().successor() != mode,
        mode.successor().successor().successor() == mode,
{
}

/// Of the modes that a caller can ask for, `normal` alone holds nothing off.
pub proof fn primary_modes_inhibit_unless_normal(mode: Mode)
    requires
        mode.primary(),
    ensures
        mode.inhibits() <==> !(mode is Normal),
{
}

} // verus!
