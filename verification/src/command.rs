//! The command vocabulary and the dispatch normalization.
//!
//! Three independent trigger sources — a tray menu selection, the argument
//! list of an operating-system relaunch signal, and a tray-icon click —
//! are normalized into one closed set of commands. Unrecognized input is
//! dropped silently; there is no error channel back to a trigger source.

use vstd::prelude::*;

verus! {

/// One minute, in milliseconds: the unit the menu's snooze entries use.
pub const MINUTE_MILLIS: u64 = 60000;

/// The five fixed snooze durations the tray menu offers, in milliseconds:
/// thirty minutes, then one, two, four and eight hours.
pub const SLEEP_30M_MILLIS: u64 = 30 * MINUTE_MILLIS;

/// See [`SLEEP_30M_MILLIS`].
pub const SLEEP_1H_MILLIS: u64 = 60 * MINUTE_MILLIS;

/// See [`SLEEP_30M_MILLIS`].
pub const SLEEP_2H_MILLIS: u64 = 120 * MINUTE_MILLIS;

/// See [`SLEEP_30M_MILLIS`].
pub const SLEEP_4H_MILLIS: u64 = 240 * MINUTE_MILLIS;

/// See [`SLEEP_30M_MILLIS`].
pub const SLEEP_8H_MILLIS: u64 = 480 * MINUTE_MILLIS;

/// The closed set of intents a trigger source can produce. `SnoozeFor`
/// carries a duration in milliseconds.
#[derive(Clone, Copy, Debug, PartialEq, Eq, Structural)]
pub enum Command {
    Show,
    Hide,
    Notify,
    Wake,
    SnoozeFor(u64),
    Quit,
    ToggleVisibility,
}

/// The mouse button of a tray-icon click.
#[derive(Clone, Copy, Debug, PartialEq, Eq, Structural)]
pub enum ClickButton {
    Left,
    Right,
    Middle,
}

/// Whether the button of a tray-icon click was pressed or released.
#[derive(Clone, Copy, Debug, PartialEq, Eq, Structural)]
pub enum ClickButtonState {
    Up,
    Down,
}

/// Character-for-character string comparison, built on the specified
/// `String` equality.
fn str_eq(a: &str, b: &str) -> (r: bool)
    ensures
        r == (a@ == b@),
{
    let owned_a: String = a.to_owned();
    let owned_b: String = b.to_owned();
    owned_a == owned_b
}

/// The command a tray-menu entry stands for: the four plain entries, the
/// five fixed snooze durations (30, 60, 120, 240 and 480 minutes), and
/// nothing else.
pub open spec fn menu_command(id: Seq<char>) -> Option<Command> {
    if id == "show"@ {
        Some(Command::Show)
    } else if id == "hide"@ {
        Some(Command::Hide)
    } else if id == "wake"@ {
        Some(Command::Wake)
    } else if id == "quit"@ {
        Some(Command::Quit)
    } else if id == "sleep_30m"@ {
        Some(Command::SnoozeFor(SLEEP_30M_MILLIS))
    } else if id == "sleep_1h"@ {
        Some(Command::SnoozeFor(SLEEP_1H_MILLIS))
    } else if id == "sleep_2h"@ {
        Some(Command::SnoozeFor(SLEEP_2H_MILLIS))
    } else if id == "sleep_4h"@ {
        Some(Command::SnoozeFor(SLEEP_4H_MILLIS))
    } else if id == "sleep_8h"@ {
        Some(Command::SnoozeFor(SLEEP_8H_MILLIS))
    } else {
        None
    }
}

/// Maps a selected tray-menu entry to its command; an unknown entry maps
/// to nothing and is dropped.
pub fn command_for_menu_id(id: &str) -> (r: Option<Command>)
    ensures
        r == menu_command(id@),
{
    if str_eq(id, "show") {
        Some(Command::Show)
    } else if str_eq(id, "hide") {
        Some(Command::Hide)
    } else if str_eq(id, "wake") {
        Some(Command::Wake)
    } else if str_eq(id, "quit") {
        Some(Command::Quit)
    } else if str_eq(id, "sleep_30m") {
        Some(Command::SnoozeFor(SLEEP_30M_MILLIS))
    } else if str_eq(id, "sleep_1h") {
        Some(Command::SnoozeFor(SLEEP_1H_MILLIS))
    } else if str_eq(id, "sleep_2h") {
        Some(Command::SnoozeFor(SLEEP_2H_MILLIS))
    } else if str_eq(id, "sleep_4h") {
        Some(Command::SnoozeFor(SLEEP_4H_MILLIS))
    } else if str_eq(id, "sleep_8h") {
        Some(Command::SnoozeFor(SLEEP_8H_MILLIS))
    } else {
        None
    }
}

/// The command a single relaunch-argument token stands for: `show`,
/// `hide` or `notify`; anything else is ignored.
pub open spec fn relaunch_command(token: Seq<char>) -> Option<Command> {
    if token == "show"@ {
        Some(Command::Show)
    } else if token == "hide"@ {
        Some(Command::Hide)
    } else if token == "notify"@ {
        Some(Command::Notify)
    } else {
        None
    }
}

/// Maps one relaunch-argument token to its command, if it has one.
pub fn command_for_relaunch_token(token: &str) -> (r: Option<Command>)
    ensures
        r == relaunch_command(token@),
{
    if str_eq(token, "show") {
        Some(Command::Show)
    } else if str_eq(token, "hide") {
        Some(Command::Hide)
    } else if str_eq(token, "notify") {
        Some(Command::Notify)
    } else {
        None
    }
}

/// The commands an ordered relaunch-argument list produces: each token is
/// matched independently and in order; unrecognized tokens contribute
/// nothing.
pub open spec fn relaunch_commands(tokens: Seq<Seq<char>>) -> Seq<Command>
    decreases tokens.len(),
{
    if tokens.len() == 0 {
        Seq::empty()
    } else {
        let front = relaunch_commands(tokens.drop_last());
        let last = match relaunch_command(tokens.last()) {
            Some(c) => seq![c],
            None => Seq::<Command>::empty(),
        };
        front + last
    }
}

/// Normalizes a whole relaunch-argument list, in order; each recognized
/// token yields its own command, so `["show", "notify"]` yields two.
pub fn commands_for_relaunch_args(args: &Vec<String>) -> (r: Vec<Command>)
    ensures
        r@ == relaunch_commands(args.deep_view()),
{
    let ghost tokens: Seq<Seq<char>> = args.deep_view();
    let mut out: Vec<Command> = Vec::new();
    assert(out@ =~= relaunch_commands(tokens.take(0)));
    let mut i: usize = 0;
    while i < args.len()
        invariant
            i <= args.len(),
            tokens == args.deep_view(),
            tokens.len() == args.len(),
            out@ == relaunch_commands(tokens.take(i as int)),
        decreases args.len() - i,
    {
        let cmd = command_for_relaunch_token(args[i].as_str());
        proof {
            assert(tokens[i as int] == args[i as int].deep_view());
            assert(tokens.take(i + 1).drop_last() =~= tokens.take(i as int));
            assert(tokens.take(i + 1).last() == tokens[i as int]);
        }
        match cmd {
            Some(c) => {
                out.push(c);
                assert(out@ =~= relaunch_commands(tokens.take(i + 1)));
            },
            None => {
                assert(out@ =~= relaunch_commands(tokens.take(i + 1)));
            },
        }
        i += 1;
    }
    proof {
        assert(tokens.take(args.len() as int) =~= tokens);
    }
    out
}

/// The command a tray-icon click stands for: a left-button release maps
/// to `ToggleVisibility`; every other button or state is ignored.
pub open spec fn tray_click_command(button: ClickButton, state: ClickButtonState) -> Option<
    Command,
> {
    if button is Left && state is Up {
        Some(Command::ToggleVisibility)
    } else {
        None
    }
}

/// Maps a tray-icon click to its command, if it has one.
pub fn command_for_tray_click(button: ClickButton, state: ClickButtonState) -> (r: Option<
    Command,
>)
    ensures
        r == tray_click_command(button, state),
{
    match (button, state) {
        (ClickButton::Left, ClickButtonState::Up) => Some(Command::ToggleVisibility),
        _ => None,
    }
}

} // verus!
