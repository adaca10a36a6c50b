//! Terminal color for progress and diagnostic lines on stderr, with the
//! `--color auto|always|never` contract `cargo` and `rustc` expose. Data
//! written to stdout is never colored. Reading the environment and asking
//! whether stderr is a terminal is the caller's part; the rules that
//! decide from those answers are here.
use vstd::prelude::*;

use crate::text::{copy_str, push_str};

verus! {

/// The `--color` choice.
#[derive(Clone, Copy, Debug, PartialEq, Eq, Structural)]
pub enum ColorChoice {
    Auto,
    Always,
    Never,
}

impl Default for ColorChoice {
    fn default() -> (r: ColorChoice)
        ensures
            r == ColorChoice::Auto,
    {
        ColorChoice::Auto
    }
}

pub open spec fn override_of(choice: ColorChoice) -> Option<bool> {
    match choice {
        ColorChoice::Always => Some(true),
        ColorChoice::Never => Some(false),
        ColorChoice::Auto => None,
    }
}

/// The override a `--color` choice sets: `always` and `never` decide
/// outright, `auto` leaves it to the environment. Computed once, right
/// after the command line is parsed.
pub fn init(choice: ColorChoice) -> (r: Option<bool>)
    ensures
        r == override_of(choice),
{
    match choice {
        ColorChoice::Always => Some(true),
        ColorChoice::Never => Some(false),
        ColorChoice::Auto => None,
    }
}

/// What decides whether stderr is colored, as read from the process.
pub struct ColorEnvironment {
    /// `NO_COLOR` is set and non-empty.
    pub no_color: bool,
    /// `FORCE_COLOR` or `CLICOLOR_FORCE` is set and non-empty.
    pub force_color: bool,
    /// `GITHUB_ACTIONS` is exactly `true`: the Actions log viewer renders
    /// ANSI, though a step's stderr is a pipe.
    pub github_actions: bool,
    /// stderr is a terminal.
    pub stderr_is_terminal: bool,
}

/// The `--color` override wins outright; otherwise `NO_COLOR` disables,
/// a force variable or GitHub Actions enables, and otherwise a terminal
/// decides.
pub open spec fn color_on(override_value: Option<bool>, env: ColorEnvironment) -> bool {
    match override_value {
        Some(forced) => forced,
        None => if env.no_color {
            false
        } else if env.force_color || env.github_actions {
            true
        } else {
            env.stderr_is_terminal
        },
    }
}

/// Whether to emit ANSI color codes on stderr.
pub fn enabled(override_value: Option<bool>, env: &ColorEnvironment) -> (r: bool)
    ensures
        r == color_on(override_value, *env),
{
    match override_value {
        Some(forced) => forced,
        None => {
            if env.no_color {
                false
            } else if env.force_color || env.github_actions {
                true
            } else {
                env.stderr_is_terminal
            }
        },
    }
}

#[derive(Clone, Copy, Debug, PartialEq, Eq, Structural)]
pub enum Color {
    Red,
    Green,
    Yellow,
    Cyan,
    BrightBlack,
}

pub open spec fn color_code(c: Color) -> Seq<char> {
    match c {
        Color::Red => "31"@,
        Color::Green => "32"@,
        Color::Yellow => "33"@,
        Color::Cyan => "36"@,
        Color::BrightBlack => "90"@,
    }
}

impl Color {
    /// The SGR foreground code.
    pub fn code(self) -> (r: &'static str)
        ensures
            r@ == color_code(self),
    {
        match self {
            Color::Red => "31",
            Color::Green => "32",
            Color::Yellow => "33",
            Color::Cyan => "36",
            Color::BrightBlack => "90",
        }
    }
}

/// `text` wrapped in the escape sequence for `color` (bold first, when
/// asked) and a reset, or `text` unchanged when color is off.
pub open spec fn painted(text: Seq<char>, color: Color, bold: bool, on: bool) -> Seq<char> {
    if !on {
        text
    } else {
        "\x1b["@ + (if bold { "1;"@ } else { seq![] }) + color_code(color) + "m"@ + text + "\x1b[0m"@
    }
}

/// `text` painted in `color` when `on`; callers never branch themselves.
pub fn paint(text: &str, color: Color, bold: bool, on: bool) -> (r: String)
    ensures
        r@ == painted(text@, color, bold, on),
{
    if !on {
        return copy_str(text);
    }
    let mut r = copy_str("\x1b[");
    if bold {
        push_str(&mut r, "1;");
    }
    push_str(&mut r, color.code());
    push_str(&mut r, "m");
    push_str(&mut r, text);
    push_str(&mut r, "\x1b[0m");
    proof {
        if bold {
            assert(r@ =~= painted(text@, color, bold, on));
        } else {
            assert(r@ =~= painted(text@, color, bold, on));
        }
    }
    r
}

} // verus!
