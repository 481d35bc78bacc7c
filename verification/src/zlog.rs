//! Diagnostics: the lines that the compiler reports to its user.
//!
//! A line is a tag, a space and the message. On a terminal the tag is
//! colored, unless the settings say otherwise. Nothing is reported at all
//! unless the settings ask for verbose output. The functions here make the
//! line; printing it is left to the caller.
//!
//! The colors come from the `colored` crate, which looks at the environment
//! and at a process-wide switch to decide whether to color at all. So of a
//! colored tag the contracts say only in which forms it may come.

use vstd::prelude::*;
use vstd::string::StringExecFns;
use colored::Colorize;
use crate::settings::Settings;

verus! {

/// The kinds of diagnostics.
pub enum Level {
    Verbose,
    Error,
    Warning,
    Log,
}

impl Level {
    /// The tag that opens a line of this kind.
    pub open spec fn tag(self) -> Seq<char> {
        match self {
            Level::Verbose => "[VERBOSE]"@,
            Level::Error => "[ERROR]"@,
            Level::Warning => "[WARNING]"@,
            Level::Log => "[LOG]"@,
        }
    }

    /// The terminal's code for the color of the tag: magenta, red, yellow,
    /// green.
    pub open spec fn color(self) -> Seq<char> {
        match self {
            Level::Verbose => seq!['3', '5'],
            Level::Error => seq!['3', '1'],
            Level::Warning => seq!['3', '3'],
            Level::Log => seq!['3', '2'],
        }
    }
}

/// The escape sequence that resets the colors of the terminal.
pub open spec fn reset() -> Seq<char> {
    seq!['\u{1b}', '[', '0', 'm']
}

/// `tag` between the escape sequence that selects the foreground color
/// `code` and the one that resets it.
pub open spec fn painted(tag: Seq<char>, code: Seq<char>) -> Seq<char> {
    seq!['\u{1b}', '['] + code + seq!['m'] + tag + reset()
}

/// Whether `text` is one of the forms in which a tag may come out when it
/// is to be colored with `code`: bare, where the terminal takes no colors;
/// painted, where it does; or bare with the reset behind it, which is what
/// is left if coloring is switched off while the tag is being written.
pub open spec fn renders(text: Seq<char>, tag: Seq<char>, code: Seq<char>) -> bool {
    ||| text == tag
    ||| text == painted(tag, code)
    ||| text == tag + reset()
}

/// Whether `text` holds no escape character.
pub open spec fn escape_free(text: Seq<char>) -> bool {
    forall|i: int| 0 <= i < text.len() ==> text[i] != '\u{1b}'
}

/// A report line: the tag, a space, the message.
pub open spec fn report(tag: Seq<char>, message: Seq<char>) -> Seq<char> {
    tag + seq![' '] + message
}

/// Whether `line` is what a diagnostic of kind `level` reports for
/// `message` under `settings`: nothing unless verbose; else the tag and the
/// message, where the tag is bare if colors are off and comes in one of the
/// forms of [`renders`] if they are on.
pub open spec fn reports(
    line: Option<Seq<char>>,
    level: Level,
    message: Seq<char>,
    settings: Settings,
) -> bool {
    if !settings.is_verbose {
        line is None
    } else if settings.is_no_color {
        line == Some(report(level.tag(), message))
    } else {
        ||| line == Some(report(level.tag(), message))
        ||| line == Some(report(painted(level.tag(), level.color()), message))
        ||| line == Some(report(level.tag() + reset(), message))
    }
}

/// `Colorize::purple` of the `colored` crate, rendered to a string. The
/// crate asks its switch whether to color, once before it writes and again
/// for each part, so the label comes out in one of the forms of [`renders`],
/// with the code for magenta. A label with an escape character is left out,
/// because the crate rewrites reset sequences that it finds inside a label.
/// Not proved.
#[verifier::external_body]
fn purple(label: &str) -> (text: String)
    requires
        escape_free(label@),
    ensures
        renders(text@, label@, seq!['3', '5']),
{
    label.purple().to_string()
}

/// `Colorize::red` of the `colored` crate, rendered to a string: the label
/// in one of the forms of [`renders`], with the code for red. A label with
/// an escape character is left out, as for [`purple`]. Not proved.
#[verifier::external_body]
fn red(label: &str) -> (text: String)
    requires
        escape_free(label@),
    ensures
        renders(text@, label@, seq!['3', '1']),
{
    label.red().to_string()
}

/// `Colorize::yellow` of the `colored` crate, rendered to a string: the
/// label in one of the forms of [`renders`], with the code for yellow. A
/// label with an escape character is left out, as for [`purple`]. Not
/// proved.
#[verifier::external_body]
fn yellow(label: &str) -> (text: String)
    requires
        escape_free(label@),
    ensures
        renders(text@, label@, seq!['3', '3']),
{
    label.yellow().to_string()
}

/// `Colorize::green` of the `colored` crate, rendered to a string: the
/// label in one of the forms of [`renders`], with the code for green. A
/// label with an escape character is left out, as for [`purple`]. Not
/// proved.
#[verifier::external_body]
fn green(label: &str) -> (text: String)
    requires
        escape_free(label@),
    ensures
        renders(text@, label@, seq!['3', '2']),
{
    label.green().to_string()
}

/// A report line from its tag and its message.
pub fn compose(tag: &str, message: &str) -> (line: String)
    ensures
        line@ == report(tag@, message@),
{
    let mut line = tag.to_owned();
    line.push(' ');
    line.append(message);
    line
}

/// The line that reports `message` as a verbose log, if any is due.
pub fn verbose(message: &str, settings: &Settings) -> (line: Option<String>)
    ensures
        reports(line.deep_view(), Level::Verbose, message@, *settings),
{
    if settings.is_verbose {
        if settings.is_no_color {
            Some(compose("[VERBOSE]", message))
        } else {
            proof {
                reveal_strlit("[VERBOSE]");
            }
            let tag = purple("[VERBOSE]");
            Some(compose(tag.as_str(), message))
        }
    } else {
        None
    }
}

/// The line that reports `message` as an error, if any is due.
pub fn err(message: &str, settings: &Settings) -> (line: Option<String>)
    ensures
        reports(line.deep_view(), Level::Error, message@, *settings),
{
    if settings.is_verbose {
        if settings.is_no_color {
            Some(compose("[ERROR]", message))
        } else {
            proof {
                reveal_strlit("[ERROR]");
            }
            let tag = red("[ERROR]");
            Some(compose(tag.as_str(), message))
        }
    } else {
        None
    }
}

/// The line that reports `message` as a warning, if any is due.
pub fn warn(message: &str, settings: &Settings) -> (line: Option<String>)
    ensures
        reports(line.deep_view(), Level::Warning, message@, *settings),
{
    if settings.is_verbose {
        if settings.is_no_color {
            Some(compose("[WARNING]", message))
        } else {
            proof {
                reveal_strlit("[WARNING]");
            }
            let tag = yellow("[WARNING]");
            Some(compose(tag.as_str(), message))
        }
    } else {
        None
    }
}

/// The line that reports `message` as a plain log, if any is due.
pub fn log(message: &str, settings: &Settings) -> (line: Option<String>)
    ensures
        reports(line.deep_view(), Level::Log, message@, *settings),
{
    if settings.is_verbose {
        if settings.is_no_color {
            Some(compose("[LOG]", message))
        } else {
            proof {
                reveal_strlit("[LOG]");
            }
            let tag = green("[LOG]");
            Some(compose(tag.as_str(), message))
        }
    } else {
        None
    }
}

} // verus!
