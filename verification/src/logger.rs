//! Severities of log lines, and how each is labelled.

use vstd::prelude::*;

verus! {

/// A text with colours and styles attached, of the `colored` crate.
#[verifier::external_type_specification]
#[verifier::external_body]
pub struct ExColoredString(colored::ColoredString);

/// The severity of a log line.
#[derive(Debug, Clone, Copy, PartialEq, Eq, Structural)]
pub enum LogType {
    Success,
    Failure,
    Warning,
}

/// The foreground colours that labels are printed in.
#[derive(Debug, Clone, Copy, PartialEq, Eq, Structural)]
pub enum Tint {
    Green,
    Red,
    Yellow,
}

/// The plain text that a coloured string holds.
pub uninterp spec fn colored_text(label: colored::ColoredString) -> Seq<char>;

/// The foreground colour that a coloured string holds, where it is one of
/// the three that labels use.
pub uninterp spec fn colored_tint(label: colored::ColoredString) -> Option<Tint>;

/// `Colorize::green` on a `&str`: a coloured string that holds the text with
/// green as its foreground.
#[verifier::external_body]
fn green(text: &str) -> (label: colored::ColoredString)
    ensures
        colored_text(label) == text@,
        colored_tint(label) == Some(Tint::Green),
{
    colored::Colorize::green(text)
}

/// `Colorize::red` on a `&str`: a coloured string that holds the text with
/// red as its foreground.
#[verifier::external_body]
fn red(text: &str) -> (label: colored::ColoredString)
    ensures
        colored_text(label) == text@,
        colored_tint(label) == Some(Tint::Red),
{
    colored::Colorize::red(text)
}

/// `Colorize::yellow` on a `&str`: a coloured string that holds the text
/// with yellow as its foreground.
#[verifier::external_body]
fn yellow(text: &str) -> (label: colored::ColoredString)
    ensures
        colored_text(label) == text@,
        colored_tint(label) == Some(Tint::Yellow),
{
    colored::Colorize::yellow(text)
}

/// The label of a severity.
pub open spec fn label_of(log_type: LogType) -> Seq<char> {
    match log_type {
        LogType::Success => "SUCCESS"@,
        LogType::Failure => "FAILURE"@,
        LogType::Warning => "WARNING"@,
    }
}

/// The colour of a severity.
pub open spec fn tint_of(log_type: LogType) -> Tint {
    match log_type {
        LogType::Success => Tint::Green,
        LogType::Failure => Tint::Red,
        LogType::Warning => Tint::Yellow,
    }
}

impl LogType {
    /// The label of this severity.
    pub fn as_str(self) -> (label: &'static str)
        ensures
            label@ == label_of(self),
    {
        match self {
            LogType::Success => "SUCCESS",
            LogType::Failure => "FAILURE",
            LogType::Warning => "WARNING",
        }
    }

    /// The label of this severity in its colour.
    pub fn colored(self) -> (label: colored::ColoredString)
        ensures
            colored_text(label) == label_of(self),
            colored_tint(label) == Some(tint_of(self)),
    {
        match self {
            LogType::Success => green(self.as_str()),
            LogType::Failure => red(self.as_str()),
            LogType::Warning => yellow(self.as_str()),
        }
    }
}

} // verus!
