//! The log line that reports how a run ended.
use crate::error::{LoadError, Outcome};
use vstd::prelude::*;
use vstd::string::*;

verus! {

/// How loudly a line is logged.
#[derive(Debug, PartialEq, Eq, Structural)]
pub enum Severity {
    Info,
    Error,
}

/// One line for the log.
#[derive(Debug)]
pub struct LogEntry {
    pub severity: Severity,
    pub message: String,
}

/// The character of one decimal digit.
pub open spec fn digit_char(d: nat) -> char {
    if d == 0 { '0' }
    else if d == 1 { '1' }
    else if d == 2 { '2' }
    else if d == 3 { '3' }
    else if d == 4 { '4' }
    else if d == 5 { '5' }
    else if d == 6 { '6' }
    else if d == 7 { '7' }
    else if d == 8 { '8' }
    else { '9' }
}

/// `n` written in decimal, without leading zeros.
pub open spec fn decimal(n: nat) -> Seq<char>
    decreases n,
{
    if n < 10 {
        seq![digit_char(n)]
    } else {
        decimal(n / 10).push(digit_char(n % 10))
    }
}

/// Appends the digit `d` to `s`.
fn push_digit(s: &mut String, d: usize)
    requires
        d < 10,
    ensures
        final(s)@ == old(s)@.push(digit_char(d as nat)),
{
    proof {
        reveal_strlit("0");
        reveal_strlit("1");
        reveal_strlit("2");
        reveal_strlit("3");
        reveal_strlit("4");
        reveal_strlit("5");
        reveal_strlit("6");
        reveal_strlit("7");
        reveal_strlit("8");
        reveal_strlit("9");
    }
    let t = if d == 0 { "0" }
    else if d == 1 { "1" }
    else if d == 2 { "2" }
    else if d == 3 { "3" }
    else if d == 4 { "4" }
    else if d == 5 { "5" }
    else if d == 6 { "6" }
    else if d == 7 { "7" }
    else if d == 8 { "8" }
    else { "9" };
    s.append(t);
    assert(final(s)@ =~= old(s)@.push(digit_char(d as nat)));
}

/// Appends `n` in decimal to `s`.
pub fn append_decimal(s: &mut String, n: usize)
    ensures
        final(s)@ == old(s)@ + decimal(n as nat),
    decreases n,
{
    if n >= 10 {
        append_decimal(s, n / 10);
    }
    push_digit(s, n % 10);
    assert(final(s)@ =~= old(s)@ + decimal(n as nat));
}

/// What a load failure says.
pub open spec fn load_error_text(e: LoadError) -> Seq<char> {
    match e {
        LoadError::NotFound => "File does not exist"@,
        LoadError::UnsupportedFormat => "File is not a json file"@,
        LoadError::OpenFailure(c) => "Failed to open file: "@ + c@,
        LoadError::ReadFailure(c) => "Failed to read file: "@ + c@,
        LoadError::DecodeFailure(m) => "Failed to deserialize JSON: "@ + m@,
    }
}

impl LoadError {
    /// A readable account of the failure, with its cause where it has one.
    pub fn message(&self) -> (r: String)
        ensures
            r@ == load_error_text(*self),
    {
        match self {
            LoadError::NotFound => String::from_str("File does not exist"),
            LoadError::UnsupportedFormat => String::from_str("File is not a json file"),
            LoadError::OpenFailure(c) => String::from_str("Failed to open file: ").concat(c.as_str()),
            LoadError::ReadFailure(c) => String::from_str("Failed to read file: ").concat(c.as_str()),
            LoadError::DecodeFailure(m) => String::from_str("Failed to deserialize JSON: ").concat(
                m.as_str(),
            ),
        }
    }
}

/// The line that reports `outcome` for a run on `path`: nothing for a
/// disabled run, one error line for each failure, one info line with the
/// path and the count on success.
pub open spec fn report_spec(outcome: Outcome, path: Seq<char>) -> Option<(Severity, Seq<char>)> {
    match outcome {
        Outcome::Disabled => None,
        Outcome::LoadFailed(e) => Some(
            (Severity::Error, "Failed to load policies from file: "@ + load_error_text(e)),
        ),
        Outcome::ApplyFailed(e) => Some((Severity::Error, "Failed to update policies: "@ + e.message@)),
        Outcome::Applied(n) => Some(
            (
                Severity::Info,
                "Successfully updated policies from file "@ + path + ": "@ + decimal(n as nat)
                    + " policies"@,
            ),
        ),
    }
}

/// The log line for `outcome` on `path`, if the outcome is logged.
pub fn report(outcome: &Outcome, path: &str) -> (r: Option<LogEntry>)
    ensures
        match report_spec(*outcome, path@) {
            None => r is None,
            Some((sev, text)) => r matches Some(l) && l.severity == sev && l.message@ == text,
        },
{
    match outcome {
        Outcome::Disabled => None,
        Outcome::LoadFailed(e) => {
            let m = e.message();
            let text = String::from_str("Failed to load policies from file: ").concat(m.as_str());
            Some(LogEntry { severity: Severity::Error, message: text })
        },
        Outcome::ApplyFailed(e) => {
            let text = String::from_str("Failed to update policies: ").concat(e.message.as_str());
            Some(LogEntry { severity: Severity::Error, message: text })
        },
        Outcome::Applied(n) => {
            let mut text = String::from_str("Successfully updated policies from file ").concat(path);
            text.append(": ");
            append_decimal(&mut text, *n);
            text.append(" policies");
            Some(LogEntry { severity: Severity::Info, message: text })
        },
    }
}


/// A run is logged at error severity exactly when it failed, and it is not
/// logged at all exactly when it was disabled; each run gives at most one line.
pub proof fn lemma_report_severity(outcome: Outcome, path: Seq<char>)
    ensures
        report_spec(outcome, path) is None <==> outcome is Disabled,
        outcome.is_error() <==> report_spec(outcome, path) matches Some((Severity::Error, _)),
        outcome is Applied <==> report_spec(outcome, path) matches Some((Severity::Info, _)),
{
}

} // verus!
