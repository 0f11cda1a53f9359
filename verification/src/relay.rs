//! Recovering the exit status that the worker left behind after a request.

use vstd::prelude::*;
use vstd::string::*;
use crate::decimal::{integer_of, parse_bounded};

verus! {

/// How an exchange with the worker ended.
#[derive(Clone, Copy, PartialEq, Eq, Structural, Debug)]
pub enum Outcome {
    /// The worker reported this exit status.
    Reported(i32),
    /// The worker left no readable status behind.
    Unreported,
}

/// The exit status written in `content`: the integer it denotes, provided
/// that it fits in 32 bits.
pub open spec fn status_of(content: Seq<char>) -> Option<i32> {
    match integer_of(content) {
        Some(v) => if i32::MIN <= v <= i32::MAX {
            Some(v as i32)
        } else {
            None
        },
        None => None,
    }
}

/// The outcome of an exchange after which the status file held `content`,
/// or was absent.
pub open spec fn outcome_of(content: Option<Seq<char>>) -> Outcome {
    match content {
        Some(c) => match status_of(c) {
            Some(code) => Outcome::Reported(code),
            None => Outcome::Unreported,
        },
        None => Outcome::Unreported,
    }
}

/// Parses the content of a status file.
///
/// Succeeds exactly on an optional sign followed by digits that denote a
/// 32-bit integer; surrounding white space is not accepted.
pub fn parse_status(content: &str) -> (r: Option<i32>)
    ensures
        r == status_of(content@),
{
    let n: usize = content.unicode_len();
    if n == 0 {
        return None;
    }
    let first = content.get_char(0);
    if first == '-' {
        match parse_bounded(content.substring_char(1, n), 2147483648) {
            Some(m) => Some((-(m as i64)) as i32),
            None => None,
        }
    } else if first == '+' {
        match parse_bounded(content.substring_char(1, n), 2147483647) {
            Some(m) => Some(m as i32),
            None => None,
        }
    } else {
        match parse_bounded(content, 2147483647) {
            Some(m) => Some(m as i32),
            None => None,
        }
    }
}

/// Decides how the launcher ends, given what the status file held once the
/// worker had closed the connection (`None` where the file was absent).
pub fn exit_with_status(status: Option<&str>) -> (o: Outcome)
    ensures
        o == outcome_of(
            match status {
                Some(s) => Some(s@),
                None => None,
            },
        ),
{
    match status {
        Some(content) => match parse_status(content) {
            Some(code) => Outcome::Reported(code),
            None => Outcome::Unreported,
        },
        None => Outcome::Unreported,
    }
}

impl Outcome {
    /// The exit code of the launcher: the reported status itself, or 1.
    pub open spec fn spec_exit_code(self) -> i32 {
        match self {
            Outcome::Reported(code) => code,
            Outcome::Unreported => 1,
        }
    }

    /// The exit code with which the launcher terminates.
    #[verifier::when_used_as_spec(spec_exit_code)]
    pub fn exit_code(self) -> (code: i32)
        ensures
            code == self.spec_exit_code(),
    {
        match self {
            Outcome::Reported(code) => code,
            Outcome::Unreported => 1,
        }
    }

    /// The message for the error stream, where there is one.
    pub fn diagnostic(&self) -> (msg: Option<String>)
        ensures
            msg is Some <==> *self is Unreported,
            msg matches Some(m) ==> m@ == missing_status_message(),
    {
        match self {
            Outcome::Reported(_) => None,
            Outcome::Unreported => Some(
                String::from_str(
                    "rubocop-daemon-wrapper: server did not write status to $STATUS_PATH!",
                ),
            ),
        }
    }
}

/// The text reported when the worker left no readable status.
pub open spec fn missing_status_message() -> Seq<char> {
    "rubocop-daemon-wrapper: server did not write status to $STATUS_PATH!"@
}

} // verus!
