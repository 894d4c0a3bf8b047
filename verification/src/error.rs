//! The failures of a run, and their wording.

use vstd::prelude::*;
use vstd::string::StringExecFns;

verus! {

/// Everything that can end a run early. No kind is ever retried, and each has
/// a wording of its own so that an operator can tell the causes apart.
#[derive(Debug, Clone, PartialEq, Eq)]
pub enum SgrepError {
    /// No authentication token is available.
    MissingCredential,
    /// The call to the translation service could not be completed.
    TransportFailure { cause: String },
    /// The service answered, but with nothing that could be a pattern.
    EmptyTranslation,
    /// The translated text is not a valid pattern; `diagnostic` is what the
    /// matching engine said about it.
    PatternCompileError { diagnostic: String },
    /// A line of the input could not be read. `position` counts lines from
    /// one and is `None` when the count no longer fits the counter.
    LineReadError { position: Option<u64>, cause: String },
}

/// The text of one decimal digit.
pub open spec fn digit_text(d: nat) -> Seq<char> {
    if d == 0 {
        "0"@
    } else if d == 1 {
        "1"@
    } else if d == 2 {
        "2"@
    } else if d == 3 {
        "3"@
    } else if d == 4 {
        "4"@
    } else if d == 5 {
        "5"@
    } else if d == 6 {
        "6"@
    } else if d == 7 {
        "7"@
    } else if d == 8 {
        "8"@
    } else {
        "9"@
    }
}

/// A natural number written in base ten, without leading zeros.
pub open spec fn decimal_text(n: nat) -> Seq<char>
    decreases n,
{
    if n < 10 {
        digit_text(n)
    } else {
        decimal_text(n / 10) + digit_text(n % 10)
    }
}

/// Where in the input a failed read happened, in words.
pub open spec fn position_text(position: Option<u64>) -> Seq<char> {
    match position {
        Some(n) => "line "@ + decimal_text(n as nat),
        None => "a line beyond the counter's range"@,
    }
}

/// The human-readable wording of an error.
pub open spec fn message_text(e: SgrepError) -> Seq<char> {
    match e {
        SgrepError::MissingCredential => "no authentication token is available"@,
        SgrepError::TransportFailure { cause } => "the translation request failed: "@ + cause@,
        SgrepError::EmptyTranslation => "the translation service returned no pattern"@,
        SgrepError::PatternCompileError { diagnostic } => "the translated pattern does not compile: "@
            + diagnostic@,
        SgrepError::LineReadError { position, cause } => "cannot read "@ + position_text(position)
            + ": "@ + cause@,
    }
}

fn digit_str(d: u64) -> (s: &'static str)
    requires
        d < 10,
    ensures
        s@ == digit_text(d as nat),
{
    if d == 0 {
        "0"
    } else if d == 1 {
        "1"
    } else if d == 2 {
        "2"
    } else if d == 3 {
        "3"
    } else if d == 4 {
        "4"
    } else if d == 5 {
        "5"
    } else if d == 6 {
        "6"
    } else if d == 7 {
        "7"
    } else if d == 8 {
        "8"
    } else {
        "9"
    }
}

/// Writes a number in base ten.
pub fn decimal_string(n: u64) -> (s: String)
    ensures
        s@ == decimal_text(n as nat),
    decreases n,
{
    if n < 10 {
        String::from_str(digit_str(n))
    } else {
        let mut s = decimal_string(n / 10);
        s.append(digit_str(n % 10));
        s
    }
}

impl SgrepError {
    /// The wording shown to the operator.
    pub fn message(&self) -> (s: String)
        ensures
            s@ == message_text(*self),
    {
        match self {
            SgrepError::MissingCredential => String::from_str(
                "no authentication token is available",
            ),
            SgrepError::TransportFailure { cause } => {
                let mut s = String::from_str("the translation request failed: ");
                s.append(cause.as_str());
                s
            },
            SgrepError::EmptyTranslation => String::from_str(
                "the translation service returned no pattern",
            ),
            SgrepError::PatternCompileError { diagnostic } => {
                let mut s = String::from_str("the translated pattern does not compile: ");
                s.append(diagnostic.as_str());
                s
            },
            SgrepError::LineReadError { position, cause } => {
                let mut s = String::from_str("cannot read ");
                match position {
                    Some(n) => {
                        s.append("line ");
                        let digits = decimal_string(*n);
                        s.append(digits.as_str());
                    },
                    None => {
                        s.append("a line beyond the counter's range");
                    },
                }
                s.append(": ");
                s.append(cause.as_str());
                s
            },
        }
    }
}

/// The status with which the process ends: zero after a run that reached the
/// end of its input, one after any error.
pub fn exit_status(outcome: &Result<(), SgrepError>) -> (code: i32)
    ensures
        outcome is Ok ==> code == 0,
        outcome is Err ==> code == 1,
{
    match outcome {
        Ok(_) => 0,
        Err(_) => 1,
    }
}

} // verus!
