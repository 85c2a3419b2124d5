//! The pager's error signals.
//!
//! Three kinds are distinguished: a terminal failure during the session, a
//! command-line usage error, and the quit signal. The quit signal is not a
//! real failure; it only shares the early-exit channel, and the top-level
//! caller converts it into a clean termination. Terminal failures are
//! carried as their rendered description, so the library stays free of any
//! device handle.

use vstd::prelude::*;
use vstd::string::StringExecFns;

verus! {

/// An early exit from the pager: a terminal failure, the quit signal, or a
/// command-line usage error.
#[derive(Debug)]
pub enum AppError {
    Crossterm(String),
    Exit,
    Cli(String),
}

/// The one-line description of each error signal.
pub open spec fn spec_message(e: AppError) -> Seq<char> {
    match e {
        AppError::Crossterm(s) => "terminal error: "@ + s@,
        AppError::Exit => "Exit With Error But It is Ok! I did It On Purpose! All Goood!"@,
        AppError::Cli(s) => "cli error: "@ + s@,
    }
}

impl AppError {
    /// Render the one-line description, exactly as [`spec_message`]
    /// states.
    pub fn message(&self) -> (r: String)
        ensures
            r@ == spec_message(*self),
    {
        match self {
            AppError::Crossterm(s) => {
                let mut m = String::from_str("terminal error: ");
                m.append(s.as_str());
                m
            },
            AppError::Exit => String::from_str(
                "Exit With Error But It is Ok! I did It On Purpose! All Goood!",
            ),
            AppError::Cli(s) => {
                let mut m = String::from_str("cli error: ");
                m.append(s.as_str());
                m
            },
        }
    }
}

} // verus!
