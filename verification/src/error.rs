//! The library's error type. Every failure is reported at construction time;
//! evaluation itself never fails.

use vstd::prelude::*;
use vstd::string::StringExecFns;

verus! {

/// A failure reported by the library, with a human-readable detail text.
#[derive(Debug)]
#[verifier::ext_equal]
pub enum Error {
    /// A configuration value could not be used.
    Config(String),
    /// A rule could not be built (missing pattern or replacement, bad regex).
    Rule(String),
    /// A shell-level operation failed.
    Shell(String),
    /// Approximate matching failed.
    FuzzyMatch(String),
    /// A command line could not be parsed.
    CommandParse(String),
    /// Evaluation produced no correction.
    NoCorrections,
    /// Any other failure.
    Other(String),
}

impl Error {
    /// The display text of this error: a fixed prefix naming the failure
    /// kind, followed by the detail message.
    pub open spec fn spec_message(&self) -> Seq<char> {
        match self {
            Error::Config(m) => "Configuration error: "@ + m@,
            Error::Rule(m) => "Rule error: "@ + m@,
            Error::Shell(m) => "Shell error: "@ + m@,
            Error::FuzzyMatch(m) => "Fuzzy matching error: "@ + m@,
            Error::CommandParse(m) => "Command parsing error: "@ + m@,
            Error::NoCorrections => "No corrections found"@,
            Error::Other(m) => "Error: "@ + m@,
        }
    }

    /// Renders the error as text.
    pub fn message(&self) -> (r: String)
        ensures
            r@ == self.spec_message(),
    {
        match self {
            Error::Config(m) => {
                let mut s = String::from_str("Configuration error: ");
                s.append(m.as_str());
                s
            },
            Error::Rule(m) => {
                let mut s = String::from_str("Rule error: ");
                s.append(m.as_str());
                s
            },
            Error::Shell(m) => {
                let mut s = String::from_str("Shell error: ");
                s.append(m.as_str());
                s
            },
            Error::FuzzyMatch(m) => {
                let mut s = String::from_str("Fuzzy matching error: ");
                s.append(m.as_str());
                s
            },
            Error::CommandParse(m) => {
                let mut s = String::from_str("Command parsing error: ");
                s.append(m.as_str());
                s
            },
            Error::NoCorrections => String::from_str("No corrections found"),
            Error::Other(m) => {
                let mut s = String::from_str("Error: ");
                s.append(m.as_str());
                s
            },
        }
    }

    /// Builds a configuration error.
    pub fn config(msg: &str) -> (r: Error)
        ensures
            r matches Error::Config(m) && m@ == msg@,
    {
        Error::Config(String::from_str(msg))
    }

    /// Builds a rule error.
    pub fn rule(msg: &str) -> (r: Error)
        ensures
            r matches Error::Rule(m) && m@ == msg@,
    {
        Error::Rule(String::from_str(msg))
    }

    /// Builds a shell error.
    pub fn shell(msg: &str) -> (r: Error)
        ensures
            r matches Error::Shell(m) && m@ == msg@,
    {
        Error::Shell(String::from_str(msg))
    }

    /// Builds an approximate-matching error.
    pub fn fuzzy_match(msg: &str) -> (r: Error)
        ensures
            r matches Error::FuzzyMatch(m) && m@ == msg@,
    {
        Error::FuzzyMatch(String::from_str(msg))
    }

    /// Builds a command-parsing error.
    pub fn command_parse(msg: &str) -> (r: Error)
        ensures
            r matches Error::CommandParse(m) && m@ == msg@,
    {
        Error::CommandParse(String::from_str(msg))
    }
}

} // verus!
