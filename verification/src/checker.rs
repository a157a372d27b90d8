//! Check results and their severities.

use vstd::prelude::*;

verus! {

/// Severity of a check result, from harmless to worst.
#[derive(Debug, Clone, Copy, PartialEq, Eq, PartialOrd, Ord, Structural)]
pub enum State {
    Okay,
    Warn,
    Crit,
    Unknown,
}

impl State {
    /// Position of the severity in the order `Okay < Warn < Crit < Unknown`.
    pub open spec fn rank(self) -> nat {
        match self {
            State::Okay => 0,
            State::Warn => 1,
            State::Crit => 2,
            State::Unknown => 3,
        }
    }

    /// The word that names the severity in a status line.
    pub open spec fn label(self) -> Seq<char> {
        match self {
            State::Okay => "OK"@,
            State::Warn => "WARNING"@,
            State::Crit => "CRITICAL"@,
            State::Unknown => "UNKNOWN"@,
        }
    }

    /// The marker that follows the summary of a result of this severity.
    pub open spec fn marker(self) -> Seq<char> {
        match self {
            State::Okay => ""@,
            State::Warn => " (!)"@,
            State::Crit => " (!!)"@,
            State::Unknown => " (?)"@,
        }
    }

    /// Whether `self` is at least as severe as `other`.
    pub fn at_least(self, other: State) -> (r: bool)
        ensures
            r == (self.rank() >= other.rank()),
    {
        match (self, other) {
            (_, State::Okay) => true,
            (State::Okay, _) => false,
            (_, State::Warn) => true,
            (State::Warn, _) => false,
            (_, State::Crit) => true,
            (State::Crit, _) => false,
            (State::Unknown, State::Unknown) => true,
        }
    }

    /// The word that names the severity in a status line.
    pub fn as_str(self) -> (r: &'static str)
        ensures
            r@ == self.label(),
    {
        match self {
            State::Okay => "OK",
            State::Warn => "WARNING",
            State::Crit => "CRITICAL",
            State::Unknown => "UNKNOWN",
        }
    }

    /// The marker that follows the summary of a result of this severity.
    pub fn marker_str(self) -> (r: &'static str)
        ensures
            r@ == self.marker(),
    {
        match self {
            State::Okay => "",
            State::Warn => " (!)",
            State::Crit => " (!!)",
            State::Unknown => " (?)",
        }
    }
}

/// What a check result says, as mathematical values.
pub struct CheckResultView {
    pub state: State,
    pub summary: Seq<char>,
}

impl CheckResultView {
    /// The summary followed by the marker of the severity.
    pub open spec fn text(self) -> Seq<char> {
        self.summary + self.state.marker()
    }
}

/// One finding of a check: how bad it is, and a summary that may be empty.
#[derive(Debug, Clone, PartialEq, Eq)]
pub struct CheckResult {
    pub state: State,
    pub summary: String,
}

impl View for CheckResult {
    type V = CheckResultView;

    open spec fn view(&self) -> CheckResultView {
        CheckResultView { state: self.state, summary: self.summary@ }
    }
}

impl CheckResult {
    /// The summary followed by the marker of the severity.
    pub fn to_string(&self) -> (r: String)
        ensures
            r@ == self@.text(),
    {
        let mut out = self.summary.clone();
        out.append(self.state.marker_str());
        out
    }
}

} // verus!
