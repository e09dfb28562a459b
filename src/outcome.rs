//! The outcome of one test run, as shown to the developer.
use vstd::prelude::*;

verus! {

/// Which of the three recognised results a run had.
#[derive(Clone, Copy, Debug, PartialEq, Eq, Structural)]
pub enum OutcomeKind {
    TestsPassed,
    TestsFailed,
    CompileError,
}

/// A classified test run, with the excerpt of output that was recognised.
#[derive(Debug, PartialEq, Eq)]
pub enum Outcome {
    TestsPassed(String),
    TestsFailed(String),
    CompileError(String),
}

impl Outcome {
    pub open spec fn spec_kind(&self) -> OutcomeKind {
        match self {
            Outcome::TestsPassed(_) => OutcomeKind::TestsPassed,
            Outcome::TestsFailed(_) => OutcomeKind::TestsFailed,
            Outcome::CompileError(_) => OutcomeKind::CompileError,
        }
    }

    pub open spec fn spec_detail(&self) -> Seq<char> {
        match self {
            Outcome::TestsPassed(d) => d@,
            Outcome::TestsFailed(d) => d@,
            Outcome::CompileError(d) => d@,
        }
    }

    /// Builds the outcome of the given kind around `detail`.
    pub fn from_kind(kind: OutcomeKind, detail: String) -> (r: Outcome)
        ensures
            r.spec_kind() == kind,
            r.spec_detail() == detail@,
    {
        match kind {
            OutcomeKind::TestsPassed => Outcome::TestsPassed(detail),
            OutcomeKind::TestsFailed => Outcome::TestsFailed(detail),
            OutcomeKind::CompileError => Outcome::CompileError(detail),
        }
    }

    pub fn kind(&self) -> (r: OutcomeKind)
        ensures
            r == self.spec_kind(),
    {
        match self {
            Outcome::TestsPassed(_) => OutcomeKind::TestsPassed,
            Outcome::TestsFailed(_) => OutcomeKind::TestsFailed,
            Outcome::CompileError(_) => OutcomeKind::CompileError,
        }
    }

    /// The recognised line of output that this outcome was read from.
    pub fn detail(&self) -> (r: &str)
        ensures
            r@ == self.spec_detail(),
    {
        match self {
            Outcome::TestsPassed(d) => d.as_str(),
            Outcome::TestsFailed(d) => d.as_str(),
            Outcome::CompileError(d) => d.as_str(),
        }
    }
}

/// The headline of the notification for an outcome of kind `kind`.
pub open spec fn title_of(kind: OutcomeKind) -> Seq<char> {
    match kind {
        OutcomeKind::TestsPassed => "Tests passed"@,
        OutcomeKind::TestsFailed => "Tests failed"@,
        OutcomeKind::CompileError => "Compilation failed"@,
    }
}

/// The freedesktop icon of the notification for an outcome of kind `kind`: a
/// content face for a pass, an angry one otherwise.
pub open spec fn icon_of(kind: OutcomeKind) -> Seq<char> {
    match kind {
        OutcomeKind::TestsPassed => "face-angel"@,
        _ => "face-angry"@,
    }
}

impl Outcome {
    pub fn title(&self) -> (r: &'static str)
        ensures
            r@ == title_of(self.spec_kind()),
    {
        match self {
            Outcome::TestsPassed(_) => "Tests passed",
            Outcome::TestsFailed(_) => "Tests failed",
            Outcome::CompileError(_) => "Compilation failed",
        }
    }

    pub fn icon(&self) -> (r: &'static str)
        ensures
            r@ == icon_of(self.spec_kind()),
    {
        match self {
            Outcome::TestsPassed(_) => "face-angel",
            _ => "face-angry",
        }
    }
}

} // verus!
