//! The one error taxonomy into which every failure of a run is mapped.

use vstd::prelude::*;

verus! {

/// What went wrong while a command ran.
#[derive(Debug, PartialEq, Eq)]
pub enum RunnerErrorKind {
    /// A failure surfaced by the automation session or one of its elements.
    BackendError(String),
    /// An assertion observed `lhs` where `rhs` was expected.
    AssertFailed { lhs: String, rhs: String },
    /// A poll-wait command did not see its condition before the deadline;
    /// carries the command's name.
    Timeout(String),
    /// A variable name with no binding was referenced.
    NoSuchValue(String),
}

/// The mathematical value of a [`RunnerErrorKind`].
pub enum ErrorView {
    BackendError(Seq<char>),
    AssertFailed { lhs: Seq<char>, rhs: Seq<char> },
    Timeout(Seq<char>),
    NoSuchValue(Seq<char>),
}

impl View for RunnerErrorKind {
    type V = ErrorView;

    open spec fn view(&self) -> ErrorView {
        match self {
            RunnerErrorKind::BackendError(s) => ErrorView::BackendError(s@),
            RunnerErrorKind::AssertFailed { lhs, rhs } => ErrorView::AssertFailed {
                lhs: lhs@,
                rhs: rhs@,
            },
            RunnerErrorKind::Timeout(s) => ErrorView::Timeout(s@),
            RunnerErrorKind::NoSuchValue(s) => ErrorView::NoSuchValue(s@),
        }
    }
}

impl Clone for RunnerErrorKind {
    fn clone(&self) -> (r: Self)
        ensures
            r@ == self@,
    {
        match self {
            RunnerErrorKind::BackendError(s) => RunnerErrorKind::BackendError(s.clone()),
            RunnerErrorKind::AssertFailed { lhs, rhs } => RunnerErrorKind::AssertFailed {
                lhs: lhs.clone(),
                rhs: rhs.clone(),
            },
            RunnerErrorKind::Timeout(s) => RunnerErrorKind::Timeout(s.clone()),
            RunnerErrorKind::NoSuchValue(s) => RunnerErrorKind::NoSuchValue(s.clone()),
        }
    }
}

/// The view of an outcome: unit on success, the error's view on failure.
pub open spec fn outcome_view(r: Result<(), RunnerErrorKind>) -> Result<(), ErrorView> {
    match r {
        Ok(_) => Ok(()),
        Err(e) => Err(e@),
    }
}

impl RunnerErrorKind {
    /// The short name of the kind of error, as shown to a user.
    pub fn kind_name(&self) -> (r: &'static str)
        ensures
            r@ == (match self@ {
                ErrorView::BackendError(_) => "BackendError"@,
                ErrorView::AssertFailed { .. } => "AssertFailed"@,
                ErrorView::Timeout(_) => "Timeout"@,
                ErrorView::NoSuchValue(_) => "NoSuchValue"@,
            }),
    {
        match self {
            RunnerErrorKind::BackendError(_) => "BackendError",
            RunnerErrorKind::AssertFailed { .. } => "AssertFailed",
            RunnerErrorKind::Timeout(_) => "Timeout",
            RunnerErrorKind::NoSuchValue(_) => "NoSuchValue",
        }
    }
}

} // verus!
