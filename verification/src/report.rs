//! A health report with or without details.

use vstd::prelude::*;

verus! {

/// Health report.
///
/// For the bare indicator, use `Report<NoDetails>`; for the report with
/// what is wrong, use `Report<WithDetails>`.
#[derive(Debug, PartialEq, PartialOrd, Eq, Ord, Clone)]
pub enum Report<T> {
    /// Everything is fine.
    Pass,
    /// Something is wrong; `T` holds what.
    Fail(T),
}

/// The absence of details.
#[derive(Debug, PartialEq, PartialOrd, Eq, Ord, Clone)]
pub struct NoDetails;

impl<R> Report<R> {
    /// Whether the report is a pass.
    pub fn is_green(&self) -> (r: bool)
        ensures
            r == (self is Pass),
    {
        match self {
            Report::Pass => true,
            Report::Fail(_) => false,
        }
    }

    /// Whether the report is a failure.
    pub fn is_red(&self) -> (r: bool)
        ensures
            r == (self is Fail),
    {
        !self.is_green()
    }
}

/// Details regarding a failed report.
#[derive(Debug, PartialEq, PartialOrd, Eq, Ord, Clone)]
pub struct WithDetails {
    /// A short message describing the problem.
    pub msg: String,
    /// A suggestion for how to fix the problem.
    pub suggestion: String,
}

/// The message and the suggestion of optional details.
pub open spec fn details_of(details: Option<WithDetails>) -> Option<(Seq<char>, Seq<char>)> {
    match details {
        Some(d) => Some((d.msg@, d.suggestion@)),
        None => None,
    }
}

impl Report<WithDetails> {
    /// The message and the suggestion of a failure.
    pub open spec fn details(&self) -> Option<(Seq<char>, Seq<char>)> {
        match self {
            Report::Pass => None,
            Report::Fail(d) => Some((d.msg@, d.suggestion@)),
        }
    }

    /// Return the report without the details.
    pub fn without_details(&self) -> (r: Report<NoDetails>)
        ensures
            (r is Pass) == (self is Pass),
            (r is Fail) == (self is Fail),
    {
        match self {
            Report::Pass => Report::Pass,
            Report::Fail(_) => Report::Fail(NoDetails),
        }
    }

    /// Return the problem details if there is one.
    pub fn get_red_details(&self) -> (r: Option<WithDetails>)
        ensures
            details_of(r) == self.details(),
    {
        match self {
            Report::Pass => None,
            Report::Fail(details) => Some(
                WithDetails { msg: details.msg.clone(), suggestion: details.suggestion.clone() },
            ),
        }
    }
}

} // verus!
