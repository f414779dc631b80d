//! The contract every health check meets, and what a check reports.

use crate::error::SystemError;
use crate::info::{NixInfo, Project};
use crate::text::concat3;
use vstd::prelude::*;
use vstd::string::*;

verus! {

/// The result of a health [`Check`].
#[derive(Debug, PartialEq, Eq, Clone)]
pub enum CheckResult {
    /// The check passed.
    Green,
    /// The check failed.
    Red {
        /// What is wrong.
        msg: String,
        /// How to mend it.
        suggestion: String,
    },
}

/// A [`CheckResult`] as a mathematical value.
pub enum CheckResultView {
    Green,
    Red { msg: Seq<char>, suggestion: Seq<char> },
}

impl View for CheckResult {
    type V = CheckResultView;

    open spec fn view(&self) -> CheckResultView {
        match self {
            CheckResult::Green => CheckResultView::Green,
            CheckResult::Red { msg, suggestion } => CheckResultView::Red {
                msg: msg@,
                suggestion: suggestion@,
            },
        }
    }
}

/// Two results as one: green where both are, the red one where one is, and
/// where both are red, their messages and their suggestions, each pair
/// joined by a full stop and a space.
pub open spec fn chained(a: CheckResultView, b: CheckResultView) -> CheckResultView {
    match (a, b) {
        (CheckResultView::Green, _) => b,
        (_, CheckResultView::Green) => a,
        (
            CheckResultView::Red { msg: m1, suggestion: s1 },
            CheckResultView::Red { msg: m2, suggestion: s2 },
        ) => CheckResultView::Red { msg: m1 + ". "@ + m2, suggestion: s1 + ". "@ + s2 },
    }
}

/// Chaining with a green result changes nothing, and three results may
/// be chained in either grouping.
pub proof fn chain_laws(a: CheckResultView, b: CheckResultView, c: CheckResultView)
    ensures
        chained(CheckResultView::Green, a) == a,
        chained(a, CheckResultView::Green) == a,
        chained(chained(a, b), c) == chained(a, chained(b, c)),
        chained(a, b) is Green <==> a is Green && b is Green,
{
    if a is Red && b is Red && c is Red {
        let sep = ". "@;
        assert((a->msg + sep + b->msg) + sep + c->msg =~= a->msg + sep + (b->msg + sep + c->msg));
        assert((a->suggestion + sep + b->suggestion) + sep + c->suggestion =~= a->suggestion + sep
            + (b->suggestion + sep + c->suggestion));
    }
}

impl CheckResult {
    /// When the check is green (that is, healthy).
    pub fn green(&self) -> (r: bool)
        ensures
            r == (self@ is Green),
    {
        match self {
            CheckResult::Green => true,
            CheckResult::Red { .. } => false,
        }
    }

    /// A failure with the given message and suggestion.
    pub fn red(msg: String, suggestion: String) -> (r: CheckResult)
        ensures
            r@ == (CheckResultView::Red { msg: msg@, suggestion: suggestion@ }),
    {
        CheckResult::Red { msg, suggestion }
    }

    /// A copy of this result.
    pub fn duplicate(&self) -> (r: CheckResult)
        ensures
            r@ == self@,
    {
        match self {
            CheckResult::Green => CheckResult::Green,
            CheckResult::Red { msg, suggestion } => CheckResult::Red {
                msg: msg.clone(),
                suggestion: suggestion.clone(),
            },
        }
    }

    /// Chain another [`CheckResult`].
    pub fn chain(&self, other: Self) -> (r: Self)
        ensures
            r@ == chained(self@, other@),
    {
        match self {
            CheckResult::Green => other,
            CheckResult::Red { msg, suggestion } => match other {
                CheckResult::Green => self.duplicate(),
                CheckResult::Red { msg: msg2, suggestion: suggestion2 } => CheckResult::Red {
                    msg: concat3(msg.as_str(), ". ", msg2.as_str()),
                    suggestion: concat3(suggestion.as_str(), ". ", suggestion2.as_str()),
                },
            },
        }
    }
}

/// A health check: one aspect of one unit, evaluated.
#[derive(Debug, PartialEq, Eq, Clone)]
pub struct Check {
    /// A user-facing title of this check, unique across all checks.
    pub title: String,
    /// The user-facing information used to conduct this check.
    pub info: String,
    /// The result of running this check.
    pub result: CheckResult,
    /// Whether this check is mandatory. A failure is advisory if this is
    /// false.
    pub required: bool,
}

/// How loudly an outcome is reported.
#[derive(Debug, Clone, Copy, PartialEq, Eq)]
pub enum Level {
    /// A check that passed.
    Info,
    /// A failed check that is advisory.
    Warn,
    /// A failed check that is required.
    Error,
}

/// A [`Check`] as a mathematical value.
pub struct CheckView {
    pub title: Seq<char>,
    pub info: Seq<char>,
    pub result: CheckResultView,
    pub required: bool,
}

impl CheckView {
    /// Whether this outcome is a failure.
    pub open spec fn failed(self) -> bool {
        self.result is Red
    }

    /// How loudly this outcome is reported: a pass as information, a
    /// failure as an error where the check is required, else as a warning.
    pub open spec fn level(self) -> Level {
        if !self.failed() {
            Level::Info
        } else if self.required {
            Level::Error
        } else {
            Level::Warn
        }
    }
}

impl Check {
    /// How loudly this check is reported.
    pub fn level(&self) -> (r: Level)
        ensures
            r == self@.level(),
    {
        match &self.result {
            CheckResult::Green => Level::Info,
            CheckResult::Red { .. } => if self.required {
                Level::Error
            } else {
                Level::Warn
            },
        }
    }
}

impl View for Check {
    type V = CheckView;

    open spec fn view(&self) -> CheckView {
        CheckView {
            title: self.title@,
            info: self.info@,
            result: self.result@,
            required: self.required,
        }
    }
}

/// The outcomes held by a list of checks, in order.
pub open spec fn views(checks: Seq<Check>) -> Seq<CheckView> {
    Seq::new(checks.len(), |i: int| checks[i]@)
}

/// What evaluating a unit gave, as a mathematical value: its outcomes, or
/// the description of the fault that kept it from answering.
pub open spec fn evaluation(r: Result<Vec<Check>, SystemError>) -> Result<Seq<CheckView>, Seq<char>> {
    match r {
        Ok(checks) => Ok(views(checks@)),
        Err(fault) => Err(fault.message@),
    }
}

/// Types that can do a specific health check.
pub trait Checkable {
    /// Whether the unit is switched on.
    spec fn enabled(&self) -> bool;

    /// Whether a failure of this unit fails the run.
    spec fn severity(&self) -> bool;

    /// The title that the unit goes by.
    spec fn identity(&self) -> Seq<char>;

    /// What the unit reports on a snapshot and an optional project: no
    /// outcome where it does not apply, one outcome for each aspect it
    /// looked at, or the fault that kept it from answering.
    spec fn outcomes(&self, nix_info: &NixInfo, project: Option<&Project>) -> Result<
        Seq<CheckView>,
        Seq<char>,
    >;

    /// The title that the unit goes by.
    fn name(&self) -> (r: String)
        ensures
            r@ == self.identity(),
    ;

    /// Whether a failure of this unit fails the run.
    fn is_required(&self) -> (r: bool)
        ensures
            r == self.severity(),
    ;

    /// Run the health check.
    fn check(&self, nix_info: &NixInfo, project: Option<&Project>) -> (r: Result<
        Vec<Check>,
        SystemError,
    >)
        ensures
            evaluation(r) == self.outcomes(nix_info, project),
    ;

    /// Each outcome carries the severity of the unit that reports it.
    proof fn outcomes_carry_severity(&self, nix_info: &NixInfo, project: Option<&Project>)
        ensures
            self.outcomes(nix_info, project) matches Ok(all) ==> forall|i: int|
                0 <= i < all.len() ==> (#[trigger] all[i]).required == self.severity(),
    ;

    /// A unit that is switched off reports nothing, whatever the snapshot
    /// and the project are.
    proof fn disabled_is_silent(&self, nix_info: &NixInfo, project: Option<&Project>)
        requires
            !self.enabled(),
        ensures
            self.outcomes(nix_info, project) == Ok::<Seq<CheckView>, Seq<char>>(Seq::empty()),
    ;
}

} // verus!
