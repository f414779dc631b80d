//! The verdict of a run: all the outcomes folded into one of three values.

use crate::traits::{views, Check, CheckResult, CheckView, Level};
use vstd::prelude::*;

verus! {

/// The verdict over all the checks of a run.
#[derive(Debug, Clone, Copy, PartialEq, Eq)]
pub enum AllChecksResult {
    /// Every check passed.
    Pass,
    /// Every required check passed, but some other check failed.
    PassSomeFail,
    /// Some required check failed.
    Fail,
}

impl AllChecksResult {
    /// The verdict after one more failure, of a required check or not. A
    /// required failure always gives `Fail`; another failure turns `Pass`
    /// into `PassSomeFail` and leaves the rest as it is.
    pub open spec fn with_failure(self, required: bool) -> AllChecksResult {
        if required {
            AllChecksResult::Fail
        } else if self is Pass {
            AllChecksResult::PassSomeFail
        } else {
            self
        }
    }

    /// The verdict after one more outcome: a pass changes nothing.
    pub open spec fn with_outcome(self, outcome: CheckView) -> AllChecksResult {
        if outcome.failed() {
            self.with_failure(outcome.required)
        } else {
            self
        }
    }

    /// The exit code of a process that ends a run so: 1 for `Fail`,
    /// else 0.
    pub open spec fn exit_code(self) -> int {
        match self {
            AllChecksResult::Pass => 0,
            AllChecksResult::PassSomeFail => 0,
            AllChecksResult::Fail => 1,
        }
    }

    /// The verdict of a run before any outcome.
    pub fn new() -> (r: Self)
        ensures
            r == AllChecksResult::Pass,
    {
        AllChecksResult::Pass
    }

    /// Takes note of a failed check.
    pub fn register_failure(&mut self, required: bool)
        ensures
            *final(self) == old(self).with_failure(required),
    {
        if required {
            *self = AllChecksResult::Fail;
        } else if matches!(self, AllChecksResult::Pass) {
            *self = AllChecksResult::PassSomeFail;
        }
    }

    /// The exit code for this verdict.
    pub fn report(self) -> (r: i32)
        ensures
            r == self.exit_code(),
    {
        match self {
            AllChecksResult::Pass => 0,
            AllChecksResult::PassSomeFail => 0,
            AllChecksResult::Fail => 1,
        }
    }

    /// How loudly the summary of the run is reported.
    pub open spec fn summary_level(self) -> Level {
        match self {
            AllChecksResult::Pass => Level::Info,
            AllChecksResult::PassSomeFail => Level::Warn,
            AllChecksResult::Fail => Level::Error,
        }
    }

    /// How loudly the summary of the run is reported.
    pub fn level(self) -> (r: Level)
        ensures
            r == self.summary_level(),
    {
        match self {
            AllChecksResult::Pass => Level::Info,
            AllChecksResult::PassSomeFail => Level::Warn,
            AllChecksResult::Fail => Level::Error,
        }
    }

    /// The one line that sums up a run with this verdict.
    pub open spec fn summary_text(self) -> Seq<char> {
        match self {
            AllChecksResult::Pass => "All checks passed"@,
            AllChecksResult::PassSomeFail =>
                "Required checks passed, but some non-required checks failed"@,
            AllChecksResult::Fail => "Some required checks failed"@,
        }
    }

    /// The one line that sums up a run with this verdict.
    pub fn summary(self) -> (r: &'static str)
        ensures
            r@ == self.summary_text(),
    {
        match self {
            AllChecksResult::Pass => "All checks passed",
            AllChecksResult::PassSomeFail =>
                "Required checks passed, but some non-required checks failed",
            AllChecksResult::Fail => "Some required checks failed",
        }
    }
}

/// Whether one of the first `n` outcomes is a failure of a required check.
pub open spec fn required_failure_in(outcomes: Seq<CheckView>, n: int) -> bool {
    exists|i: int| 0 <= i < n && (#[trigger] outcomes[i]).failed() && outcomes[i].required
}

/// Whether one of the first `n` outcomes is a failure.
pub open spec fn failure_in(outcomes: Seq<CheckView>, n: int) -> bool {
    exists|i: int| 0 <= i < n && (#[trigger] outcomes[i]).failed()
}

/// The verdict over the first `n` outcomes.
pub open spec fn aggregate_first(outcomes: Seq<CheckView>, n: int) -> AllChecksResult {
    if required_failure_in(outcomes, n) {
        AllChecksResult::Fail
    } else if failure_in(outcomes, n) {
        AllChecksResult::PassSomeFail
    } else {
        AllChecksResult::Pass
    }
}

/// The verdict of a run: `Fail` where a required check failed, else
/// `PassSomeFail` where any check failed, else `Pass`.
pub open spec fn aggregate(outcomes: Seq<CheckView>) -> AllChecksResult {
    aggregate_first(outcomes, outcomes.len() as int)
}

/// The verdict reached by taking the outcomes one after the other,
/// starting from `Pass`.
pub open spec fn folded(outcomes: Seq<CheckView>) -> AllChecksResult
    decreases outcomes.len(),
{
    if outcomes.len() == 0 {
        AllChecksResult::Pass
    } else {
        folded(outcomes.drop_last()).with_outcome(outcomes.last())
    }
}

/// Folds the outcomes of a run into its verdict.
pub fn aggregate_checks(checks: &[Check]) -> (r: AllChecksResult)
    ensures
        r == aggregate(views(checks@)),
{
    let mut res = AllChecksResult::new();
    let mut i: usize = 0;
    while i < checks.len()
        invariant
            i <= checks.len(),
            res == aggregate_first(views(checks@), i as int),
        decreases checks.len() - i,
    {
        let ghost before = res;
        match &checks[i].result {
            CheckResult::Green => {},
            CheckResult::Red { .. } => {
                res.register_failure(checks[i].required);
            },
        }
        proof {
            let o = views(checks@);
            assert(o[i as int] == checks[i as int]@);
            assert(res == before.with_outcome(o[i as int]));
            lemma_aggregate_step(o, i as int);
        }
        i = i + 1;
    }
    res
}

/// One more outcome changes the verdict as `with_outcome` says.
pub proof fn lemma_aggregate_step(outcomes: Seq<CheckView>, n: int)
    requires
        0 <= n < outcomes.len(),
    ensures
        aggregate_first(outcomes, n + 1) == aggregate_first(outcomes, n).with_outcome(outcomes[n]),
{
    let last = outcomes[n];
    if required_failure_in(outcomes, n) {
        let i = choose|i: int| 0 <= i < n && (#[trigger] outcomes[i]).failed() && outcomes[i].required;
        assert(0 <= i < n + 1 && outcomes[i].failed() && outcomes[i].required);
    }
    if failure_in(outcomes, n) {
        let i = choose|i: int| 0 <= i < n && (#[trigger] outcomes[i]).failed();
        assert(0 <= i < n + 1 && outcomes[i].failed());
    }
    if last.failed() {
        assert(0 <= n < n + 1 && outcomes[n].failed());
    }
}

/// Taking the outcomes one after the other, from `Pass`, gives the verdict
/// that `aggregate` states.
pub proof fn lemma_fold_is_aggregate(outcomes: Seq<CheckView>)
    ensures
        folded(outcomes) == aggregate(outcomes),
    decreases outcomes.len(),
{
    if outcomes.len() > 0 {
        let n = outcomes.len() - 1;
        let front = outcomes.drop_last();
        lemma_fold_is_aggregate(front);
        lemma_aggregate_step(outcomes, n);
        assert(required_failure_in(front, n) == required_failure_in(outcomes, n)) by {
            if required_failure_in(front, n) {
                let i = choose|i: int| 0 <= i < n && (#[trigger] front[i]).failed() && front[i].required;
                assert(outcomes[i] == front[i]);
            }
            if required_failure_in(outcomes, n) {
                let i = choose|i: int| 0 <= i < n && (#[trigger] outcomes[i]).failed() && outcomes[i].required;
                assert(outcomes[i] == front[i]);
            }
        }
        assert(failure_in(front, n) == failure_in(outcomes, n)) by {
            if failure_in(front, n) {
                let i = choose|i: int| 0 <= i < n && (#[trigger] front[i]).failed();
                assert(outcomes[i] == front[i]);
            }
            if failure_in(outcomes, n) {
                let i = choose|i: int| 0 <= i < n && (#[trigger] outcomes[i]).failed();
                assert(outcomes[i] == front[i]);
            }
        }
    }
}

/// The verdict does not depend on the order of the outcomes: two runs
/// that hold the same outcomes, each as often as the other, get the same
/// verdict.
pub proof fn aggregate_ignores_order(a: Seq<CheckView>, b: Seq<CheckView>)
    requires
        a.to_multiset() == b.to_multiset(),
    ensures
        aggregate(a) == aggregate(b),
        folded(a) == folded(b),
{
    lemma_one_way(a, b);
    lemma_one_way(b, a);
    lemma_fold_is_aggregate(a);
    lemma_fold_is_aggregate(b);
}

proof fn lemma_one_way(a: Seq<CheckView>, b: Seq<CheckView>)
    requires
        a.to_multiset() == b.to_multiset(),
    ensures
        required_failure_in(a, a.len() as int) ==> required_failure_in(b, b.len() as int),
        failure_in(a, a.len() as int) ==> failure_in(b, b.len() as int),
{
    a.to_multiset_ensures();
    b.to_multiset_ensures();
    if required_failure_in(a, a.len() as int) {
        let i = choose|i: int| 0 <= i < a.len() && (#[trigger] a[i]).failed() && a[i].required;
        assert(a.contains(a[i]));
        assert(a.to_multiset().count(a[i]) > 0);
        assert(b.to_multiset().count(a[i]) > 0);
        assert(b.contains(a[i]));
        let j = choose|j: int| 0 <= j < b.len() && b[j] == a[i];
        assert(b[j].failed() && b[j].required);
    }
    if failure_in(a, a.len() as int) {
        let i = choose|i: int| 0 <= i < a.len() && (#[trigger] a[i]).failed();
        assert(a.contains(a[i]));
        assert(a.to_multiset().count(a[i]) > 0);
        assert(b.to_multiset().count(a[i]) > 0);
        assert(b.contains(a[i]));
        let j = choose|j: int| 0 <= j < b.len() && b[j] == a[i];
        assert(b[j].failed());
    }
}

impl AllChecksResult {
    /// The worse of two verdicts: `Fail` is worse than `PassSomeFail`,
    /// which is worse than `Pass`.
    pub open spec fn worse(self, other: AllChecksResult) -> AllChecksResult {
        if self is Fail || other is Fail {
            AllChecksResult::Fail
        } else if self is PassSomeFail || other is PassSomeFail {
            AllChecksResult::PassSomeFail
        } else {
            AllChecksResult::Pass
        }
    }
}

/// The verdict over two reports put together is the worse of their
/// verdicts, so a report may be judged in parts, in any grouping.
pub proof fn aggregate_of_parts(a: Seq<CheckView>, b: Seq<CheckView>)
    ensures
        aggregate(a + b) == aggregate(a).worse(aggregate(b)),
{
    let whole = a + b;
    let n = whole.len() as int;
    if required_failure_in(a, a.len() as int) {
        let i = choose|i: int| 0 <= i < a.len() && (#[trigger] a[i]).failed() && a[i].required;
        assert(whole[i] == a[i]);
    }
    if required_failure_in(b, b.len() as int) {
        let i = choose|i: int| 0 <= i < b.len() && (#[trigger] b[i]).failed() && b[i].required;
        assert(whole[a.len() + i] == b[i]);
    }
    if failure_in(a, a.len() as int) {
        let i = choose|i: int| 0 <= i < a.len() && (#[trigger] a[i]).failed();
        assert(whole[i] == a[i]);
    }
    if failure_in(b, b.len() as int) {
        let i = choose|i: int| 0 <= i < b.len() && (#[trigger] b[i]).failed();
        assert(whole[a.len() + i] == b[i]);
    }
    if required_failure_in(whole, n) {
        let i = choose|i: int| 0 <= i < n && (#[trigger] whole[i]).failed() && whole[i].required;
        if i < a.len() {
            assert(a[i] == whole[i]);
        } else {
            assert(b[i - a.len()] == whole[i]);
        }
    }
    if failure_in(whole, n) {
        let i = choose|i: int| 0 <= i < n && (#[trigger] whole[i]).failed();
        if i < a.len() {
            assert(a[i] == whole[i]);
        } else {
            assert(b[i - a.len()] == whole[i]);
        }
    }
}

/// The summary of a run is as loud as its loudest outcome.
pub proof fn summary_is_as_loud_as_the_loudest(outcomes: Seq<CheckView>)
    ensures
        aggregate(outcomes).summary_level() is Error <==> exists|i: int|
            0 <= i < outcomes.len() && (#[trigger] outcomes[i]).level() is Error,
        aggregate(outcomes).summary_level() is Info <==> forall|i: int|
            0 <= i < outcomes.len() ==> (#[trigger] outcomes[i]).level() is Info,
{
    let n = outcomes.len() as int;
    if required_failure_in(outcomes, n) {
        let i = choose|i: int| 0 <= i < n && (#[trigger] outcomes[i]).failed() && outcomes[i].required;
        assert(outcomes[i].level() is Error);
    }
    if failure_in(outcomes, n) {
        let i = choose|i: int| 0 <= i < n && (#[trigger] outcomes[i]).failed();
        assert(!(outcomes[i].level() is Info));
    }
    if exists|i: int| 0 <= i < outcomes.len() && (#[trigger] outcomes[i]).level() is Error {
        let i = choose|i: int| 0 <= i < outcomes.len() && (#[trigger] outcomes[i]).level() is Error;
        assert(outcomes[i].failed() && outcomes[i].required);
    }
    if !failure_in(outcomes, n) {
        assert forall|i: int| 0 <= i < outcomes.len() implies (#[trigger] outcomes[i]).level() is Info by {
            if outcomes[i].failed() {
                assert(failure_in(outcomes, n));
            }
        }
    }
}

/// One failure of a required check makes the verdict `Fail` and the exit
/// code 1, whatever the other outcomes are.
pub proof fn required_failure_dominates(outcomes: Seq<CheckView>, i: int)
    requires
        0 <= i < outcomes.len(),
        outcomes[i].failed(),
        outcomes[i].required,
    ensures
        aggregate(outcomes) == AllChecksResult::Fail,
        folded(outcomes) == AllChecksResult::Fail,
        aggregate(outcomes).exit_code() == 1,
{
    lemma_fold_is_aggregate(outcomes);
}

/// A run in which no required check failed, but some check did, gets
/// `PassSomeFail`, and exit code 0.
pub proof fn advisory_failure_only_warns(outcomes: Seq<CheckView>, i: int)
    requires
        forall|j: int| 0 <= j < outcomes.len() && (#[trigger] outcomes[j]).failed() ==> !outcomes[j].required,
        0 <= i < outcomes.len(),
        outcomes[i].failed(),
    ensures
        aggregate(outcomes) == AllChecksResult::PassSomeFail,
        folded(outcomes) == AllChecksResult::PassSomeFail,
        aggregate(outcomes).exit_code() == 0,
{
    lemma_fold_is_aggregate(outcomes);
}

/// A run without a failure gets `Pass`, and exit code 0.
pub proof fn no_failure_passes(outcomes: Seq<CheckView>)
    requires
        forall|j: int| 0 <= j < outcomes.len() ==> !(#[trigger] outcomes[j]).failed(),
    ensures
        aggregate(outcomes) == AllChecksResult::Pass,
        folded(outcomes) == AllChecksResult::Pass,
        aggregate(outcomes).exit_code() == 0,
{
    lemma_fold_is_aggregate(outcomes);
}

} // verus!
