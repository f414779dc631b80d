use nix_health::report::{NoDetails, Report, WithDetails};
use nix_health::traits::{Check, CheckResult, Level};
use nix_health::verdict::{aggregate_checks, AllChecksResult};
use nix_health::NixHealth;

fn pass(title: &str, required: bool) -> Check {
    Check {
        title: title.to_string(),
        info: String::new(),
        result: CheckResult::Green,
        required,
    }
}

fn fail(title: &str, required: bool) -> Check {
    Check {
        title: title.to_string(),
        info: String::new(),
        result: CheckResult::Red { msg: "m".to_string(), suggestion: "s".to_string() },
        required,
    }
}

fn permutations(items: &[Check]) -> Vec<Vec<Check>> {
    if items.len() <= 1 {
        return vec![items.to_vec()];
    }
    let mut all = Vec::new();
    for i in 0..items.len() {
        let mut rest = items.to_vec();
        let head = rest.remove(i);
        for mut tail in permutations(&rest) {
            tail.insert(0, head.clone());
            all.push(tail);
        }
    }
    all
}

#[test]
fn verdict_is_the_same_in_every_order() {
    let sets = vec![
        vec![pass("a", true), fail("b", false), fail("c", true), pass("d", false)],
        vec![fail("a", false), pass("b", true), fail("c", false)],
        vec![pass("a", true), pass("b", false), pass("c", true)],
    ];
    let expected = vec![AllChecksResult::Fail, AllChecksResult::PassSomeFail, AllChecksResult::Pass];
    for (set, expected) in sets.iter().zip(expected) {
        for order in permutations(set) {
            assert_eq!(aggregate_checks(&order), expected);
        }
    }
}

#[test]
fn one_required_failure_fails_the_run() {
    let mut checks: Vec<Check> = (0..50).map(|i| pass(&format!("p{}", i), i % 2 == 0)).collect();
    checks.insert(17, fail("f", true));
    assert_eq!(aggregate_checks(&checks), AllChecksResult::Fail);
    assert_eq!(NixHealth::print_report_returning_exit_code(&checks), 1);
    checks.push(fail("g", false));
    assert_eq!(aggregate_checks(&checks), AllChecksResult::Fail);
}

#[test]
fn advisory_failures_only_warn() {
    let checks = vec![pass("a", true), fail("b", false), fail("c", false), pass("d", true)];
    assert_eq!(aggregate_checks(&checks), AllChecksResult::PassSomeFail);
    assert_eq!(NixHealth::print_report_returning_exit_code(&checks), 0);
}

#[test]
fn no_failure_passes() {
    let checks = vec![pass("a", true), pass("b", false)];
    assert_eq!(aggregate_checks(&checks), AllChecksResult::Pass);
    assert_eq!(NixHealth::print_report_returning_exit_code(&checks), 0);
    assert_eq!(aggregate_checks(&[]), AllChecksResult::Pass);
    assert_eq!(NixHealth::print_report_returning_exit_code(&[]), 0);
}

#[test]
fn register_failure_never_leaves_fail() {
    let mut res = AllChecksResult::new();
    assert_eq!(res, AllChecksResult::Pass);
    res.register_failure(false);
    assert_eq!(res, AllChecksResult::PassSomeFail);
    res.register_failure(false);
    assert_eq!(res, AllChecksResult::PassSomeFail);
    res.register_failure(true);
    assert_eq!(res, AllChecksResult::Fail);
    res.register_failure(false);
    assert_eq!(res, AllChecksResult::Fail);
    let mut res = AllChecksResult::new();
    res.register_failure(true);
    assert_eq!(res, AllChecksResult::Fail);
}

#[test]
fn exit_codes_and_summaries() {
    assert_eq!(AllChecksResult::Pass.report(), 0);
    assert_eq!(AllChecksResult::PassSomeFail.report(), 0);
    assert_eq!(AllChecksResult::Fail.report(), 1);
    assert_eq!(AllChecksResult::Pass.summary(), "All checks passed");
    assert_eq!(
        AllChecksResult::PassSomeFail.summary(),
        "Required checks passed, but some non-required checks failed"
    );
    assert_eq!(AllChecksResult::Fail.summary(), "Some required checks failed");
}

#[test]
fn chain_joins_two_failures() {
    let green = CheckResult::Green;
    let a = CheckResult::Red { msg: "m1".to_string(), suggestion: "s1".to_string() };
    let b = CheckResult::Red { msg: "m2".to_string(), suggestion: "s2".to_string() };
    assert_eq!(green.chain(CheckResult::Green), CheckResult::Green);
    assert_eq!(green.chain(a.clone()), a);
    assert_eq!(a.chain(CheckResult::Green), a);
    assert_eq!(
        a.chain(b.clone()),
        CheckResult::Red { msg: "m1. m2".to_string(), suggestion: "s1. s2".to_string() }
    );
    assert_eq!(
        b.chain(a.clone()),
        CheckResult::Red { msg: "m2. m1".to_string(), suggestion: "s2. s1".to_string() }
    );
    assert!(green.green());
    assert!(!a.green());
    assert_eq!(a.duplicate(), a);
    assert_eq!(CheckResult::red("m1".to_string(), "s1".to_string()), a);
}

#[test]
fn report_with_and_without_details() {
    let details = WithDetails { msg: "m".to_string(), suggestion: "s".to_string() };
    let failed: Report<WithDetails> = Report::Fail(details.clone());
    let passed: Report<WithDetails> = Report::Pass;
    assert!(passed.is_green());
    assert!(!passed.is_red());
    assert!(failed.is_red());
    assert!(!failed.is_green());
    assert_eq!(passed.without_details(), Report::Pass);
    assert_eq!(failed.without_details(), Report::Fail(NoDetails));
    assert_eq!(passed.get_red_details(), None);
    assert_eq!(failed.get_red_details(), Some(details));
}

#[test]
fn levels_follow_result_and_severity() {
    assert_eq!(pass("a", true).level(), Level::Info);
    assert_eq!(pass("a", false).level(), Level::Info);
    assert_eq!(fail("a", true).level(), Level::Error);
    assert_eq!(fail("a", false).level(), Level::Warn);
    assert_eq!(AllChecksResult::Pass.level(), Level::Info);
    assert_eq!(AllChecksResult::PassSomeFail.level(), Level::Warn);
    assert_eq!(AllChecksResult::Fail.level(), Level::Error);
}

#[test]
fn a_report_may_be_judged_in_parts() {
    let a = vec![pass("a", true), fail("b", false)];
    let b = vec![fail("c", true)];
    let c = vec![pass("d", false)];
    let whole: Vec<Check> = a.iter().chain(b.iter()).chain(c.iter()).cloned().collect();
    assert_eq!(aggregate_checks(&a), AllChecksResult::PassSomeFail);
    assert_eq!(aggregate_checks(&b), AllChecksResult::Fail);
    assert_eq!(aggregate_checks(&c), AllChecksResult::Pass);
    assert_eq!(aggregate_checks(&whole), AllChecksResult::Fail);
    let ac: Vec<Check> = a.iter().chain(c.iter()).cloned().collect();
    assert_eq!(aggregate_checks(&ac), AllChecksResult::PassSomeFail);
}

#[test]
fn chain_groups_either_way() {
    let red = |m: &str| CheckResult::Red { msg: m.to_string(), suggestion: format!("fix {}", m) };
    let (a, b, c) = (red("a"), red("b"), red("c"));
    assert_eq!(a.chain(b.clone()).chain(c.clone()), a.chain(b.chain(c)));
    assert_eq!(
        a.chain(red("b")).chain(red("c")),
        CheckResult::Red { msg: "a. b. c".to_string(), suggestion: "fix a. fix b. fix c".to_string() }
    );
}
