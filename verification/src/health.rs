//! The registry of checks, and the run that evaluates them.

use crate::check::caches::{official_cache, Caches};
use crate::check::direnv::Direnv;
use crate::check::flake_enabled::FlakeEnabled;
use crate::check::max_jobs::MaxJobs;
use crate::check::min_nix_version::MinNixVersion;
use crate::check::system::System;
use crate::check::trusted_users::TrustedUsers;
use crate::error::SystemError;
use crate::info::{NixInfo, Project};
use crate::text::texts;
use crate::traits::{views, Check, CheckResult, CheckResultView, CheckView, Checkable};
use crate::verdict::{aggregate, aggregate_checks, AllChecksResult};
use crate::version::NixVersion;
use vstd::prelude::*;
use vstd::string::*;

verus! {

/// Nix health check information for a user's install: one field for each
/// check, each of them [`Checkable`].
#[derive(Debug, Clone, PartialEq, Eq)]
pub struct NixHealth {
    pub max_jobs: MaxJobs,
    pub caches: Caches,
    pub flake_enabled: FlakeEnabled,
    pub nix_version: MinNixVersion,
    pub system: System,
    pub trusted_users: TrustedUsers,
    pub direnv: Direnv,
}

impl Default for NixHealth {
    /// Every check with its own defaults.
    fn default() -> (r: Self)
        ensures
            r.max_jobs == (MaxJobs { enable: true, required: true }),
            r.trusted_users == (TrustedUsers { enable: true, required: true }),
            r.direnv == (Direnv { enable: true, required: false }),
            r.nix_version.min_required == (NixVersion { major: 2, minor: 13, patch: 0 }),
            r.nix_version.enable && r.nix_version.required,
            r.flake_enabled.enable && r.flake_enabled.required,
            texts(r.flake_enabled.features@) == seq!["flakes"@, "nix-command"@],
            r.caches.enable && r.caches.required_check,
            texts(r.caches.required@) == seq![official_cache()],
            r.system.enable && !r.system.required && r.system.min_ram is None,
            r.system.min_disk_space matches Some(min) && min.bytes == 1_024_000_000_000,
    {
        NixHealth {
            max_jobs: MaxJobs::default(),
            caches: Caches::default(),
            flake_enabled: FlakeEnabled::default(),
            nix_version: MinNixVersion::default(),
            system: System::default(),
            trusted_users: TrustedUsers::default(),
            direnv: Direnv::default(),
        }
    }
}

/// The outcome that stands for a unit that could not answer: a failure
/// under the unit's title, with the fault as its information and the
/// unit's own severity.
pub open spec fn fault_outcome(title: Seq<char>, required: bool, fault: Seq<char>) -> CheckView {
    CheckView {
        title,
        info: fault,
        result: CheckResultView::Red {
            msg: "Unable to determine the status of this check"@,
            suggestion: "Look into the fault reported with this check, then run the checks again"@,
        },
        required,
    }
}

/// What a unit adds to the report of a run: its outcomes, or the one
/// outcome that stands for its fault.
pub open spec fn contribution(
    title: Seq<char>,
    required: bool,
    evaluated: Result<Seq<CheckView>, Seq<char>>,
) -> Seq<CheckView> {
    match evaluated {
        Ok(outcomes) => outcomes,
        Err(fault) => seq![fault_outcome(title, required, fault)],
    }
}

/// What `unit` adds to the report of a run.
pub open spec fn contribution_of<C: Checkable>(
    unit: &C,
    nix_info: &NixInfo,
    project: Option<&Project>,
) -> Seq<CheckView> {
    contribution(unit.identity(), unit.severity(), unit.outcomes(nix_info, project))
}

/// Turns what evaluating a unit gave into what the unit adds to the
/// report: a fault becomes one failed check.
pub fn recover(title: String, required: bool, evaluated: Result<Vec<Check>, SystemError>) -> (r: Vec<Check>)
    ensures
        views(r@) == contribution(title@, required, crate::traits::evaluation(evaluated)),
{
    match evaluated {
        Ok(checks) => checks,
        Err(fault) => {
            let mut checks: Vec<Check> = Vec::new();
            checks.push(
                Check {
                    title,
                    info: fault.message,
                    result: CheckResult::Red {
                        msg: String::from_str("Unable to determine the status of this check"),
                        suggestion: String::from_str(
                            "Look into the fault reported with this check, then run the checks again",
                        ),
                    },
                    required,
                },
            );
            assert(views(checks@) =~= seq![fault_outcome(title@, required, fault.message@)]);
            checks
        },
    }
}

/// Evaluates `unit` and appends what it adds to the report.
fn run_unit<C: Checkable>(unit: &C, nix_info: &NixInfo, project: Option<&Project>, report: &mut Vec<Check>)
    ensures
        views(final(report)@) == views(old(report)@) + contribution_of(unit, nix_info, project),
{
    let ghost before = views(report@);
    let mut added = recover(unit.name(), unit.is_required(), unit.check(nix_info, project));
    let ghost part = views(added@);
    let ghost kept = report@;
    let ghost moved = added@;
    report.append(&mut added);
    assert(report@ == kept + moved);
    assert(views(report@) =~= before + part);
}

impl NixHealth {
    /// The report of a run: what each unit adds, in the order in which
    /// the units are evaluated.
    pub open spec fn report(&self, nix_info: &NixInfo, project: Option<&Project>) -> Seq<CheckView> {
        contribution_of(&self.nix_version, nix_info, project) + contribution_of(
            &self.flake_enabled,
            nix_info,
            project,
        ) + contribution_of(&self.system, nix_info, project) + contribution_of(
            &self.max_jobs,
            nix_info,
            project,
        ) + contribution_of(&self.caches, nix_info, project) + contribution_of(
            &self.trusted_users,
            nix_info,
            project,
        ) + contribution_of(&self.direnv, nix_info, project)
    }

    /// The titles of the units, in the order in which a run evaluates
    /// them: the checks that others rest on come first.
    pub open spec fn unit_titles(&self) -> Seq<Seq<char>> {
        seq![
            self.nix_version.identity(),
            self.flake_enabled.identity(),
            self.system.identity(),
            self.max_jobs.identity(),
            self.caches.identity(),
            self.trusted_users.identity(),
            self.direnv.identity(),
        ]
    }

    /// The titles of the units, in the order in which a run evaluates
    /// them.
    pub fn unit_names(&self) -> (r: Vec<String>)
        ensures
            texts(r@) == self.unit_titles(),
    {
        let mut names: Vec<String> = Vec::new();
        names.push(self.nix_version.name());
        names.push(self.flake_enabled.name());
        names.push(self.system.name());
        names.push(self.max_jobs.name());
        names.push(self.caches.name());
        names.push(self.trusted_users.name());
        names.push(self.direnv.name());
        assert(texts(names@) =~= self.unit_titles());
        names
    }

    /// Run all checks and collect the results.
    pub fn run_checks(&self, nix_info: &NixInfo, project: Option<&Project>) -> (r: Vec<Check>)
        ensures
            views(r@) == self.report(nix_info, project),
    {
        let mut report: Vec<Check> = Vec::new();
        assert(views(report@) =~= Seq::empty());
        run_unit(&self.nix_version, nix_info, project, &mut report);
        assert(views(report@) =~= contribution_of(&self.nix_version, nix_info, project));
        run_unit(&self.flake_enabled, nix_info, project, &mut report);
        run_unit(&self.system, nix_info, project, &mut report);
        run_unit(&self.max_jobs, nix_info, project, &mut report);
        run_unit(&self.caches, nix_info, project, &mut report);
        run_unit(&self.trusted_users, nix_info, project, &mut report);
        run_unit(&self.direnv, nix_info, project, &mut report);
        report
    }

    /// A whole run: the report, and the verdict over it.
    pub fn run(&self, nix_info: &NixInfo, project: Option<&Project>) -> (r: (Vec<Check>, AllChecksResult))
        ensures
            views(r.0@) == self.report(nix_info, project),
            r.1 == aggregate(self.report(nix_info, project)),
    {
        let checks = self.run_checks(nix_info, project);
        let verdict = aggregate_checks(checks.as_slice());
        (checks, verdict)
    }

    /// The exit code of a run with these checks: 1 where a required check
    /// failed, else 0.
    pub fn print_report_returning_exit_code(checks: &[Check]) -> (r: i32)
        ensures
            r == aggregate(views(checks@)).exit_code(),
    {
        aggregate_checks(checks).report()
    }
}

/// A unit that is switched off adds nothing to the report, whatever the
/// snapshot and the project are.
pub proof fn disabled_unit_contributes_nothing<C: Checkable>(
    unit: &C,
    nix_info: &NixInfo,
    project: Option<&Project>,
)
    requires
        !unit.enabled(),
    ensures
        contribution_of(unit, nix_info, project).len() == 0,
{
    unit.disabled_is_silent(nix_info, project);
}

/// Whatever a unit adds to the report, the outcomes of a fault included,
/// carries the unit's own severity.
pub proof fn contribution_carries_severity<C: Checkable>(
    unit: &C,
    nix_info: &NixInfo,
    project: Option<&Project>,
)
    ensures
        forall|i: int|
            0 <= i < contribution_of(unit, nix_info, project).len() ==> (#[trigger] contribution_of(
                unit,
                nix_info,
                project,
            )[i]).required == unit.severity(),
{
    unit.outcomes_carry_severity(nix_info, project);
}

/// A unit whose evaluation ends in a fault adds exactly one outcome: a
/// failure under the unit's title, with the unit's own severity.
pub proof fn fault_costs_one_outcome<C: Checkable>(unit: &C, nix_info: &NixInfo, project: Option<&Project>)
    requires
        unit.outcomes(nix_info, project) is Err,
    ensures
        contribution_of(unit, nix_info, project).len() == 1,
        contribution_of(unit, nix_info, project)[0].failed(),
        contribution_of(unit, nix_info, project)[0].required == unit.severity(),
        contribution_of(unit, nix_info, project)[0].title == unit.identity(),
        contribution_of(unit, nix_info, project)[0].info == unit.outcomes(nix_info, project)->Err_0,
{
}

/// Whether `part` stands in `whole`, from position `at` on.
pub open spec fn stands_at(part: Seq<CheckView>, whole: Seq<CheckView>, at: int) -> bool {
    0 <= at && at + part.len() <= whole.len() && whole.subrange(at, at + part.len()) == part
}

/// Whatever the direnv unit does, a fault included, the report holds what
/// each of the other units adds, unchanged and in the units' order, and
/// then what the direnv unit adds.
pub proof fn fault_is_isolated(health: &NixHealth, nix_info: &NixInfo, project: Option<&Project>)
    ensures
        ({
            let c1 = contribution_of(&health.nix_version, nix_info, project);
            let c2 = contribution_of(&health.flake_enabled, nix_info, project);
            let c3 = contribution_of(&health.system, nix_info, project);
            let c4 = contribution_of(&health.max_jobs, nix_info, project);
            let c5 = contribution_of(&health.caches, nix_info, project);
            let c6 = contribution_of(&health.trusted_users, nix_info, project);
            let c7 = contribution_of(&health.direnv, nix_info, project);
            let whole = health.report(nix_info, project);
            let n1 = c1.len() as int;
            let n2 = n1 + c2.len();
            let n3 = n2 + c3.len();
            let n4 = n3 + c4.len();
            let n5 = n4 + c5.len();
            let n6 = n5 + c6.len();
            &&& whole.len() == n6 + c7.len()
            &&& stands_at(c1, whole, 0)
            &&& stands_at(c2, whole, n1)
            &&& stands_at(c3, whole, n2)
            &&& stands_at(c4, whole, n3)
            &&& stands_at(c5, whole, n4)
            &&& stands_at(c6, whole, n5)
            &&& stands_at(c7, whole, n6)
        }),
{
    lemma_parts_stand(
        contribution_of(&health.nix_version, nix_info, project),
        contribution_of(&health.flake_enabled, nix_info, project),
        contribution_of(&health.system, nix_info, project),
        contribution_of(&health.max_jobs, nix_info, project),
        contribution_of(&health.caches, nix_info, project),
        contribution_of(&health.trusted_users, nix_info, project),
        contribution_of(&health.direnv, nix_info, project),
    );
}

/// Each of seven parts stands in their concatenation, behind the parts
/// before it.
proof fn lemma_parts_stand(
    c1: Seq<CheckView>,
    c2: Seq<CheckView>,
    c3: Seq<CheckView>,
    c4: Seq<CheckView>,
    c5: Seq<CheckView>,
    c6: Seq<CheckView>,
    c7: Seq<CheckView>,
)
    ensures
        ({
            let whole = c1 + c2 + c3 + c4 + c5 + c6 + c7;
            let n1 = c1.len() as int;
            let n2 = n1 + c2.len();
            let n3 = n2 + c3.len();
            let n4 = n3 + c4.len();
            let n5 = n4 + c5.len();
            let n6 = n5 + c6.len();
            &&& whole.len() == n6 + c7.len()
            &&& stands_at(c1, whole, 0)
            &&& stands_at(c2, whole, n1)
            &&& stands_at(c3, whole, n2)
            &&& stands_at(c4, whole, n3)
            &&& stands_at(c5, whole, n4)
            &&& stands_at(c6, whole, n5)
            &&& stands_at(c7, whole, n6)
        }),
{
    let whole = c1 + c2 + c3 + c4 + c5 + c6 + c7;
    let n1 = c1.len() as int;
    let n2 = n1 + c2.len();
    let n3 = n2 + c3.len();
    let n4 = n3 + c4.len();
    let n5 = n4 + c5.len();
    let n6 = n5 + c6.len();
    assert(whole.subrange(0, n1) =~= c1);
    assert(whole.subrange(n1, n2) =~= c2);
    assert(whole.subrange(n2, n3) =~= c3);
    assert(whole.subrange(n3, n4) =~= c4);
    assert(whole.subrange(n4, n5) =~= c5);
    assert(whole.subrange(n5, n6) =~= c6);
    assert(whole.subrange(n6, n6 + c7.len()) =~= c7);
}

} // verus!
