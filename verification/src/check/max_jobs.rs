//! Whether Nix builds on more than one core.

use crate::error::SystemError;
use crate::info::{NixInfo, Project};
use crate::text::{concat2, signed_decimal, signed_decimal_text};
use crate::traits::{views, Check, CheckResult, CheckResultView, CheckView, Checkable};
use vstd::prelude::*;
use vstd::string::*;

verus! {

/// Check that `max-jobs` of `nix.conf` is set to a good value.
#[derive(Debug, PartialEq, Eq, Clone)]
pub struct MaxJobs {
    pub enable: bool,
    /// Whether a failure of this check fails the run.
    pub required: bool,
}

impl Default for MaxJobs {
    fn default() -> (r: Self)
        ensures
            r == (MaxJobs { enable: true, required: true }),
    {
        MaxJobs { enable: true, required: true }
    }
}

/// The one outcome of this check: green where more than one job may run
/// at a time.
pub open spec fn max_jobs_outcome(required: bool, max_jobs: i32) -> CheckView {
    CheckView {
        title: "Max Jobs"@,
        info: "max-jobs = "@ + signed_decimal(max_jobs as int),
        result: if max_jobs > 1 {
            CheckResultView::Green
        } else {
            CheckResultView::Red {
                msg: "You are using only 1 core for nix builds"@,
                suggestion: "Try editing /etc/nix/nix.conf"@,
            }
        },
        required,
    }
}

impl Checkable for MaxJobs {
    open spec fn enabled(&self) -> bool {
        self.enable
    }

    open spec fn severity(&self) -> bool {
        self.required
    }

    open spec fn identity(&self) -> Seq<char> {
        "Max Jobs"@
    }

    fn name(&self) -> (r: String) {
        String::from_str("Max Jobs")
    }

    fn is_required(&self) -> (r: bool) {
        self.required
    }

    proof fn disabled_is_silent(&self, nix_info: &NixInfo, project: Option<&Project>) {
    }

    proof fn outcomes_carry_severity(&self, nix_info: &NixInfo, project: Option<&Project>) {
    }

    open spec fn outcomes(&self, nix_info: &NixInfo, project: Option<&Project>) -> Result<
        Seq<CheckView>,
        Seq<char>,
    > {
        if self.enable {
            Ok(seq![max_jobs_outcome(self.required, nix_info.nix_config.max_jobs)])
        } else {
            Ok(Seq::empty())
        }
    }

    fn check(&self, nix_info: &NixInfo, project: Option<&Project>) -> (r: Result<
        Vec<Check>,
        SystemError,
    >) {
        let mut checks: Vec<Check> = Vec::new();
        if !self.enable {
            assert(views(checks@) =~= Seq::empty());
            return Ok(checks);
        }
        let max_jobs = nix_info.nix_config.max_jobs;
        let result = if max_jobs > 1 {
            CheckResult::Green
        } else {
            CheckResult::Red {
                msg: String::from_str("You are using only 1 core for nix builds"),
                suggestion: String::from_str("Try editing /etc/nix/nix.conf"),
            }
        };
        checks.push(
            Check {
                title: String::from_str("Max Jobs"),
                info: concat2("max-jobs = ", signed_decimal_text(max_jobs).as_str()),
                result,
                required: self.required,
            },
        );
        assert(views(checks@) =~= seq![max_jobs_outcome(self.required, max_jobs)]);
        Ok(checks)
    }
}

} // verus!
