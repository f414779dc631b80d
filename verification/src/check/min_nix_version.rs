//! Whether the installed Nix is recent enough.

use crate::error::SystemError;
use crate::info::{NixInfo, Project};
use crate::text::concat2;
use crate::traits::{views, Check, CheckResult, CheckResultView, CheckView, Checkable};
use crate::version::NixVersion;
use vstd::prelude::*;
use vstd::string::*;

verus! {

/// Check that the version of Nix is at least a given one.
#[derive(Debug, PartialEq, Eq, Clone)]
pub struct MinNixVersion {
    pub enable: bool,
    /// Whether a failure of this check fails the run.
    pub required: bool,
    /// The oldest version that passes.
    pub min_required: NixVersion,
}

impl Default for MinNixVersion {
    fn default() -> (r: Self)
        ensures
            r == (MinNixVersion {
                enable: true,
                required: true,
                min_required: NixVersion { major: 2, minor: 13, patch: 0 },
            }),
    {
        MinNixVersion {
            enable: true,
            required: true,
            min_required: NixVersion { major: 2, minor: 13, patch: 0 },
        }
    }
}

/// The one outcome of this check: green where the installed version is
/// the minimum or a later one.
pub open spec fn min_version_outcome(unit: &MinNixVersion, installed: NixVersion) -> CheckView {
    CheckView {
        title: "Minimum Nix Version"@,
        info: "nix version = "@ + installed.text(),
        result: if installed.at_least(unit.min_required) {
            CheckResultView::Green
        } else {
            CheckResultView::Red {
                msg: "Your Nix version ("@ + installed.text() + ") is too old; we require at least "@
                    + unit.min_required.text(),
                suggestion: "See https://nixos.org/manual/nix/stable/command-ref/new-cli/nix3-upgrade-nix.html"@,
            }
        },
        required: unit.required,
    }
}

impl Checkable for MinNixVersion {
    open spec fn enabled(&self) -> bool {
        self.enable
    }

    open spec fn severity(&self) -> bool {
        self.required
    }

    open spec fn identity(&self) -> Seq<char> {
        "Minimum Nix Version"@
    }

    fn name(&self) -> (r: String) {
        String::from_str("Minimum Nix Version")
    }

    fn is_required(&self) -> (r: bool) {
        self.required
    }

    proof fn disabled_is_silent(&self, nix_info: &NixInfo, project: Option<&Project>) {
    }

    proof fn outcomes_carry_severity(&self, nix_info: &NixInfo, project: Option<&Project>) {
    }

    open spec fn outcomes(&self, nix_info: &NixInfo, project: Option<&Project>) -> Result<
        Seq<CheckView>,
        Seq<char>,
    > {
        if self.enable {
            Ok(seq![min_version_outcome(self, nix_info.nix_version)])
        } else {
            Ok(Seq::empty())
        }
    }

    fn check(&self, nix_info: &NixInfo, project: Option<&Project>) -> (r: Result<
        Vec<Check>,
        SystemError,
    >) {
        let mut checks: Vec<Check> = Vec::new();
        if !self.enable {
            assert(views(checks@) =~= Seq::empty());
            return Ok(checks);
        }
        let val = &nix_info.nix_version;
        let installed = val.to_text();
        let result = if val.meets(&self.min_required) {
            CheckResult::Green
        } else {
            let mut msg = concat2("Your Nix version (", installed.as_str());
            msg.append(") is too old; we require at least ");
            msg.append(self.min_required.to_text().as_str());
            CheckResult::Red {
                msg,
                suggestion: String::from_str(
                    "See https://nixos.org/manual/nix/stable/command-ref/new-cli/nix3-upgrade-nix.html",
                ),
            }
        };
        checks.push(
            Check {
                title: String::from_str("Minimum Nix Version"),
                info: concat2("nix version = ", installed.as_str()),
                result,
                required: self.required,
            },
        );
        assert(views(checks@) =~= seq![min_version_outcome(self, nix_info.nix_version)]);
        Ok(checks)
    }
}

} // verus!
