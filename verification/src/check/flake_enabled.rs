//! Whether the experimental features that flakes need are switched on.

use crate::error::SystemError;
use crate::info::{NixInfo, Project};
use crate::text::{concat2, contains_text, has_text, join, joined, texts};
use crate::traits::{views, Check, CheckResult, CheckResultView, CheckView, Checkable};
use vstd::prelude::*;
use vstd::string::*;

verus! {

/// Check that `experimental-features` of `nix.conf` holds every feature
/// that is asked for.
#[derive(Debug, PartialEq, Eq, Clone)]
pub struct FlakeEnabled {
    pub enable: bool,
    /// Whether a failure of this check fails the run.
    pub required: bool,
    /// The features that must be switched on.
    pub features: Vec<String>,
}

impl Default for FlakeEnabled {
    /// Enabled and required, asking for `flakes` and `nix-command`.
    fn default() -> (r: Self)
        ensures
            r.enable,
            r.required,
            texts(r.features@) == seq!["flakes"@, "nix-command"@],
    {
        let mut features: Vec<String> = Vec::new();
        features.push(String::from_str("flakes"));
        features.push(String::from_str("nix-command"));
        assert(texts(features@) =~= seq!["flakes"@, "nix-command"@]);
        FlakeEnabled { enable: true, required: true, features }
    }
}

/// Whether each of `wanted` is among `present`.
pub open spec fn all_among(wanted: Seq<Seq<char>>, present: Seq<Seq<char>>) -> bool {
    forall|i: int| 0 <= i < wanted.len() ==> has_text(present, #[trigger] wanted[i])
}

/// Whether each of `wanted` occurs in `present`.
pub fn is_subset(wanted: &Vec<String>, present: &Vec<String>) -> (r: bool)
    ensures
        r == all_among(texts(wanted@), texts(present@)),
{
    let mut i: usize = 0;
    while i < wanted.len()
        invariant
            i <= wanted.len(),
            forall|j: int| 0 <= j < i ==> has_text(texts(present@), #[trigger] texts(wanted@)[j]),
        decreases wanted.len() - i,
    {
        assert(texts(wanted@)[i as int] == wanted[i as int]@);
        if !contains_text(present, wanted[i].as_str()) {
            return false;
        }
        i = i + 1;
    }
    true
}

/// The one outcome of this check: green where every feature asked for is
/// among the enabled ones.
pub open spec fn features_outcome(unit: &FlakeEnabled, enabled: Seq<Seq<char>>) -> CheckView {
    CheckView {
        title: "Flakes Enabled"@,
        info: "experimental-features = "@ + joined(enabled, " "@),
        result: if all_among(texts(unit.features@), enabled) {
            CheckResultView::Green
        } else {
            CheckResultView::Red {
                msg: "Nix flakes are not enabled"@,
                suggestion: "See https://nixos.wiki/wiki/Flakes#Enable_flakes"@,
            }
        },
        required: unit.required,
    }
}

impl Checkable for FlakeEnabled {
    open spec fn enabled(&self) -> bool {
        self.enable
    }

    open spec fn severity(&self) -> bool {
        self.required
    }

    open spec fn identity(&self) -> Seq<char> {
        "Flakes Enabled"@
    }

    fn name(&self) -> (r: String) {
        String::from_str("Flakes Enabled")
    }

    fn is_required(&self) -> (r: bool) {
        self.required
    }

    proof fn disabled_is_silent(&self, nix_info: &NixInfo, project: Option<&Project>) {
    }

    proof fn outcomes_carry_severity(&self, nix_info: &NixInfo, project: Option<&Project>) {
    }

    open spec fn outcomes(&self, nix_info: &NixInfo, project: Option<&Project>) -> Result<
        Seq<CheckView>,
        Seq<char>,
    > {
        if self.enable {
            Ok(seq![features_outcome(self, texts(nix_info.nix_config.experimental_features@))])
        } else {
            Ok(Seq::empty())
        }
    }

    fn check(&self, nix_info: &NixInfo, project: Option<&Project>) -> (r: Result<
        Vec<Check>,
        SystemError,
    >) {
        let mut checks: Vec<Check> = Vec::new();
        if !self.enable {
            assert(views(checks@) =~= Seq::empty());
            return Ok(checks);
        }
        let val = &nix_info.nix_config.experimental_features;
        let result = if is_subset(&self.features, val) {
            CheckResult::Green
        } else {
            CheckResult::Red {
                msg: String::from_str("Nix flakes are not enabled"),
                suggestion: String::from_str("See https://nixos.wiki/wiki/Flakes#Enable_flakes"),
            }
        };
        checks.push(
            Check {
                title: String::from_str("Flakes Enabled"),
                info: concat2("experimental-features = ", join(val, " ").as_str()),
                result,
                required: self.required,
            },
        );
        assert(views(checks@) =~= seq![features_outcome(self, texts(val@))]);
        Ok(checks)
    }
}

} // verus!
