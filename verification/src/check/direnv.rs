//! Whether direnv is installed, recent enough, and allowed on the project.
//!
//! The check goes in stages, each gated on the one before: the version of
//! direnv, its installation, and, for a local project with an `.envrc`,
//! whether direnv was allowed there.

use crate::error::SystemError;
use crate::info::{DirenvStatus, NixInfo, Probe, Project};
use crate::text::{append_decimal, concat2, concat3, debug_form, debug_text, decimal};
use crate::traits::{views, Check, CheckResult, CheckResultView, CheckView, Checkable};
use vstd::prelude::*;
use vstd::string::*;

verus! {

/// Check if direnv is installed.
#[derive(Debug, Clone, PartialEq, Eq)]
pub struct Direnv {
    pub enable: bool,
    /// Whether to produce required checks.
    pub required: bool,
}

impl Default for Direnv {
    fn default() -> (r: Self)
        ensures
            r == (Direnv { enable: true, required: false }),
    {
        Direnv { enable: true, required: false }
    }
}

/// A semantic version: three numbers, and the pre-release and build parts
/// (each without its sign, empty where the version has none).
#[derive(Debug, Clone, PartialEq, Eq)]
pub struct ToolVersion {
    pub major: u64,
    pub minor: u64,
    pub patch: u64,
    pub pre: String,
    pub build: String,
}

/// What the `semver` crate reads a text as: the three numbers, the
/// pre-release part and the build part; none where the text is no semantic
/// version.
pub uninterp spec fn semver_parsed(text: Seq<char>) -> Option<(u64, u64, u64, Seq<char>, Seq<char>)>;

/// The parts of an optional version.
pub open spec fn version_parts(v: Option<ToolVersion>) -> Option<(u64, u64, u64, Seq<char>, Seq<char>)> {
    match v {
        Some(v) => Some((v.major, v.minor, v.patch, v.pre@, v.build@)),
        None => None,
    }
}

/// Reads a version with `semver::Version::parse` and copies its parts. The
/// contract only names the result, [`semver_parsed`]: the same text is
/// always read alike.
#[verifier::external_body]
fn parse_version(text: &str) -> (r: Option<ToolVersion>)
    ensures
        version_parts(r) == semver_parsed(text@),
{
    match semver::Version::parse(text) {
        Ok(v) => Some(
            ToolVersion {
                major: v.major,
                minor: v.minor,
                patch: v.patch,
                pre: v.pre.as_str().to_string(),
                build: v.build.as_str().to_string(),
            },
        ),
        Err(_) => None,
    }
}

/// Whether the version with these parts is release 2.33.0 or later. The
/// numbers decide; a pre-release of 2.33.0 itself comes before it.
pub open spec fn supported(parts: (u64, u64, u64, Seq<char>, Seq<char>)) -> bool {
    let (major, minor, patch, pre, build) = parts;
    major > 2 || (major == 2 && (minor > 33 || (minor == 33 && (patch > 0 || pre.len() == 0))))
}

/// A version as it is written: the numbers with dots between, then `-` and
/// the pre-release part, then `+` and the build part, where it has them.
pub open spec fn version_text(parts: (u64, u64, u64, Seq<char>, Seq<char>)) -> Seq<char> {
    let (major, minor, patch, pre, build) = parts;
    decimal(major as nat) + "."@ + decimal(minor as nat) + "."@ + decimal(patch as nat) + (if pre.len()
        > 0 {
        "-"@ + pre
    } else {
        Seq::empty()
    }) + (if build.len() > 0 {
        "+"@ + build
    } else {
        Seq::empty()
    })
}

impl ToolVersion {
    pub open spec fn parts(&self) -> (u64, u64, u64, Seq<char>, Seq<char>) {
        (self.major, self.minor, self.patch, self.pre@, self.build@)
    }

    /// Whether this is release 2.33.0 or a later version, the first whose
    /// `direnv status` can be read by a program.
    pub fn is_supported(&self) -> (r: bool)
        ensures
            r == supported(self.parts()),
    {
        if self.major != 2 {
            self.major > 2
        } else if self.minor != 33 {
            self.minor > 33
        } else {
            self.patch > 0 || self.pre.as_str().unicode_len() == 0
        }
    }

    /// The version as it is written.
    pub fn to_text(&self) -> (r: String)
        ensures
            r@ == version_text(self.parts()),
    {
        let mut out = String::new();
        append_decimal(&mut out, self.major);
        out.append(".");
        append_decimal(&mut out, self.minor);
        out.append(".");
        append_decimal(&mut out, self.patch);
        let ghost numbers = out@;
        if self.pre.as_str().unicode_len() > 0 {
            out.append("-");
            out.append(self.pre.as_str());
        }
        let ghost with_pre = out@;
        if self.build.as_str().unicode_len() > 0 {
            out.append("+");
            out.append(self.build.as_str());
        }
        proof {
            let pre_part = if self.pre@.len() > 0 {
                "-"@ + self.pre@
            } else {
                Seq::empty()
            };
            let build_part = if self.build@.len() > 0 {
                "+"@ + self.build@
            } else {
                Seq::empty()
            };
            assert(numbers =~= decimal(self.major as nat) + "."@ + decimal(self.minor as nat) + "."@
                + decimal(self.patch as nat));
            assert(with_pre =~= numbers + pre_part);
            assert(out@ =~= with_pre + build_part);
        }
        out
    }
}

/// The result on the version of direnv, from what it was read as.
pub open spec fn version_verdict(parsed: Option<(u64, u64, u64, Seq<char>, Seq<char>)>) -> CheckResultView {
    match parsed {
        Some(parts) => if supported(parts) {
            CheckResultView::Green
        } else {
            CheckResultView::Red {
                msg: "direnv version "@ + version_text(parts) + " is not supported"@,
                suggestion: "Upgrade direnv to >= 2.33.0"@,
            }
        },
        None => CheckResultView::Red {
            msg: "Unable to parse direnv version"@,
            suggestion: "Upgrade direnv to >= 2.33.0"@,
        },
    }
}

/// The result on the version of direnv, from what it was read as: green
/// from release 2.33.0 on.
pub fn version_result(parsed: Option<ToolVersion>) -> (r: CheckResult)
    ensures
        r@ == version_verdict(version_parts(parsed)),
{
    let suggestion = String::from_str("Upgrade direnv to >= 2.33.0");
    match parsed {
        Some(version) => if version.is_supported() {
            CheckResult::Green
        } else {
            CheckResult::Red {
                msg: concat3("direnv version ", version.to_text().as_str(), " is not supported"),
                suggestion,
            }
        },
        None => CheckResult::Red {
            msg: String::from_str("Unable to parse direnv version"),
            suggestion,
        },
    }
}

/// What stage one reports: that the version of direnv is 2.33.0 or later,
/// without which the later stages cannot ask it anything. A direnv that
/// could not be asked fails the stage; a fault is passed on.
pub open spec fn version_outcome(required: bool, version: Probe<String>) -> Result<CheckView, Seq<char>> {
    match version {
        Probe::Found(text) => Ok(
            CheckView {
                title: "Direnv version"@,
                info: "direnv version = Ok("@ + debug_form(text@) + ")"@,
                result: version_verdict(semver_parsed(text@)),
                required,
            },
        ),
        Probe::Missing(why) => Ok(
            CheckView {
                title: "Direnv version"@,
                info: "direnv version = Err("@ + why@ + ")"@,
                result: CheckResultView::Red {
                    msg: "Unable to locate direnv: "@ + why@,
                    suggestion: "Upgrade direnv to >= 2.33.0"@,
                },
                required,
            },
        ),
        Probe::Faulted(how) => Err(how@),
    }
}

/// What stage two reports: that direnv is installed.
pub open spec fn install_outcome(required: bool, status: Probe<DirenvStatus>) -> Result<
    CheckView,
    Seq<char>,
> {
    match status {
        Probe::Found(status) => Ok(
            CheckView {
                title: "Direnv installation"@,
                info: "direnv installed at = Ok("@ + debug_form(status.config.self_path@) + ")"@,
                result: CheckResultView::Green,
                required,
            },
        ),
        Probe::Missing(why) => Ok(
            CheckView {
                title: "Direnv installation"@,
                info: "direnv installed at = Err("@ + why@ + ")"@,
                result: CheckResultView::Red {
                    msg: "Unable to locate direnv: "@ + why@,
                    suggestion: "Install direnv <https://nixos.asia/en/direnv#setup>"@,
                },
                required,
            },
        ),
        Probe::Faulted(how) => Err(how@),
    }
}

/// What stage three reports: that direnv was allowed on the local project.
pub open spec fn activation_outcome(
    local_flake: Seq<char>,
    status: Probe<DirenvStatus>,
    required: bool,
) -> Result<CheckView, Seq<char>> {
    let suggestion = "Run `direnv allow` under `"@ + local_flake + "`"@;
    let info = "Local flake: "@ + debug_form(local_flake) + " (has .envrc and is allowed)"@;
    match status {
        Probe::Found(status) => Ok(
            CheckView {
                title: "Direnv allowed"@,
                info,
                result: if status.state.allowed() {
                    CheckResultView::Green
                } else {
                    CheckResultView::Red {
                        msg: "direnv was not allowed on this project"@,
                        suggestion,
                    }
                },
                required,
            },
        ),
        Probe::Missing(why) => Ok(
            CheckView {
                title: "Direnv allowed"@,
                info,
                result: CheckResultView::Red {
                    msg: "Unable to check direnv status: "@ + why@,
                    suggestion,
                },
                required,
            },
        ),
        Probe::Faulted(how) => Err(how@),
    }
}

/// What a check gave, as a mathematical value.
pub open spec fn outcome(r: Result<Check, SystemError>) -> Result<CheckView, Seq<char>> {
    match r {
        Ok(check) => Ok(check@),
        Err(fault) => Err(fault.message@),
    }
}

/// [`Check`] that direnv version >= 2.33.0, for `direnv status --json`
/// support.
pub fn version_check(required: bool, version: &Probe<String>) -> (r: Result<Check, SystemError>)
    ensures
        outcome(r) == version_outcome(required, *version),
{
    match version {
        Probe::Found(text) => Ok(
            Check {
                title: String::from_str("Direnv version"),
                info: concat3("direnv version = Ok(", debug_text(text.as_str()).as_str(), ")"),
                result: version_result(parse_version(text.as_str())),
                required,
            },
        ),
        Probe::Missing(why) => Ok(
            Check {
                title: String::from_str("Direnv version"),
                info: concat3("direnv version = Err(", why.as_str(), ")"),
                result: CheckResult::Red {
                    msg: concat2("Unable to locate direnv: ", why.as_str()),
                    suggestion: String::from_str("Upgrade direnv to >= 2.33.0"),
                },
                required,
            },
        ),
        Probe::Faulted(how) => Err(SystemError { message: how.clone() }),
    }
}

/// [`Check`] that direnv was installed.
pub fn install_check(required: bool, status: &Probe<DirenvStatus>) -> (r: Result<Check, SystemError>)
    ensures
        outcome(r) == install_outcome(required, *status),
{
    match status {
        Probe::Found(found) => Ok(
            Check {
                title: String::from_str("Direnv installation"),
                info: concat3(
                    "direnv installed at = Ok(",
                    debug_text(found.config.self_path.as_str()).as_str(),
                    ")",
                ),
                result: CheckResult::Green,
                required,
            },
        ),
        Probe::Missing(why) => Ok(
            Check {
                title: String::from_str("Direnv installation"),
                info: concat3("direnv installed at = Err(", why.as_str(), ")"),
                result: CheckResult::Red {
                    msg: concat2("Unable to locate direnv: ", why.as_str()),
                    suggestion: String::from_str(
                        "Install direnv <https://nixos.asia/en/direnv#setup>",
                    ),
                },
                required,
            },
        ),
        Probe::Faulted(how) => Err(SystemError { message: how.clone() }),
    }
}

/// [`Check`] that direnv was activated on the local flake.
pub fn activation_check(local_flake: &str, status: &Probe<DirenvStatus>, required: bool) -> (r: Result<
    Check,
    SystemError,
>)
    ensures
        outcome(r) == activation_outcome(local_flake@, *status, required),
{
    let suggestion = concat3("Run `direnv allow` under `", local_flake, "`");
    let info = concat3(
        "Local flake: ",
        debug_text(local_flake).as_str(),
        " (has .envrc and is allowed)",
    );
    match status {
        Probe::Found(found) => Ok(
            Check {
                title: String::from_str("Direnv allowed"),
                info,
                result: if found.state.is_allowed() {
                    CheckResult::Green
                } else {
                    CheckResult::Red {
                        msg: String::from_str("direnv was not allowed on this project"),
                        suggestion,
                    }
                },
                required,
            },
        ),
        Probe::Missing(why) => Ok(
            Check {
                title: String::from_str("Direnv allowed"),
                info,
                result: CheckResult::Red {
                    msg: concat2("Unable to check direnv status: ", why.as_str()),
                    suggestion,
                },
                required,
            },
        ),
        Probe::Faulted(how) => Err(SystemError { message: how.clone() }),
    }
}

/// The directory in which stage three asks: that of a project on this
/// machine that holds an `.envrc`.
pub open spec fn activation_path(project: Option<&Project>) -> Option<Seq<char>> {
    match project {
        Some(project) => if project.has_envrc {
            project.url.local_path()
        } else {
            None
        },
        None => None,
    }
}

/// The outcomes of the stages after the first, which passed as `version`.
pub open spec fn later_stages(
    required: bool,
    version: CheckView,
    nix_info: &NixInfo,
    project: Option<&Project>,
) -> Result<Seq<CheckView>, Seq<char>> {
    match install_outcome(required, nix_info.direnv.status) {
        Err(fault) => Err(fault),
        Ok(install) => if install.failed() || activation_path(project) is None {
            Ok(seq![version, install])
        } else {
            match activation_outcome(
                activation_path(project)->0,
                project->0.direnv_status,
                required,
            ) {
                Err(fault) => Err(fault),
                Ok(activation) => Ok(seq![version, install, activation]),
            }
        },
    }
}

impl Checkable for Direnv {
    open spec fn enabled(&self) -> bool {
        self.enable
    }

    open spec fn severity(&self) -> bool {
        self.required
    }

    open spec fn identity(&self) -> Seq<char> {
        "Direnv"@
    }

    fn name(&self) -> (r: String) {
        String::from_str("Direnv")
    }

    fn is_required(&self) -> (r: bool) {
        self.required
    }

    proof fn disabled_is_silent(&self, nix_info: &NixInfo, project: Option<&Project>) {
    }

    proof fn outcomes_carry_severity(&self, nix_info: &NixInfo, project: Option<&Project>) {
    }

    open spec fn outcomes(&self, nix_info: &NixInfo, project: Option<&Project>) -> Result<
        Seq<CheckView>,
        Seq<char>,
    > {
        if !self.enable {
            Ok(Seq::empty())
        } else {
            match version_outcome(self.required, nix_info.direnv.version) {
                Err(fault) => Err(fault),
                Ok(version) => if version.failed() {
                    Ok(seq![version])
                } else {
                    later_stages(self.required, version, nix_info, project)
                },
            }
        }
    }

    fn check(&self, nix_info: &NixInfo, project: Option<&Project>) -> (r: Result<
        Vec<Check>,
        SystemError,
    >) {
        let mut checks: Vec<Check> = Vec::new();
        if !self.enable {
            assert(views(checks@) =~= Seq::empty());
            return Ok(checks);
        }
        let direnv_version_check = match version_check(self.required, &nix_info.direnv.version) {
            Ok(check) => check,
            Err(fault) => {
                return Err(fault);
            },
        };
        let ghost version = direnv_version_check@;
        let direnv_version_green = direnv_version_check.result.green();
        checks.push(direnv_version_check);
        if !direnv_version_green {
            assert(views(checks@) =~= seq![version]);
            return Ok(checks);
        }
        let direnv_install_check = match install_check(self.required, &nix_info.direnv.status) {
            Ok(check) => check,
            Err(fault) => {
                return Err(fault);
            },
        };
        let ghost install = direnv_install_check@;
        let direnv_installed = direnv_install_check.result.green();
        checks.push(direnv_install_check);
        assert(views(checks@) =~= seq![version, install]);
        if direnv_installed {
            // This stage only applies to a project on this machine that
            // holds an `.envrc`.
            if let Some(project) = project {
                if let Some(local_path) = project.url.as_local_path() {
                    if project.has_envrc {
                        match activation_check(
                            local_path,
                            &project.direnv_status,
                            self.required,
                        ) {
                            Ok(check) => {
                                let ghost activation = check@;
                                checks.push(check);
                                assert(views(checks@) =~= seq![version, install, activation]);
                            },
                            Err(fault) => {
                                return Err(fault);
                            },
                        }
                    }
                }
            }
        }
        Ok(checks)
    }
}

/// Where the first stage fails, the later stages are not looked at: the
/// unit reports the outcome of the first stage and nothing else.
pub proof fn failed_version_stops(unit: Direnv, nix_info: &NixInfo, project: Option<&Project>)
    requires
        unit.enable,
        version_outcome(unit.required, nix_info.direnv.version) matches Ok(version) && version.failed(),
    ensures
        unit.outcomes(nix_info, project) matches Ok(all) && all.len() == 1 && Ok::<CheckView, Seq<char>>(all[0])
            == version_outcome(unit.required, nix_info.direnv.version),
{
}

/// Where the second stage fails, the third is not looked at.
pub proof fn failed_install_stops(unit: Direnv, nix_info: &NixInfo, project: Option<&Project>)
    requires
        unit.enable,
        version_outcome(unit.required, nix_info.direnv.version) matches Ok(version) && !version.failed(),
        install_outcome(unit.required, nix_info.direnv.status) matches Ok(install) && install.failed(),
    ensures
        unit.outcomes(nix_info, project) matches Ok(all) && all.len() == 2,
{
}

} // verus!
