//! Whether the machine has the memory and the disk space that Nix needs.

use crate::error::SystemError;
use crate::info::{NixInfo, Project};
use crate::size::ByteSize;
use crate::text::concat2;
use crate::traits::{views, Check, CheckResult, CheckResultView, CheckView, Checkable};
use vstd::prelude::*;
use vstd::string::*;

verus! {

/// Check if the system has enough resources.
#[derive(Debug, Clone, PartialEq, Eq)]
pub struct System {
    pub enable: bool,
    /// Whether a failure of these checks fails the run.
    pub required: bool,
    /// Minimum required memory; none means that any amount will do.
    pub min_ram: Option<ByteSize>,
    /// Minimum required disk space; none means that any amount will do.
    pub min_disk_space: Option<ByteSize>,
}

impl Default for System {
    /// Enabled and advisory. Memory needs vary between projects, so no
    /// minimum is set; 1024 GB of disk are recommended for Nix.
    fn default() -> (r: Self)
        ensures
            r.enable,
            !r.required,
            r.min_ram is None,
            r.min_disk_space matches Some(min) && min.bytes == 1_024_000_000_000,
    {
        System {
            enable: true,
            required: false,
            min_ram: None,
            min_disk_space: Some(ByteSize::gb(1024)),
        }
    }
}

/// The result of holding a capacity against a minimum: green where there
/// is no minimum or the capacity reaches it, else red with `msg` followed
/// by the minimum, and `suggestion`.
pub open spec fn floor_result(
    min: Option<ByteSize>,
    total: ByteSize,
    msg: Seq<char>,
    suggestion: Seq<char>,
) -> CheckResultView {
    match min {
        Some(min) => if total.bytes < min.bytes {
            CheckResultView::Red { msg: msg + min.text@, suggestion }
        } else {
            CheckResultView::Green
        },
        None => CheckResultView::Green,
    }
}

/// The outcome on a capacity for which a minimum is set.
pub open spec fn floor_outcome(
    title: Seq<char>,
    label: Seq<char>,
    min: ByteSize,
    total: ByteSize,
    msg: Seq<char>,
    suggestion: Seq<char>,
    required: bool,
) -> CheckView {
    CheckView {
        title,
        info: label + min.text@ + "; total = "@ + total.text@,
        result: floor_result(Some(min), total, msg, suggestion),
        required,
    }
}

impl System {
    /// The outcome on memory, where a minimum is set for it.
    pub open spec fn memory_outcomes(&self, total: ByteSize) -> Seq<CheckView> {
        match self.min_ram {
            Some(min) => seq![
                floor_outcome(
                    "RAM"@,
                    "min ram = "@,
                    min,
                    total,
                    "Total memory is less than "@,
                    "Add more memory"@,
                    self.required,
                ),
            ],
            None => Seq::empty(),
        }
    }

    /// The outcome on disk space, where a minimum is set for it.
    pub open spec fn disk_outcomes(&self, total: ByteSize) -> Seq<CheckView> {
        match self.min_disk_space {
            Some(min) => seq![
                floor_outcome(
                    "Disk Space"@,
                    "min disk space = "@,
                    min,
                    total,
                    "Total disk space is less than "@,
                    "The Nix store requires a lot of disk space. Please add more disk space"@,
                    self.required,
                ),
            ],
            None => Seq::empty(),
        }
    }

    /// Holds the machine's memory against the minimum.
    pub fn check_memory(&self, total_memory: &ByteSize) -> (r: CheckResult)
        ensures
            r@ == floor_result(
                self.min_ram,
                *total_memory,
                "Total memory is less than "@,
                "Add more memory"@,
            ),
    {
        match &self.min_ram {
            Some(min_ram) => if total_memory.bytes < min_ram.bytes {
                CheckResult::Red {
                    msg: concat2("Total memory is less than ", min_ram.text.as_str()),
                    suggestion: String::from_str("Add more memory"),
                }
            } else {
                CheckResult::Green
            },
            None => CheckResult::Green,
        }
    }

    /// Holds the machine's disk space against the minimum.
    pub fn check_disk_space(&self, total_disk_space: &ByteSize) -> (r: CheckResult)
        ensures
            r@ == floor_result(
                self.min_disk_space,
                *total_disk_space,
                "Total disk space is less than "@,
                "The Nix store requires a lot of disk space. Please add more disk space"@,
            ),
    {
        match &self.min_disk_space {
            Some(min_disk_space) => if total_disk_space.bytes < min_disk_space.bytes {
                CheckResult::Red {
                    msg: concat2("Total disk space is less than ", min_disk_space.text.as_str()),
                    suggestion: String::from_str(
                        "The Nix store requires a lot of disk space. Please add more disk space",
                    ),
                }
            } else {
                CheckResult::Green
            },
            None => CheckResult::Green,
        }
    }
}

/// `label`, the minimum, `; total = ` and the capacity.
fn floor_info(label: &str, min: &ByteSize, total: &ByteSize) -> (r: String)
    ensures
        r@ == label@ + min.text@ + "; total = "@ + total.text@,
{
    let mut out = concat2(label, min.text.as_str());
    out.append("; total = ");
    out.append(total.text.as_str());
    out
}

impl Checkable for System {
    open spec fn enabled(&self) -> bool {
        self.enable
    }

    open spec fn severity(&self) -> bool {
        self.required
    }

    open spec fn identity(&self) -> Seq<char> {
        "System"@
    }

    fn name(&self) -> (r: String) {
        String::from_str("System")
    }

    fn is_required(&self) -> (r: bool) {
        self.required
    }

    proof fn disabled_is_silent(&self, nix_info: &NixInfo, project: Option<&Project>) {
    }

    proof fn outcomes_carry_severity(&self, nix_info: &NixInfo, project: Option<&Project>) {
    }

    open spec fn outcomes(&self, nix_info: &NixInfo, project: Option<&Project>) -> Result<
        Seq<CheckView>,
        Seq<char>,
    > {
        if self.enable {
            Ok(
                self.memory_outcomes(nix_info.nix_env.total_memory) + self.disk_outcomes(
                    nix_info.nix_env.total_disk_space,
                ),
            )
        } else {
            Ok(Seq::empty())
        }
    }

    fn check(&self, nix_info: &NixInfo, project: Option<&Project>) -> (r: Result<
        Vec<Check>,
        SystemError,
    >) {
        let mut checks: Vec<Check> = Vec::new();
        let nix_env = &nix_info.nix_env;
        if self.enable {
            if let Some(min_ram) = &self.min_ram {
                checks.push(
                    Check {
                        title: String::from_str("RAM"),
                        info: floor_info("min ram = ", min_ram, &nix_env.total_memory),
                        result: self.check_memory(&nix_env.total_memory),
                        required: self.required,
                    },
                );
            }
            assert(views(checks@) =~= self.memory_outcomes(nix_env.total_memory));
            if let Some(min_disk_space) = &self.min_disk_space {
                checks.push(
                    Check {
                        title: String::from_str("Disk Space"),
                        info: floor_info(
                            "min disk space = ",
                            min_disk_space,
                            &nix_env.total_disk_space,
                        ),
                        result: self.check_disk_space(&nix_env.total_disk_space),
                        required: self.required,
                    },
                );
            }
            assert(views(checks@) =~= self.memory_outcomes(nix_env.total_memory)
                + self.disk_outcomes(nix_env.total_disk_space));
        } else {
            assert(views(checks@) =~= Seq::empty());
        }
        Ok(checks)
    }
}

} // verus!
