use nix_health::check::caches::Caches;
use nix_health::check::direnv::{activation_check, install_check, version_check, Direnv};
use nix_health::check::flake_enabled::FlakeEnabled;
use nix_health::check::max_jobs::MaxJobs;
use nix_health::check::min_nix_version::MinNixVersion;
use nix_health::check::system::System;
use nix_health::check::trusted_users::{TrustedUsers, UserEntry};
use nix_health::env::{NixEnv, NixSystem, OsFamily};
use nix_health::error::SystemError;
use nix_health::info::{
    DirenvConfig, DirenvFacts, DirenvRC, DirenvState, DirenvStatus, NixConfig, NixInfo, Probe,
    Project,
};
use nix_health::size::ByteSize;
use nix_health::traits::{Check, CheckResult, Checkable};
use nix_health::flake::FlakeUrl;
use nix_health::verdict::AllChecksResult;
use nix_health::version::NixVersion;
use nix_health::NixHealth;

fn strings(items: &[&str]) -> Vec<String> {
    items.iter().map(|s| s.to_string()).collect()
}

fn status(allowed: Option<u32>) -> DirenvStatus {
    DirenvStatus {
        config: DirenvConfig {
            config_dir: "/home/alice/.config/direnv".to_string(),
            self_path: "/usr/bin/direnv".to_string(),
        },
        state: DirenvState {
            found_rc: allowed.map(|allowed| DirenvRC {
                allowed,
                path: "/home/alice/project/.envrc".to_string(),
            }),
            loaded_rc: None,
        },
    }
}

fn healthy() -> NixInfo {
    NixInfo {
        nix_version: NixVersion { major: 2, minor: 18, patch: 1 },
        nix_config: NixConfig {
            experimental_features: strings(&["nix-command", "flakes"]),
            max_jobs: 8,
            substituters: strings(&["https://cache.nixos.org/"]),
            system: "x86_64-linux".to_string(),
            trusted_users: strings(&["root", "@wheel"]),
        },
        nix_env: NixEnv {
            current_user: "alice".to_string(),
            current_user_groups: strings(&["users", "wheel"]),
            os: NixSystem::NixOS,
            total_disk_space: ByteSize::new(2_000_000_000_000),
            total_memory: ByteSize::new(16_000_000_000),
        },
        direnv: DirenvFacts {
            version: Probe::Found("2.34.0".to_string()),
            status: Probe::Found(status(None)),
        },
    }
}

fn project(has_envrc: bool, allowed: Option<u32>) -> Project {
    Project {
        url: FlakeUrl("path:/home/alice/project".to_string()),
        has_envrc,
        direnv_status: Probe::Found(status(allowed)),
    }
}

fn red(msg: &str, suggestion: &str) -> CheckResult {
    CheckResult::Red { msg: msg.to_string(), suggestion: suggestion.to_string() }
}

fn only(checks: Result<Vec<Check>, SystemError>) -> Check {
    let mut checks = checks.unwrap();
    assert_eq!(checks.len(), 1);
    checks.remove(0)
}

#[test]
fn min_nix_version_passes_at_the_floor() {
    let mut info = healthy();
    info.nix_version = NixVersion { major: 2, minor: 13, patch: 0 };
    let check = only(MinNixVersion::default().check(&info, None));
    assert_eq!(
        check,
        Check {
            title: "Minimum Nix Version".to_string(),
            info: "nix version = 2.13.0".to_string(),
            result: CheckResult::Green,
            required: true,
        }
    );
}

#[test]
fn min_nix_version_fails_below_the_floor() {
    let mut info = healthy();
    info.nix_version = NixVersion { major: 2, minor: 12, patch: 9 };
    let check = only(MinNixVersion::default().check(&info, None));
    assert_eq!(check.info, "nix version = 2.12.9");
    assert_eq!(
        check.result,
        red(
            "Your Nix version (2.12.9) is too old; we require at least 2.13.0",
            "See https://nixos.org/manual/nix/stable/command-ref/new-cli/nix3-upgrade-nix.html"
        )
    );
    assert!(check.required);
}

#[test]
fn nix_version_order_goes_by_major_then_minor_then_patch() {
    let v = |major, minor, patch| NixVersion { major, minor, patch };
    assert!(v(3, 0, 0).meets(&v(2, 99, 99)));
    assert!(!v(2, 99, 99).meets(&v(3, 0, 0)));
    assert!(v(2, 14, 0).meets(&v(2, 13, 9)));
    assert!(!v(2, 13, 9).meets(&v(2, 14, 0)));
    assert!(v(2, 13, 1).meets(&v(2, 13, 0)));
    assert!(v(2, 13, 0).meets(&v(2, 13, 0)));
    assert!(!v(2, 13, 0).meets(&v(2, 13, 1)));
}

#[test]
fn flake_enabled_needs_every_feature() {
    let info = healthy();
    let check = only(FlakeEnabled::default().check(&info, None));
    assert_eq!(check.title, "Flakes Enabled");
    assert_eq!(check.info, "experimental-features = nix-command flakes");
    assert_eq!(check.result, CheckResult::Green);

    let mut info = healthy();
    info.nix_config.experimental_features = strings(&["flakes"]);
    let check = only(FlakeEnabled::default().check(&info, None));
    assert_eq!(
        check.result,
        red("Nix flakes are not enabled", "See https://nixos.wiki/wiki/Flakes#Enable_flakes")
    );
}

#[test]
fn flake_enabled_with_no_feature_asked_for_passes() {
    let mut info = healthy();
    info.nix_config.experimental_features = vec![];
    let unit = FlakeEnabled { enable: true, required: false, features: vec![] };
    let check = only(unit.check(&info, None));
    assert_eq!(check.info, "experimental-features = ");
    assert_eq!(check.result, CheckResult::Green);
    assert!(!check.required);
}

#[test]
fn max_jobs_needs_more_than_one() {
    let info = healthy();
    let check = only(MaxJobs::default().check(&info, None));
    assert_eq!(check.title, "Max Jobs");
    assert_eq!(check.info, "max-jobs = 8");
    assert_eq!(check.result, CheckResult::Green);

    let mut info = healthy();
    info.nix_config.max_jobs = 1;
    let check = only(MaxJobs::default().check(&info, None));
    assert_eq!(check.info, "max-jobs = 1");
    assert_eq!(
        check.result,
        red("You are using only 1 core for nix builds", "Try editing /etc/nix/nix.conf")
    );

    info.nix_config.max_jobs = -2147483648;
    let check = only(MaxJobs::default().check(&info, None));
    assert_eq!(check.info, "max-jobs = -2147483648");
}

#[test]
fn caches_pass_with_the_official_cache() {
    let info = healthy();
    let check = only(Caches::default().check(&info, None));
    assert_eq!(check.title, "Nix Caches in use");
    assert_eq!(check.info, "substituters = https://cache.nixos.org/");
    assert_eq!(check.result, CheckResult::Green);
    assert!(check.required);
}

#[test]
fn caches_name_the_missing_extra_cache() {
    let info = healthy();
    let unit = Caches {
        enable: true,
        required_check: true,
        required: strings(&["https://cache.nixos.org/", "https://foo.cachix.org/"]),
    };
    let check = only(unit.check(&info, None));
    assert_eq!(
        check.result,
        red(
            "You are missing a required cache: https://foo.cachix.org/",
            "Add substituters in /etc/nix/nix.conf or use 'cachix use'"
        )
    );
}

#[test]
fn caches_report_the_official_cache_apart() {
    let mut info = healthy();
    info.nix_config.substituters = strings(&["https://foo.cachix.org/"]);
    let unit = Caches {
        enable: true,
        required_check: true,
        required: strings(&["https://foo.cachix.org/"]),
    };
    let check = only(unit.check(&info, None));
    assert_eq!(check.info, "substituters = https://foo.cachix.org/");
    assert_eq!(
        check.result,
        red("You are missing the official cache", "Try looking in /etc/nix/nix.conf")
    );
}

#[test]
fn caches_list_every_missing_cache_in_order() {
    let info = healthy();
    let unit = Caches {
        enable: true,
        required_check: false,
        required: strings(&[
            "https://b.cachix.org/",
            "https://cache.nixos.org/",
            "https://a.cachix.org/",
        ]),
    };
    assert_eq!(
        unit.get_missing_caches(&info.nix_config.substituters),
        strings(&["https://b.cachix.org/", "https://a.cachix.org/"])
    );
    let check = only(unit.check(&info, None));
    assert_eq!(
        check.result,
        red(
            "You are missing a required cache: https://b.cachix.org/ https://a.cachix.org/",
            "Add substituters in /etc/nix/nix.conf or use 'cachix use'"
        )
    );
    assert!(!check.required);
}

#[test]
fn trusted_users_pass_by_group() {
    let info = healthy();
    let check = only(TrustedUsers::default().check(&info, None));
    assert_eq!(
        check,
        Check {
            title: "Trusted Users".to_string(),
            info: "trusted-users = root @wheel".to_string(),
            result: CheckResult::Green,
            required: true,
        }
    );
}

#[test]
fn trusted_users_pass_by_name() {
    let mut info = healthy();
    info.nix_config.trusted_users = strings(&["root", "alice"]);
    info.nix_env.current_user_groups = vec![];
    assert!(TrustedUsers::is_trusted(&info));
}

#[test]
fn trusted_users_fail_on_a_declarative_system() {
    let mut info = healthy();
    info.nix_env.current_user_groups = strings(&["users"]);
    info.nix_env.os = NixSystem::NixOS;
    let check = only(TrustedUsers::default().check(&info, None));
    assert_eq!(
        check.result,
        red(
            "User 'alice' not present in trusted_users",
            "Add `nix.trustedUsers = [ \"root\" \"alice\" ];` to your nixos configuration"
        )
    );

    info.nix_env.os = NixSystem::MacOS { nix_darwin: true, rosetta: false };
    let check = only(TrustedUsers::default().check(&info, None));
    assert_eq!(
        check.result,
        red(
            "User 'alice' not present in trusted_users",
            "Add `nix.trustedUsers = [ \"root\" \"alice\" ];` to your nix-darwin configuration"
        )
    );
}

#[test]
fn trusted_users_fail_on_an_imperative_system() {
    let mut info = healthy();
    info.nix_env.current_user_groups = strings(&["users"]);
    info.nix_env.os = NixSystem::Other("Ubuntu".to_string());
    let check = only(TrustedUsers::default().check(&info, None));
    assert_eq!(
        check.result,
        red(
            "User 'alice' not present in trusted_users",
            "Set `trusted-users = root alice` in /etc/nix/nix.conf and then restart the Nix daemon using `sudo pkill nix-daemon`"
        )
    );
}

#[test]
fn trusted_users_tell_groups_from_users() {
    // A user entry does not cover a group of that name, nor a group entry
    // a user.
    let mut info = healthy();
    info.nix_config.trusted_users = strings(&["wheel", "@alice"]);
    assert!(!TrustedUsers::is_trusted(&info));
    info.nix_config.trusted_users = strings(&["@"]);
    assert!(!TrustedUsers::is_trusted(&info));
    info.nix_config.trusted_users = vec![];
    assert!(!TrustedUsers::is_trusted(&info));
    assert_eq!(UserEntry::parse("@wheel"), UserEntry::Group("wheel".to_string()));
    assert_eq!(UserEntry::parse("root"), UserEntry::User("root".to_string()));
    assert_eq!(UserEntry::parse(""), UserEntry::User(String::new()));
    assert_eq!(UserEntry::parse("@"), UserEntry::Group(String::new()));
}

#[test]
fn system_default_checks_disk_space_only() {
    let info = healthy();
    let checks = System::default().check(&info, None).unwrap();
    assert_eq!(checks.len(), 1);
    assert_eq!(checks[0].title, "Disk Space");
    assert_eq!(checks[0].info, "min disk space = 1024.0 GB; total = 2.0 TB");
    assert_eq!(checks[0].result, CheckResult::Green);
    assert!(!checks[0].required);
}

#[test]
fn system_reports_memory_then_disk() {
    let mut info = healthy();
    info.nix_env.total_disk_space = ByteSize::new(500_000_000_000);
    let unit = System {
        enable: true,
        required: true,
        min_ram: Some(ByteSize::gb(32)),
        min_disk_space: Some(ByteSize::gb(1024)),
    };
    let checks = unit.check(&info, None).unwrap();
    assert_eq!(checks.len(), 2);
    assert_eq!(checks[0].title, "RAM");
    assert_eq!(checks[0].info, "min ram = 32.0 GB; total = 16.0 GB");
    assert_eq!(checks[0].result, red("Total memory is less than 32.0 GB", "Add more memory"));
    assert!(checks[0].required);
    assert_eq!(checks[1].title, "Disk Space");
    assert_eq!(
        checks[1].result,
        red(
            "Total disk space is less than 1024.0 GB",
            "The Nix store requires a lot of disk space. Please add more disk space"
        )
    );
    assert_eq!(unit.check_memory(&ByteSize::gb(32)), CheckResult::Green);
    assert_eq!(unit.check_disk_space(&ByteSize::gb(1023)), checks[1].result);
}

#[test]
fn system_without_minimums_reports_nothing() {
    let info = healthy();
    let unit = System { enable: true, required: true, min_ram: None, min_disk_space: None };
    assert_eq!(unit.check(&info, None).unwrap(), vec![]);
    assert_eq!(unit.check_memory(&ByteSize::new(0)), CheckResult::Green);
    assert_eq!(unit.check_disk_space(&ByteSize::new(0)), CheckResult::Green);
}

#[test]
fn byte_size_counts_gigabytes_of_a_thousand_million() {
    assert_eq!(ByteSize::gb(1024).bytes, 1_024_000_000_000);
    assert_eq!(ByteSize::gb(0).bytes, 0);
    assert_eq!(ByteSize::new(1_500_000).text, "1.5 MB");
    assert_eq!(ByteSize::new(7).duplicate(), ByteSize::new(7));
}

#[test]
fn direnv_all_stages_pass() {
    let info = healthy();
    let project = project(true, Some(0));
    let checks = Direnv::default().check(&info, Some(&project)).unwrap();
    assert_eq!(checks.len(), 3);
    assert_eq!(
        checks[0],
        Check {
            title: "Direnv version".to_string(),
            info: "direnv version = Ok(\"2.34.0\")".to_string(),
            result: CheckResult::Green,
            required: false,
        }
    );
    assert_eq!(
        checks[1],
        Check {
            title: "Direnv installation".to_string(),
            info: "direnv installed at = Ok(\"/usr/bin/direnv\")".to_string(),
            result: CheckResult::Green,
            required: false,
        }
    );
    assert_eq!(
        checks[2],
        Check {
            title: "Direnv allowed".to_string(),
            info: "Local flake: \"/home/alice/project\" (has .envrc and is allowed)".to_string(),
            result: CheckResult::Green,
            required: false,
        }
    );
}

#[test]
fn direnv_failed_version_gates_the_later_stages() {
    let mut info = healthy();
    info.direnv.version = Probe::Found("2.32.1".to_string());
    let project = project(true, Some(0));
    let unit = Direnv { enable: true, required: true };
    let checks = unit.check(&info, Some(&project)).unwrap();
    assert_eq!(checks.len(), 1);
    assert_eq!(checks[0].title, "Direnv version");
    assert_eq!(
        checks[0].result,
        red("direnv version 2.32.1 is not supported", "Upgrade direnv to >= 2.33.0")
    );
    assert!(checks[0].required);
    let advisory = Direnv::default().check(&info, Some(&project)).unwrap();
    assert_eq!(advisory.len(), 1);
    assert!(!advisory[0].required);
}

#[test]
fn direnv_version_goes_by_semantic_versioning() {
    let result = |text: &str| {
        version_check(false, &Probe::Found(text.to_string())).unwrap().result
    };
    assert_eq!(result("2.33.0"), CheckResult::Green);
    assert_eq!(result("2.33.0+build.5"), CheckResult::Green);
    assert_eq!(result("3.0.0-alpha"), CheckResult::Green);
    assert_eq!(result("10.0.0"), CheckResult::Green);
    assert_eq!(
        result("2.33.0-rc.1+b7"),
        red("direnv version 2.33.0-rc.1+b7 is not supported", "Upgrade direnv to >= 2.33.0")
    );
    assert_eq!(
        result("1.99.99"),
        red("direnv version 1.99.99 is not supported", "Upgrade direnv to >= 2.33.0")
    );
    assert_eq!(
        result("v2.34"),
        red("Unable to parse direnv version", "Upgrade direnv to >= 2.33.0")
    );
    assert_eq!(
        result(""),
        red("Unable to parse direnv version", "Upgrade direnv to >= 2.33.0")
    );
}

#[test]
fn direnv_that_is_not_there_fails_the_first_stage() {
    let probe = Probe::Missing("No such file or directory (os error 2)".to_string());
    let check = version_check(true, &probe).unwrap();
    assert!(check.required);
    assert_eq!(check.info, "direnv version = Err(No such file or directory (os error 2))");
    assert_eq!(
        check.result,
        red(
            "Unable to locate direnv: No such file or directory (os error 2)",
            "Upgrade direnv to >= 2.33.0"
        )
    );
}

#[test]
fn direnv_install_check_reports_where_it_is() {
    let check = install_check(true, &Probe::Found(status(None))).unwrap();
    assert_eq!(check.info, "direnv installed at = Ok(\"/usr/bin/direnv\")");
    assert_eq!(check.result, CheckResult::Green);
    assert!(check.required);

    let check = install_check(false, &Probe::Missing("not found".to_string())).unwrap();
    assert_eq!(check.title, "Direnv installation");
    assert_eq!(check.info, "direnv installed at = Err(not found)");
    assert_eq!(
        check.result,
        red(
            "Unable to locate direnv: not found",
            "Install direnv <https://nixos.asia/en/direnv#setup>"
        )
    );
    assert!(!check.required);

    let fault = install_check(true, &Probe::Faulted("bad output".to_string()));
    assert_eq!(fault, Err(SystemError { message: "bad output".to_string() }));
}

#[test]
fn direnv_failed_install_gates_the_activation() {
    let mut info = healthy();
    info.direnv.status = Probe::Missing("not found".to_string());
    let project = project(true, Some(0));
    let checks = Direnv::default().check(&info, Some(&project)).unwrap();
    assert_eq!(checks.len(), 2);
    assert_eq!(checks[1].title, "Direnv installation");
    assert!(!checks[1].result.green());
}

#[test]
fn direnv_activation_applies_to_local_projects_with_envrc() {
    let info = healthy();
    let unit = Direnv::default();
    assert_eq!(unit.check(&info, None).unwrap().len(), 2);
    assert_eq!(unit.check(&info, Some(&project(false, Some(0)))).unwrap().len(), 2);
    let mut remote = project(true, Some(0));
    remote.url = FlakeUrl("github:nixos/nixpkgs".to_string());
    assert_eq!(unit.check(&info, Some(&remote)).unwrap().len(), 2);
    assert_eq!(unit.check(&info, Some(&project(true, Some(1)))).unwrap().len(), 3);
}

#[test]
fn direnv_activation_check_tells_why() {
    let quoted = "Local flake: \"/p \\\"q\\\"\" (has .envrc and is allowed)";
    let check = activation_check("/p \"q\"", &Probe::Found(status(Some(1))), true).unwrap();
    assert_eq!(check.title, "Direnv allowed");
    assert_eq!(check.info, quoted);
    assert_eq!(
        check.result,
        red("direnv was not allowed on this project", "Run `direnv allow` under `/p \"q\"`")
    );
    assert!(check.required);

    let check = activation_check("/p", &Probe::Found(status(None)), false).unwrap();
    assert_eq!(
        check.result,
        red("direnv was not allowed on this project", "Run `direnv allow` under `/p`")
    );

    let check = activation_check("/p", &Probe::Missing("exit 1".to_string()), false).unwrap();
    assert_eq!(
        check.result,
        red("Unable to check direnv status: exit 1", "Run `direnv allow` under `/p`")
    );

    let check = activation_check("/p", &Probe::Found(status(Some(0))), false).unwrap();
    assert_eq!(check.result, CheckResult::Green);
}

#[test]
fn direnv_state_is_allowed_only_at_zero() {
    assert!(status(Some(0)).state.is_allowed());
    assert!(!status(Some(1)).state.is_allowed());
    assert!(!status(Some(2)).state.is_allowed());
    assert!(!status(None).state.is_allowed());
}

#[test]
fn disabled_units_report_nothing() {
    let mut info = healthy();
    info.nix_version = NixVersion { major: 0, minor: 0, patch: 0 };
    info.nix_config.max_jobs = 0;
    info.nix_config.substituters = vec![];
    info.nix_config.experimental_features = vec![];
    info.nix_config.trusted_users = vec![];
    info.direnv.version = Probe::Faulted("boom".to_string());
    let project = project(true, Some(2));
    let mut health = NixHealth::default();
    health.max_jobs.enable = false;
    health.caches.enable = false;
    health.flake_enabled.enable = false;
    health.nix_version.enable = false;
    health.system.enable = false;
    health.trusted_users.enable = false;
    health.direnv.enable = false;
    assert_eq!(health.max_jobs.check(&info, Some(&project)), Ok(vec![]));
    assert_eq!(health.caches.check(&info, Some(&project)), Ok(vec![]));
    assert_eq!(health.flake_enabled.check(&info, Some(&project)), Ok(vec![]));
    assert_eq!(health.nix_version.check(&info, Some(&project)), Ok(vec![]));
    assert_eq!(health.system.check(&info, Some(&project)), Ok(vec![]));
    assert_eq!(health.trusted_users.check(&info, Some(&project)), Ok(vec![]));
    assert_eq!(health.direnv.check(&info, Some(&project)), Ok(vec![]));
    assert_eq!(health.run_checks(&info, Some(&project)), vec![]);
}

#[test]
fn run_reports_the_units_in_their_order() {
    let info = healthy();
    let project = project(true, Some(0));
    let checks = NixHealth::default().run_checks(&info, Some(&project));
    let titles: Vec<&str> = checks.iter().map(|c| c.title.as_str()).collect();
    assert_eq!(
        titles,
        vec![
            "Minimum Nix Version",
            "Flakes Enabled",
            "Disk Space",
            "Max Jobs",
            "Nix Caches in use",
            "Trusted Users",
            "Direnv version",
            "Direnv installation",
            "Direnv allowed",
        ]
    );
    assert!(checks.iter().all(|c| c.result.green()));
    assert_eq!(NixHealth::print_report_returning_exit_code(&checks), 0);
}

#[test]
fn a_fault_in_one_unit_leaves_the_others_alone() {
    let mut info = healthy();
    info.direnv.status = Probe::Faulted("direnv status printed no JSON".to_string());
    let mut health = NixHealth::default();
    health.direnv.required = true;
    let project = project(true, Some(0));
    assert_eq!(
        health.direnv.check(&info, Some(&project)),
        Err(SystemError { message: "direnv status printed no JSON".to_string() })
    );
    let checks = health.run_checks(&info, Some(&project));
    assert_eq!(checks.len(), 7);
    let titles: Vec<&str> = checks.iter().map(|c| c.title.as_str()).collect();
    assert_eq!(
        titles,
        vec![
            "Minimum Nix Version",
            "Flakes Enabled",
            "Disk Space",
            "Max Jobs",
            "Nix Caches in use",
            "Trusted Users",
            "Direnv",
        ]
    );
    assert_eq!(
        checks[6],
        Check {
            title: "Direnv".to_string(),
            info: "direnv status printed no JSON".to_string(),
            result: red(
                "Unable to determine the status of this check",
                "Look into the fault reported with this check, then run the checks again"
            ),
            required: true,
        }
    );
    assert_eq!(NixHealth::print_report_returning_exit_code(&checks), 1);

    health.direnv.required = false;
    let checks = health.run_checks(&info, Some(&project));
    assert_eq!(checks.len(), 7);
    assert!(!checks[6].required);
    assert_eq!(NixHealth::print_report_returning_exit_code(&checks), 0);
}

#[test]
fn unit_names_and_severities() {
    let health = NixHealth::default();
    assert_eq!(health.nix_version.name(), "Minimum Nix Version");
    assert_eq!(health.flake_enabled.name(), "Flakes Enabled");
    assert_eq!(health.system.name(), "System");
    assert_eq!(health.max_jobs.name(), "Max Jobs");
    assert_eq!(health.caches.name(), "Nix Caches in use");
    assert_eq!(health.trusted_users.name(), "Trusted Users");
    assert_eq!(health.direnv.name(), "Direnv");
    assert_eq!(
        health.unit_names(),
        strings(&[
            "Minimum Nix Version",
            "Flakes Enabled",
            "System",
            "Max Jobs",
            "Nix Caches in use",
            "Trusted Users",
            "Direnv",
        ])
    );
    assert!(health.nix_version.is_required());
    assert!(health.caches.is_required());
    assert!(!health.system.is_required());
    assert!(!health.direnv.is_required());
}

#[test]
fn nix_system_knows_its_configuration() {
    let darwin = NixSystem::classify(OsFamily::Macos, true, false);
    assert_eq!(darwin, NixSystem::MacOS { nix_darwin: true, rosetta: false });
    assert!(darwin.has_configuration_nix());
    assert_eq!(darwin.nix_system_config_label(), Some("nix-darwin configuration".to_string()));
    assert_eq!(darwin.to_text(), "nix-darwin");

    let mac = NixSystem::classify(OsFamily::Macos, false, true);
    assert_eq!(mac, NixSystem::MacOS { nix_darwin: false, rosetta: true });
    assert!(!mac.has_configuration_nix());
    assert_eq!(mac.nix_system_config_label(), None);
    assert_eq!(mac.to_text(), "macOS");

    let nixos = NixSystem::classify(OsFamily::NixOS, false, false);
    assert!(nixos.has_configuration_nix());
    assert_eq!(nixos.nix_system_config_label(), Some("nixos configuration".to_string()));
    assert_eq!(nixos.to_text(), "NixOS");

    let other = NixSystem::classify(OsFamily::Other("Arch Linux".to_string()), true, true);
    assert!(!other.has_configuration_nix());
    assert_eq!(other.nix_system_config_label(), None);
    assert_eq!(other.to_text(), "Arch Linux");
}

#[test]
fn flake_url_reads_trimmed_text() {
    assert_eq!(FlakeUrl::from_str("  github:nixos/nixpkgs \n"), Ok(FlakeUrl("github:nixos/nixpkgs".to_string())));
    assert_eq!(FlakeUrl::from_str("a b"), Ok(FlakeUrl("a b".to_string())));
    assert_eq!(FlakeUrl::from_str("\u{3000}x\u{a0}"), Ok(FlakeUrl("x".to_string())));
    assert_eq!(FlakeUrl::from_str(""), Err("Empty string is not a valid Flake URL".to_string()));
    assert_eq!(FlakeUrl::from_str(" \t\r\n"), Err("Empty string is not a valid Flake URL".to_string()));
    assert_eq!(FlakeUrl::from("x".to_string()).to_text(), "x");
    for text in ["", " ", "a", " a", "a ", "  a b  ", "\t\ta\n", "é ", " \u{2003}é\u{2003} "] {
        assert_eq!(nix_health::flake::trim(text), text.trim());
    }
}

#[test]
fn flake_url_names_local_directories() {
    let local = |text: &str| FlakeUrl(text.to_string()).as_local_path().map(|s| s.to_string());
    assert_eq!(local("."), Some(".".to_string()));
    assert_eq!(local("./foo"), Some("./foo".to_string()));
    assert_eq!(local("/abs/dir"), Some("/abs/dir".to_string()));
    assert_eq!(local("path:/abs/dir"), Some("/abs/dir".to_string()));
    assert_eq!(local("path:./rel"), Some("./rel".to_string()));
    assert_eq!(local("path:rel"), None);
    assert_eq!(local("path:"), None);
    assert_eq!(local("path"), None);
    assert_eq!(local("github:nixos/nixpkgs"), None);
    assert_eq!(local(""), None);
    assert!(nix_health::flake::has_prefix("path:x", "path:"));
    assert!(nix_health::flake::has_prefix("x", ""));
    assert!(!nix_health::flake::has_prefix("pat", "path:"));
    assert!(!nix_health::flake::has_prefix("pathx/", "path:"));
}

#[test]
fn run_gives_the_report_and_its_verdict() {
    let mut info = healthy();
    let health = NixHealth::default();
    let (checks, verdict) = health.run(&info, None);
    assert_eq!(checks, health.run_checks(&info, None));
    assert_eq!(checks.len(), 8);
    assert_eq!(verdict, AllChecksResult::Pass);

    info.nix_env.total_disk_space = ByteSize::new(1);
    let (_, verdict) = health.run(&info, None);
    assert_eq!(verdict, AllChecksResult::PassSomeFail);

    info.nix_config.max_jobs = 1;
    let (checks, verdict) = health.run(&info, None);
    assert_eq!(verdict, AllChecksResult::Fail);
    assert_eq!(verdict.report(), 1);
    assert_eq!(checks.len(), 8);
}

#[test]
fn flake_url_splits_at_the_first_hash() {
    let split = |text: &str| {
        let (url, attr) = FlakeUrl(text.to_string()).split_attr();
        (url.0, attr.0)
    };
    assert_eq!(split(".#foo"), (".".to_string(), Some("foo".to_string())));
    assert_eq!(split("github:a/b#x.y#z"), ("github:a/b".to_string(), Some("x.y#z".to_string())));
    assert_eq!(split("github:a/b"), ("github:a/b".to_string(), None));
    assert_eq!(split("#"), (String::new(), Some(String::new())));
    assert_eq!(split(""), (String::new(), None));
    let (_, attr) = FlakeUrl(".#a.b".to_string()).split_attr();
    assert_eq!(attr.as_list(), strings(&["a", "b"]));
    assert_eq!(attr.get_name(), "a.b");
}

#[test]
fn outcomes_carry_the_severity_of_their_unit() {
    let info = healthy();
    let project = project(true, Some(0));
    for required in [false, true] {
        let direnv = Direnv { enable: true, required };
        assert!(direnv.check(&info, Some(&project)).unwrap().iter().all(|c| c.required == required));
        let system = System {
            enable: true,
            required,
            min_ram: Some(ByteSize::gb(1)),
            min_disk_space: Some(ByteSize::gb(1)),
        };
        assert!(system.check(&info, None).unwrap().iter().all(|c| c.required == required));
        let jobs = MaxJobs { enable: true, required };
        assert!(jobs.check(&info, None).unwrap().iter().all(|c| c.required == required));
    }
}

#[test]
fn direnv_version_agrees_with_semver() {
    let floor = semver::Version::parse("2.33.0").unwrap();
    let texts = [
        "0.0.0", "1.0.0", "2.32.99", "2.33.0", "2.33.1", "2.34.0", "3.0.0", "2.33.0-0",
        "2.33.0-alpha", "2.33.0-alpha.1+x", "2.33.0+x", "2.33.1-rc.1", "2.34.0-beta+exp.sha.5114f85",
        "18446744073709551615.0.0", "2.033.0", "2.33", "2.33.0.0", "x", "2.33.0-", "2.33.0+",
    ];
    for text in texts {
        let check = version_check(false, &Probe::Found(text.to_string())).unwrap();
        match semver::Version::parse(text) {
            Ok(version) if version >= floor => assert_eq!(check.result, CheckResult::Green),
            Ok(version) => assert_eq!(
                check.result,
                red(
                    &format!("direnv version {} is not supported", version),
                    "Upgrade direnv to >= 2.33.0"
                )
            ),
            Err(_) => assert_eq!(
                check.result,
                red("Unable to parse direnv version", "Upgrade direnv to >= 2.33.0")
            ),
        }
        assert_eq!(check.info, format!("direnv version = Ok({:?})", text));
    }
}
