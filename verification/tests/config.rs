use nix_health::check::caches::{normalize_urls, Caches};
use nix_health::check::direnv::Direnv;
use nix_health::check::min_nix_version::MinNixVersion;
use nix_health::config::{
    pick, CachesConfig, ConfigError, FlakeEnabledConfig, HealthConfig, MinNixVersionConfig,
    Switches, SystemConfig,
};
use nix_health::size::ByteSize;
use nix_health::version::NixVersion;
use nix_health::NixHealth;

fn switches(v: Option<&serde_json::Value>) -> Switches {
    Switches {
        enable: v.and_then(|v| v.get("enable")).and_then(|v| v.as_bool()),
        required: v.and_then(|v| v.get("required")).and_then(|v| v.as_bool()),
    }
}

fn nothing_set() -> HealthConfig {
    HealthConfig {
        max_jobs: None,
        caches: None,
        flake_enabled: None,
        nix_version: None,
        system: None,
        trusted_users: None,
        direnv: None,
    }
}

/// Reads the keys that these tests set out of a JSON document.
fn from_json(json: &str) -> NixHealth {
    let doc: serde_json::Value = serde_json::from_str(json).unwrap();
    let mut set = nothing_set();
    if let Some(v) = doc.get("nix-version") {
        set.nix_version = Some(MinNixVersionConfig {
            switches: switches(Some(v)),
            min_required: v.get("min-required").and_then(|v| v.as_str()).map(|s| s.to_string()),
        });
    }
    if let Some(v) = doc.get("caches") {
        set.caches = Some(CachesConfig {
            switches: Switches { enable: None, required: None },
            required: v.get("required").and_then(|v| v.as_array()).map(|urls| {
                urls.iter().map(|u| u.as_str().unwrap().to_string()).collect()
            }),
        });
    }
    NixHealth::default().merge(set).unwrap()
}

#[test]
fn test_json_deserialize_empty() {
    let json = r#"{}"#;
    let v: NixHealth = from_json(json);
    assert_eq!(v.nix_version, MinNixVersion::default());
    assert_eq!(v.caches, Caches::default());
    println!("{:?}", v);
}

#[test]
fn test_json_deserialize_nix_version() {
    let json = r#"{ "nix-version": { "min-required": "2.17.0" } }"#;
    let v: NixHealth = from_json(json);
    assert_eq!(v.nix_version.min_required.to_text(), "2.17.0");
    assert_eq!(v.caches, Caches::default());
}

#[test]
fn test_json_deserialize_caches() {
    let json = r#"{ "caches": { "required": ["https://foo.cachix.org"] } }"#;
    let v: NixHealth = from_json(json);
    assert_eq!(
        v.caches.required,
        vec![url::Url::parse("https://foo.cachix.org").unwrap().to_string()]
    );
    assert_eq!(v.nix_version, MinNixVersion::default());
}

#[test]
fn project_value_wins_over_the_default() {
    let defaults = NixHealth::default();
    assert_eq!(defaults.nix_version.min_required.to_text(), "2.13.0");
    let mut set = nothing_set();
    set.nix_version = Some(MinNixVersionConfig {
        switches: Switches { enable: None, required: None },
        min_required: Some("2.17.0".to_string()),
    });
    let merged = defaults.merge(set).unwrap();
    assert_eq!(merged.nix_version.min_required, NixVersion { major: 2, minor: 17, patch: 0 });
    assert_eq!(merged.nix_version.min_required.to_text(), "2.17.0");
    assert!(merged.nix_version.enable);
    assert!(merged.nix_version.required);
    let untouched = NixHealth::default();
    assert_eq!(merged.max_jobs, untouched.max_jobs);
    assert_eq!(merged.caches, untouched.caches);
    assert_eq!(merged.flake_enabled, untouched.flake_enabled);
    assert_eq!(merged.system, untouched.system);
    assert_eq!(merged.trusted_users, untouched.trusted_users);
    assert_eq!(merged.direnv, untouched.direnv);
}

#[test]
fn unset_keys_keep_their_defaults() {
    let merged = NixHealth::default().merge(nothing_set()).unwrap();
    assert_eq!(merged, NixHealth::default());
    assert_eq!(pick(1, None), 1);
    assert_eq!(pick(1, Some(2)), 2);
}

#[test]
fn every_unit_takes_what_is_set() {
    let mut set = nothing_set();
    set.max_jobs = Some(Switches { enable: Some(false), required: None });
    set.trusted_users = Some(Switches { enable: None, required: Some(false) });
    set.direnv = Some(Switches { enable: None, required: Some(true) });
    set.flake_enabled = Some(FlakeEnabledConfig {
        switches: Switches { enable: None, required: Some(false) },
        features: Some(vec!["flakes".to_string()]),
    });
    set.system = Some(SystemConfig {
        switches: Switches { enable: None, required: Some(true) },
        min_ram: Some(Some(ByteSize::gb(16))),
        min_disk_space: Some(None),
    });
    set.caches = Some(CachesConfig {
        switches: Switches { enable: Some(false), required: Some(false) },
        required: None,
    });
    let merged = NixHealth::default().merge(set).unwrap();
    assert!(!merged.max_jobs.enable);
    assert!(merged.max_jobs.required);
    assert!(merged.trusted_users.enable);
    assert!(!merged.trusted_users.required);
    assert!(merged.direnv.enable);
    assert!(merged.direnv.required);
    assert!(merged.flake_enabled.enable);
    assert!(!merged.flake_enabled.required);
    assert_eq!(merged.flake_enabled.features, vec!["flakes".to_string()]);
    assert!(merged.system.enable);
    assert!(merged.system.required);
    assert_eq!(merged.system.min_ram, Some(ByteSize::gb(16)));
    assert_eq!(merged.system.min_disk_space, None);
    assert!(!merged.caches.enable);
    assert!(!merged.caches.required_check);
    assert_eq!(merged.caches.required, Caches::default().required);
}

#[test]
fn malformed_version_is_a_configuration_error() {
    let mut set = nothing_set();
    set.nix_version = Some(MinNixVersionConfig {
        switches: Switches { enable: None, required: None },
        min_required: Some("2.x".to_string()),
    });
    let merged = NixHealth::default().merge(set);
    assert_eq!(merged, Err(ConfigError::MalformedVersion("2.x".to_string())));
    assert_eq!(merged.unwrap_err().to_text(), "Malformed version: 2.x");
}

#[test]
fn nested_attributes_are_refused() {
    let config = NixHealth::default();
    assert_eq!(NixHealth::from_evaluated(config.clone(), &vec![]), Ok(NixHealth::default()));
    let rest = vec!["foo".to_string(), "bar".to_string()];
    let refused = NixHealth::from_evaluated(config, &rest);
    assert_eq!(refused, Err(ConfigError::UnexpectedNestedAttribute("foo.bar".to_string())));
    assert_eq!(refused.unwrap_err().to_text(), "Unexpected nested attribute: foo.bar");
}

#[test]
fn defaults_of_the_registry() {
    let health = NixHealth::default();
    assert!(health.max_jobs.enable && health.max_jobs.required);
    assert!(health.caches.enable && health.caches.required_check);
    assert_eq!(health.caches.required, vec!["https://cache.nixos.org/".to_string()]);
    assert!(health.flake_enabled.enable && health.flake_enabled.required);
    assert_eq!(
        health.flake_enabled.features,
        vec!["flakes".to_string(), "nix-command".to_string()]
    );
    assert_eq!(health.nix_version.min_required, NixVersion { major: 2, minor: 13, patch: 0 });
    assert!(health.system.enable && !health.system.required);
    assert_eq!(health.system.min_ram, None);
    assert_eq!(health.system.min_disk_space.map(|s| s.bytes), Some(1_024_000_000_000));
    assert!(health.trusted_users.enable && health.trusted_users.required);
    assert_eq!(health.direnv, Direnv { enable: true, required: false });
}

#[test]
fn caches_are_written_in_normal_form() {
    let mut set = nothing_set();
    set.caches = Some(CachesConfig {
        switches: Switches { enable: None, required: Some(false) },
        required: Some(vec![
            "HTTPS://Cache.NixOS.org".to_string(),
            "https://foo.cachix.org/a/../b".to_string(),
        ]),
    });
    let merged = NixHealth::default().merge(set).unwrap();
    assert_eq!(
        merged.caches.required,
        vec!["https://cache.nixos.org/".to_string(), "https://foo.cachix.org/b".to_string()]
    );
    assert!(merged.caches.enable);
    assert!(!merged.caches.required_check);
    assert_eq!(
        url::Url::parse("https://cache.nixos.org").unwrap().to_string(),
        Caches::default().required[0]
    );
    assert_eq!(normalize_urls(&vec![]), Ok(vec![]));
}

#[test]
fn malformed_url_is_a_configuration_error() {
    let mut set = nothing_set();
    set.caches = Some(CachesConfig {
        switches: Switches { enable: None, required: None },
        required: Some(vec![
            "https://cache.nixos.org".to_string(),
            "not a url".to_string(),
            "neither".to_string(),
        ]),
    });
    let merged = NixHealth::default().merge(set);
    assert_eq!(merged, Err(ConfigError::MalformedUrl("not a url".to_string())));
    assert_eq!(merged.unwrap_err().to_text(), "Malformed URL: not a url");
    assert_eq!(
        normalize_urls(&vec!["x".to_string(), "https://a.b".to_string()]),
        Err("x".to_string())
    );
}

#[test]
fn malformed_version_is_reported_before_a_malformed_url() {
    let mut set = nothing_set();
    set.caches = Some(CachesConfig {
        switches: Switches { enable: None, required: None },
        required: Some(vec!["not a url".to_string()]),
    });
    set.nix_version = Some(MinNixVersionConfig {
        switches: Switches { enable: None, required: None },
        min_required: Some("two".to_string()),
    });
    assert_eq!(
        NixHealth::default().merge(set),
        Err(ConfigError::MalformedVersion("two".to_string()))
    );
}
