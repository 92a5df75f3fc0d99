use entry_cli::cli::{Cli, Commands, ConfigCommands, OutputFormat};
use entry_cli::config::{
    default_host, default_tenant, set_config_value, AuthConfig, Config, DefaultConfig,
    ProfileConfig, ProfileMap,
};
use entry_cli::settings::{resolve, resolve_credentials};
use entry_cli::error::CliError;

#[test]
fn test_default_config() {
    let config = Config::default();
    assert_eq!(config.default.host, "http://localhost:8080");
    assert_eq!(config.default.tenant, "_");
    assert!(config.auth.username.is_none());
    assert!(config.auth.password.is_none());
    assert!(config.profiles.is_empty());
}

#[test]
fn test_get_host() {
    let mut config = Config::default();
    config.profiles.insert(
        "test".to_string(),
        ProfileConfig {
            host: "https://test.example.com".to_string(),
            tenant: "test".to_string(),
            auth: AuthConfig::default(),
        },
    );

    assert_eq!(config.get_host(None), "http://localhost:8080");
    assert_eq!(config.get_host(Some("test")), "https://test.example.com");
    assert_eq!(config.get_host(Some("nonexistent")), "http://localhost:8080");
}

#[test]
fn test_get_tenant() {
    let mut config = Config::default();
    config.profiles.insert(
        "custom".to_string(),
        ProfileConfig {
            host: "https://api.example.com".to_string(),
            tenant: "custom-tenant".to_string(),
            auth: AuthConfig::default(),
        },
    );

    assert_eq!(config.get_tenant(None), "_");
    assert_eq!(config.get_tenant(Some("custom")), "custom-tenant");
    assert_eq!(config.get_tenant(Some("nonexistent")), "_");
}

#[test]
fn test_get_auth() {
    let mut config = Config::default();
    config.auth.username = Some("default_user".to_string());
    config.auth.password = Some("default_pass".to_string());

    config.profiles.insert(
        "secure".to_string(),
        ProfileConfig {
            host: "https://secure.example.com".to_string(),
            tenant: "secure".to_string(),
            auth: AuthConfig {
                username: Some("secure_user".to_string()),
                password: Some("secure_pass".to_string()),
            },
        },
    );

    let (username, password) = config.get_auth(None);
    assert_eq!(username, Some("default_user".to_string()));
    assert_eq!(password, Some("default_pass".to_string()));

    let (username, password) = config.get_auth(Some("secure"));
    assert_eq!(username, Some("secure_user".to_string()));
    assert_eq!(password, Some("secure_pass".to_string()));

    let (username, password) = config.get_auth(Some("nonexistent"));
    assert_eq!(username, Some("default_user".to_string()));
    assert_eq!(password, Some("default_pass".to_string()));
}

#[test]
fn test_init_default() {
    let config = Config {
        default: DefaultConfig::default(),
        auth: AuthConfig::default(),
        profiles: {
            let mut profiles = ProfileMap::new();
            profiles.insert(
                "production".to_string(),
                ProfileConfig {
                    host: "https://api.example.com".to_string(),
                    tenant: "prod".to_string(),
                    auth: AuthConfig::default(),
                },
            );
            profiles
        },
    };

    assert!(config.profiles.contains_key("production"));
    let prod_profile = config.get_profile("production").unwrap();
    assert_eq!(prod_profile.host, "https://api.example.com");
    assert_eq!(prod_profile.tenant, "prod");
}

#[test]
fn init_default_holds_the_production_profile() {
    let config = Config::init_default();
    assert_eq!(config.default.host, "http://localhost:8080");
    assert_eq!(config.default.tenant, "_");
    assert_eq!(config.profiles.len(), 1);
    let prod = config.get_profile("production").unwrap();
    assert_eq!(prod.host, "https://api.example.com");
    assert_eq!(prod.tenant, "prod");
    assert!(prod.auth.username.is_none());
}

#[test]
fn defaults_are_fallback_host_and_unscoped_tenant() {
    assert_eq!(default_host(), "http://localhost:8080");
    assert_eq!(default_tenant(), "_");
}

#[test]
fn inserting_a_profile_twice_replaces_it() {
    let mut profiles = ProfileMap::new();
    for host in ["https://a.example.com", "https://b.example.com"] {
        profiles.insert(
            "p".to_string(),
            ProfileConfig {
                host: host.to_string(),
                tenant: "t".to_string(),
                auth: AuthConfig::default(),
            },
        );
    }
    assert_eq!(profiles.len(), 1);
    assert_eq!(profiles.get("p").unwrap().host, "https://b.example.com");
    assert!(profiles.get("q").is_none());
    assert_eq!(profiles.entries().len(), 1);
}

#[test]
fn set_config_value_sets_each_known_key() {
    let mut config = Config::default();
    set_config_value(&mut config, "default.host", "https://h.example.com").unwrap();
    set_config_value(&mut config, "default.tenant", "acme").unwrap();
    set_config_value(&mut config, "auth.username", "alice").unwrap();
    set_config_value(&mut config, "auth.password", "s3cret").unwrap();
    assert_eq!(config.default.host, "https://h.example.com");
    assert_eq!(config.default.tenant, "acme");
    assert_eq!(config.auth.username, Some("alice".to_string()));
    assert_eq!(config.auth.password, Some("s3cret".to_string()));
}

#[test]
fn set_config_value_creates_profiles_with_defaults() {
    let mut config = Config::default();
    set_config_value(&mut config, "profiles.staging.host", "https://staging.example.com").unwrap();
    let p = config.get_profile("staging").unwrap();
    assert_eq!(p.host, "https://staging.example.com");
    assert_eq!(p.tenant, "_");

    set_config_value(&mut config, "profiles.qa.tenant", "qa-tenant").unwrap();
    let q = config.get_profile("qa").unwrap();
    assert_eq!(q.host, "http://localhost:8080");
    assert_eq!(q.tenant, "qa-tenant");

    set_config_value(&mut config, "profiles.staging.tenant", "stage").unwrap();
    let p = config.get_profile("staging").unwrap();
    assert_eq!(p.host, "https://staging.example.com");
    assert_eq!(p.tenant, "stage");
    assert_eq!(config.profiles.len(), 2);
}

#[test]
fn set_config_value_rejects_unknown_keys() {
    let mut config = Config::default();
    for key in ["default", "default.port", "auth.username.extra", "profiles.x.auth", ""] {
        match set_config_value(&mut config, key, "v") {
            Err(CliError::Config(msg)) => {
                assert_eq!(msg, format!("Invalid configuration key: {}", key))
            }
            other => panic!("unexpected {:?}", other),
        }
    }
    assert_eq!(config.default.host, "http://localhost:8080");
    assert!(config.profiles.is_empty());
}

#[test]
fn empty_resolution_gives_fallbacks() {
    let config = Config::default();
    let settings = resolve(None, None, None, None, None, &config);
    assert_eq!(settings.endpoint, "http://localhost:8080");
    assert_eq!(settings.tenant, "_");
    assert!(settings.username.is_none());
    assert!(settings.password.is_none());
}

#[test]
fn explicit_values_win_over_profile_and_defaults() {
    let mut config = Config::default();
    config.auth.username = Some("default_user".to_string());
    config.auth.password = Some("default_pass".to_string());
    config.profiles.insert(
        "prod".to_string(),
        ProfileConfig {
            host: "https://prod.example.com".to_string(),
            tenant: "prod".to_string(),
            auth: AuthConfig {
                username: Some("prod_user".to_string()),
                password: Some("prod_pass".to_string()),
            },
        },
    );
    let s = resolve(None, None, None, None, Some("prod"), &config);
    assert_eq!(s.endpoint, "https://prod.example.com");
    assert_eq!(s.tenant, "prod");
    assert_eq!(s.username, Some("prod_user".to_string()));

    let s = resolve(
        Some("https://flag.example.com".to_string()),
        Some("flagged".to_string()),
        Some("flag_user".to_string()),
        None,
        Some("prod"),
        &config,
    );
    assert_eq!(s.endpoint, "https://flag.example.com");
    assert_eq!(s.tenant, "flagged");
    assert_eq!(s.username, Some("flag_user".to_string()));
    assert_eq!(s.password, Some("prod_pass".to_string()));
}

#[test]
fn credentials_pair_explicit_with_inherited() {
    let u = || Some("u".to_string());
    let p = || Some("p".to_string());
    let cu = || Some("cu".to_string());
    let cp = || Some("cp".to_string());
    assert_eq!(resolve_credentials(u(), p(), cu(), cp()), (u(), p()));
    assert_eq!(resolve_credentials(u(), None, cu(), cp()), (u(), cp()));
    assert_eq!(resolve_credentials(None, p(), cu(), cp()), (cu(), p()));
    assert_eq!(resolve_credentials(None, None, cu(), cp()), (cu(), cp()));
    assert_eq!(resolve_credentials(None, None, None, None), (None, None));
}

#[test]
fn cli_settings_use_its_options() {
    let config = Config::default();
    let cli = Cli {
        config: None,
        tenant: Some("acme".to_string()),
        url: None,
        user: None,
        password: None,
        profile: None,
        format: OutputFormat::Table,
        verbose: false,
        command: Commands::Config { command: ConfigCommands::Show { show_secrets: false } },
    };
    let s = cli.settings(&config);
    assert_eq!(s.endpoint, "http://localhost:8080");
    assert_eq!(s.tenant, "acme");
}

#[test]
fn credentials_are_configured_when_either_part_is_set() {
    assert!(!AuthConfig::default().is_configured());
    assert!(AuthConfig { username: None, password: Some("p".to_string()) }.is_configured());
    assert!(AuthConfig { username: Some("u".to_string()), password: None }.is_configured());
}
