use kicad_gateway::capability::CapabilityProfile;
use kicad_gateway::config::{
    load_from, load_from_sources, resolved_data_dir, validated_ttl_ceiling,
    AuthorizationTtlFileConfig, AuthorizationTtlProfileFileConfig, CliOverrides, ConfigEnv,
    ConfigError, FileConfig, FileLayer, TransportMode, DEFAULT_CRITICAL_RISK_MAX_MINUTES,
    DEFAULT_INSPECT_MAX_MINUTES, DEFAULT_LOG_LEVEL, MAX_AUTHORIZATION_TTL_MINUTES,
};
use kicad_gateway::error::CompanionError;
use kicad_gateway::risk::RiskLevel;

const FALLBACK: &str = "/var/lib/gateway-fallback";

fn profile(max_minutes: i64, risk: &str) -> AuthorizationTtlProfileFileConfig {
    AuthorizationTtlProfileFileConfig {
        max_minutes,
        risk: risk.to_string(),
    }
}

fn valid_ttl_policy() -> AuthorizationTtlFileConfig {
    AuthorizationTtlFileConfig {
        inspect: profile(241, "low"),
        design: profile(120, "normal"),
        manufacturing: profile(30, "high"),
        custom: profile(5, "critical"),
        low_risk_max_minutes: 90,
        normal_risk_max_minutes: 45,
        high_risk_max_minutes: 10,
        critical_risk_max_minutes: 1,
    }
}

fn file_with_ttl(policy: AuthorizationTtlFileConfig) -> FileLayer {
    FileLayer::Parsed(FileConfig {
        authorization_ttl: Some(policy),
        ..Default::default()
    })
}

fn file_with_log_level(level: &str) -> FileLayer {
    FileLayer::Parsed(FileConfig {
        log_level: Some(level.to_string()),
        ..Default::default()
    })
}

#[test]
fn defaults_apply_when_nothing_is_set() {
    let config = load_from(CliOverrides::default(), &ConfigEnv::default(), FALLBACK).unwrap();
    assert_eq!(config.log_level, "info");
    assert_eq!(
        config.core_bridge_endpoint.as_str(),
        "http://127.0.0.1:3334/mcp"
    );
    assert_eq!(config.transport_mode, TransportMode::Disabled);
    assert_eq!(config.data_dir, FALLBACK);
    let inspect = config
        .authorization_ttl
        .profile(&CapabilityProfile::Inspect);
    assert_eq!(inspect.max_minutes(), DEFAULT_INSPECT_MAX_MINUTES);
    assert_eq!(inspect.risk(), RiskLevel::Low);
    assert_eq!(
        config.authorization_ttl.risk_ceiling(RiskLevel::Critical),
        DEFAULT_CRITICAL_RISK_MAX_MINUTES
    );
}

#[test]
fn mock_transport_requires_explicit_configuration() {
    let env = ConfigEnv {
        transport_mode: Some("mock".to_string()),
        ..Default::default()
    };
    let config = load_from(CliOverrides::default(), &env, FALLBACK).unwrap();
    assert_eq!(config.transport_mode, TransportMode::Mock);
}

#[test]
fn env_var_overrides_default() {
    let env = ConfigEnv {
        log_level: Some("debug".to_string()),
        ..Default::default()
    };
    let config = load_from(CliOverrides::default(), &env, FALLBACK).unwrap();
    assert_eq!(config.log_level, "debug");
}

#[test]
fn cli_override_beats_env() {
    let env = ConfigEnv {
        log_level: Some("debug".to_string()),
        ..Default::default()
    };
    let overrides = CliOverrides {
        log_level: Some("trace".to_string()),
        ..Default::default()
    };
    let config = load_from(overrides, &env, FALLBACK).unwrap();
    assert_eq!(config.log_level, "trace");
}

#[test]
fn malformed_endpoint_produces_typed_error_not_panic() {
    let overrides = CliOverrides {
        core_bridge_endpoint: Some("not a url".to_string()),
        ..Default::default()
    };
    let result = load_from(overrides, &ConfigEnv::default(), FALLBACK);
    assert_eq!(
        result,
        Err(ConfigError::InvalidEndpoint("not a url".to_string()))
    );
}

#[test]
fn non_loopback_endpoint_is_accepted_at_parse_time() {
    let overrides = CliOverrides {
        core_bridge_endpoint: Some("http://example.com/mcp".to_string()),
        ..Default::default()
    };
    let config = load_from(overrides, &ConfigEnv::default(), FALLBACK).unwrap();
    assert_eq!(config.core_bridge_endpoint.host_str(), Some("example.com"));
}

#[test]
fn invalid_transport_mode_is_a_typed_error() {
    let env = ConfigEnv {
        transport_mode: Some("quantum-relay".to_string()),
        ..Default::default()
    };
    let result = load_from(CliOverrides::default(), &env, FALLBACK);
    assert_eq!(
        result,
        Err(ConfigError::InvalidTransportMode(
            "quantum-relay".to_string()
        ))
    );
}

#[test]
fn env_overrides_file_value() {
    let env = ConfigEnv {
        log_level: Some("debug".to_string()),
        ..Default::default()
    };
    let config = load_from_sources(
        CliOverrides::default(),
        &env,
        file_with_log_level("warn"),
        FALLBACK,
    )
    .unwrap();
    assert_eq!(config.log_level, "debug");
}

#[test]
fn cli_overrides_env_and_file_value() {
    let env = ConfigEnv {
        log_level: Some("debug".to_string()),
        ..Default::default()
    };
    let overrides = CliOverrides {
        log_level: Some("trace".to_string()),
        ..Default::default()
    };
    let config =
        load_from_sources(overrides, &env, file_with_log_level("warn"), FALLBACK).unwrap();
    assert_eq!(config.log_level, "trace");
}

#[test]
fn malformed_file_returns_typed_error() {
    let result = load_from_sources(
        CliOverrides::default(),
        &ConfigEnv::default(),
        FileLayer::Malformed,
        FALLBACK,
    );
    assert_eq!(result, Err(ConfigError::InvalidConfigFile));
}

#[test]
fn missing_config_file_uses_defaults() {
    let env = ConfigEnv {
        data_dir: Some("/tmp/gateway-config-missing".to_string()),
        ..Default::default()
    };
    let config =
        load_from_sources(CliOverrides::default(), &env, FileLayer::Absent, FALLBACK).unwrap();
    assert_eq!(config.data_dir, "/tmp/gateway-config-missing");
    assert_eq!(config.log_level, DEFAULT_LOG_LEVEL);
    assert_eq!(config.transport_mode, TransportMode::Disabled);
}

#[test]
fn file_values_override_defaults() {
    let file = FileLayer::Parsed(FileConfig {
        log_level: Some("debug".to_string()),
        core_bridge_endpoint: Some("http://127.0.0.1:4444/mcp".to_string()),
        transport_mode: Some("mock".to_string()),
        authorization_ttl: None,
    });
    let config = load_from_sources(CliOverrides::default(), &ConfigEnv::default(), file, FALLBACK)
        .expect("valid config file");
    assert_eq!(config.log_level, "debug");
    assert_eq!(
        config.core_bridge_endpoint.as_str(),
        "http://127.0.0.1:4444/mcp"
    );
    assert_eq!(config.transport_mode, TransportMode::Mock);
}

#[test]
fn authorization_ttl_file_values_override_defaults() {
    let config = load_from_sources(
        CliOverrides::default(),
        &ConfigEnv::default(),
        file_with_ttl(valid_ttl_policy()),
        FALLBACK,
    )
    .expect("valid authorization TTL policy");
    let inspect = config
        .authorization_ttl
        .profile(&CapabilityProfile::Inspect);
    assert_eq!(inspect.max_minutes(), 241);
    assert_eq!(inspect.risk(), RiskLevel::Low);
    assert_eq!(config.authorization_ttl.risk_ceiling(RiskLevel::Normal), 45);
}

#[test]
fn authorization_ttl_accepts_inclusive_ceiling_boundaries() {
    for valid in [1, MAX_AUTHORIZATION_TTL_MINUTES] {
        let mut policy = valid_ttl_policy();
        policy.inspect.max_minutes = valid;
        let config = load_from_sources(
            CliOverrides::default(),
            &ConfigEnv::default(),
            file_with_ttl(policy),
            FALLBACK,
        )
        .expect("inclusive TTL boundary is valid");
        assert_eq!(
            config
                .authorization_ttl
                .profile(&CapabilityProfile::Inspect)
                .max_minutes(),
            valid
        );
    }
}

#[test]
fn invalid_authorization_ttl_boundaries_and_risk_fail_closed() {
    for invalid in [0, -1, i64::MAX] {
        let mut policy = valid_ttl_policy();
        policy.inspect.max_minutes = invalid;
        assert!(
            matches!(
                load_from_sources(
                    CliOverrides::default(),
                    &ConfigEnv::default(),
                    file_with_ttl(policy),
                    FALLBACK
                ),
                Err(ConfigError::InvalidAuthorizationTtlPolicy(_))
            ),
            "ceiling {invalid} must fail closed"
        );
    }

    let mut unknown_risk = valid_ttl_policy();
    unknown_risk.custom.risk = "catastrophic".to_string();
    assert!(matches!(
        load_from_sources(
            CliOverrides::default(),
            &ConfigEnv::default(),
            file_with_ttl(unknown_risk),
            FALLBACK
        ),
        Err(ConfigError::InvalidAuthorizationTtlPolicy(_))
    ));
}

#[test]
fn error_codes_are_stable_and_not_retryable() {
    let endpoint = ConfigError::InvalidEndpoint("x".into());
    assert_eq!(endpoint.code(), "CONFIG_INVALID_ENDPOINT");
    assert!(!endpoint.retryable());

    assert_eq!(ConfigError::InvalidConfigFile.code(), "CONFIG_INVALID_FILE");
    let ttl = ConfigError::InvalidAuthorizationTtlPolicy("zero".into());
    assert_eq!(ttl.code(), "CONFIG_INVALID_AUTHORIZATION_TTL_POLICY");
    assert!(!ttl.retryable());
    let read = ConfigError::ConfigFileRead {
        path: "config.toml".to_string(),
        message: "denied".to_string(),
    };
    assert_eq!(read.code(), "CONFIG_FILE_READ_FAILED");
    assert!(!read.retryable());
}

#[test]
fn ttl_ceiling_bounds_are_inclusive_and_name_the_field() {
    assert_eq!(validated_ttl_ceiling(1, "low_risk_max_minutes"), Ok(1));
    assert_eq!(validated_ttl_ceiling(525_600, "low_risk_max_minutes"), Ok(525_600));
    assert_eq!(
        validated_ttl_ceiling(525_601, "low_risk_max_minutes"),
        Err(ConfigError::InvalidAuthorizationTtlPolicy(
            "low_risk_max_minutes must be between 1 and 525600 minutes".to_string()
        ))
    );
}

#[test]
fn data_dir_precedence_is_cli_then_env_then_fallback() {
    let env = ConfigEnv {
        data_dir: Some("/env".to_string()),
        ..Default::default()
    };
    let cli = CliOverrides {
        data_dir: Some("/cli".to_string()),
        ..Default::default()
    };
    assert_eq!(resolved_data_dir(&cli, &env, "/fallback"), "/cli");
    assert_eq!(
        resolved_data_dir(&CliOverrides::default(), &env, "/fallback"),
        "/env"
    );
    assert_eq!(
        resolved_data_dir(&CliOverrides::default(), &ConfigEnv::default(), "/fallback"),
        "/fallback"
    );
}

#[test]
fn transport_mode_names_round_trip() {
    assert_eq!(TransportMode::parse("disabled"), Ok(TransportMode::Disabled));
    assert_eq!(TransportMode::parse("mock"), Ok(TransportMode::Mock));
    assert_eq!(TransportMode::Mock.as_str(), "mock");
    assert_eq!(TransportMode::Disabled.to_string(), "disabled");
}

#[test]
fn transport_mode_fromstr_matches_parse() {
    let mock: TransportMode = "mock".parse().expect("mock is a mode");
    assert_eq!(mock, TransportMode::Mock);
    let disabled: TransportMode = "disabled".parse().expect("disabled is a mode");
    assert_eq!(disabled, TransportMode::Disabled);
    let bad: Result<TransportMode, ConfigError> = "socket".parse();
    assert_eq!(bad, Err(ConfigError::InvalidTransportMode("socket".to_string())));
}
