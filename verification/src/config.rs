//! Layered configuration: CLI flags over environment variables over the
//! config file over defaults.
//!
//! Reading the process environment, the platform data directory and the
//! config file is done by the caller; this module receives what was read
//! (the four relevant environment values, the parsed file layer, and the
//! platform fallback for the data directory) and decides the configuration,
//! including the validation of the local authorization TTL policy.

use vstd::prelude::*;

use crate::authorization::opt_text;
use crate::capability::CapabilityProfile;
use crate::error::CompanionError;
use crate::risk::{spec_risk_named, RiskLevel};
use crate::text::{debug_quoted, str_debug_text, text_eq};

verus! {

/// Whether and how the daemon talks to a relay.
#[derive(Debug, Clone, Copy, PartialEq, Eq, Structural, Hash)]
pub enum TransportMode {
    Disabled,
    Mock,
}

/// The configured name of each transport mode.
pub open spec fn transport_mode_name(mode: TransportMode) -> Seq<char> {
    match mode {
        TransportMode::Disabled => "disabled"@,
        TransportMode::Mock => "mock"@,
    }
}

/// The mode a configured name selects, if any.
pub open spec fn spec_transport_mode_named(name: Seq<char>) -> Option<TransportMode> {
    if name == "disabled"@ {
        Some(TransportMode::Disabled)
    } else if name == "mock"@ {
        Some(TransportMode::Mock)
    } else {
        None
    }
}

impl TransportMode {
    /// The configured name of this mode.
    pub fn as_str(&self) -> (name: &'static str)
        ensures
            name@ == transport_mode_name(*self),
    {
        match self {
            TransportMode::Disabled => "disabled",
            TransportMode::Mock => "mock",
        }
    }

    /// The configured name of this mode, owned.
    pub fn to_string(&self) -> (name: String)
        ensures
            name@ == transport_mode_name(*self),
    {
        String::from_str(self.as_str())
    }

    /// Parses a configured mode name; anything but `disabled` or `mock` is
    /// an `InvalidTransportMode` error carrying the offending text.
    pub fn parse(name: &str) -> (r: Result<TransportMode, ConfigError>)
        ensures
            match r {
                Ok(mode) => spec_transport_mode_named(name@) == Some(mode),
                Err(e) => spec_transport_mode_named(name@) is None && e@
                    == ConfigErrorView::InvalidTransportMode(name@),
            },
    {
        if text_eq(name, "disabled") {
            Ok(TransportMode::Disabled)
        } else if text_eq(name, "mock") {
            Ok(TransportMode::Mock)
        } else {
            Err(ConfigError::InvalidTransportMode(String::from_str(name)))
        }
    }
}

impl std::str::FromStr for TransportMode {
    type Err = ConfigError;

    fn from_str(name: &str) -> (r: Result<TransportMode, ConfigError>)
        ensures
            match r {
                Ok(mode) => spec_transport_mode_named(name@) == Some(mode),
                Err(e) => spec_transport_mode_named(name@) is None && e@
                    == ConfigErrorView::InvalidTransportMode(name@),
            },
    {
        TransportMode::parse(name)
    }
}

/// Upper bound for a locally configured authorization TTL: one year, in
/// minutes. Unit mistakes fail closed while the configuration loads.
pub const MAX_AUTHORIZATION_TTL_MINUTES: i64 = 525_600;

pub const DEFAULT_INSPECT_MAX_MINUTES: i64 = 240;
pub const DEFAULT_DESIGN_MAX_MINUTES: i64 = 120;
pub const DEFAULT_MANUFACTURING_MAX_MINUTES: i64 = 30;
pub const DEFAULT_CUSTOM_MAX_MINUTES: i64 = 5;
pub const DEFAULT_LOW_RISK_MAX_MINUTES: i64 = 120;
pub const DEFAULT_NORMAL_RISK_MAX_MINUTES: i64 = 60;
pub const DEFAULT_HIGH_RISK_MAX_MINUTES: i64 = 15;
pub const DEFAULT_CRITICAL_RISK_MAX_MINUTES: i64 = 1;

/// Whether `minutes` is an acceptable TTL ceiling.
pub open spec fn valid_ceiling(minutes: i64) -> bool {
    1 <= minutes <= MAX_AUTHORIZATION_TTL_MINUTES
}

/// A profile's TTL ceiling and the locally assigned risk class of that
/// profile. The risk class is local policy, never remote input.
#[derive(Debug, Clone, Copy, PartialEq, Eq, Structural)]
pub struct AuthorizationTtlProfile {
    max_minutes: i64,
    risk: RiskLevel,
}

impl AuthorizationTtlProfile {
    pub closed spec fn spec_max_minutes(self) -> i64 {
        self.max_minutes
    }

    pub closed spec fn spec_risk(self) -> RiskLevel {
        self.risk
    }

    /// The ceiling is within bounds.
    pub closed spec fn valid(self) -> bool {
        valid_ceiling(self.max_minutes)
    }

    /// The profile with this ceiling and risk.
    pub closed spec fn spec_new(max_minutes: i64, risk: RiskLevel) -> AuthorizationTtlProfile {
        AuthorizationTtlProfile { max_minutes, risk }
    }

    pub proof fn lemma_spec_new(max_minutes: i64, risk: RiskLevel)
        ensures
            AuthorizationTtlProfile::spec_new(max_minutes, risk).spec_max_minutes() == max_minutes,
            AuthorizationTtlProfile::spec_new(max_minutes, risk).spec_risk() == risk,
            AuthorizationTtlProfile::spec_new(max_minutes, risk).valid() == valid_ceiling(
                max_minutes,
            ),
    {
    }

    /// The profile's ceiling, in minutes.
    pub fn max_minutes(&self) -> (m: i64)
        ensures
            m == self.spec_max_minutes(),
    {
        self.max_minutes
    }

    /// The profile's local risk class.
    pub fn risk(&self) -> (r: RiskLevel)
        ensures
            r == self.spec_risk(),
    {
        self.risk
    }
}

/// Validated local TTL policy. The fields are private, so a policy that
/// failed validation cannot be built after configuration loading.
#[derive(Debug, Clone, Copy, PartialEq, Eq, Structural)]
pub struct AuthorizationTtlConfig {
    inspect: AuthorizationTtlProfile,
    design: AuthorizationTtlProfile,
    manufacturing: AuthorizationTtlProfile,
    custom: AuthorizationTtlProfile,
    low_risk_max_minutes: i64,
    normal_risk_max_minutes: i64,
    high_risk_max_minutes: i64,
    critical_risk_max_minutes: i64,
}

impl AuthorizationTtlConfig {
    /// The profile entry used for `profile`.
    pub closed spec fn spec_profile(self, profile: CapabilityProfile) -> AuthorizationTtlProfile {
        match profile {
            CapabilityProfile::Inspect => self.inspect,
            CapabilityProfile::Design => self.design,
            CapabilityProfile::Manufacturing => self.manufacturing,
            CapabilityProfile::Custom(_) => self.custom,
        }
    }

    /// The ceiling for `risk`, in minutes.
    pub closed spec fn spec_risk_ceiling(self, risk: RiskLevel) -> i64 {
        match risk {
            RiskLevel::Low => self.low_risk_max_minutes,
            RiskLevel::Normal => self.normal_risk_max_minutes,
            RiskLevel::High => self.high_risk_max_minutes,
            RiskLevel::Critical => self.critical_risk_max_minutes,
        }
    }

    /// Every ceiling of the policy is within bounds.
    pub open spec fn valid(self) -> bool {
        &&& forall|p: CapabilityProfile| #[trigger] self.spec_profile(p).valid()
        &&& forall|r: RiskLevel| valid_ceiling(#[trigger] self.spec_risk_ceiling(r))
    }

    /// The profile entry used for `profile`.
    pub fn profile(&self, profile: &CapabilityProfile) -> (p: AuthorizationTtlProfile)
        ensures
            p == self.spec_profile(*profile),
    {
        match profile {
            CapabilityProfile::Inspect => self.inspect,
            CapabilityProfile::Design => self.design,
            CapabilityProfile::Manufacturing => self.manufacturing,
            CapabilityProfile::Custom(_) => self.custom,
        }
    }

    /// The ceiling for `risk`, in minutes.
    pub fn risk_ceiling(&self, risk: RiskLevel) -> (m: i64)
        ensures
            m == self.spec_risk_ceiling(risk),
    {
        match risk {
            RiskLevel::Low => self.low_risk_max_minutes,
            RiskLevel::Normal => self.normal_risk_max_minutes,
            RiskLevel::High => self.high_risk_max_minutes,
            RiskLevel::Critical => self.critical_risk_max_minutes,
        }
    }
}

/// The default policy: Inspect 240 min at low risk, Design 120 at normal,
/// Manufacturing 30 at high, Custom 5 at critical; risk ceilings 120, 60, 15
/// and 1 minutes.
pub open spec fn is_default_ttl_policy(c: AuthorizationTtlConfig) -> bool {
    &&& c.spec_profile(CapabilityProfile::Inspect) == AuthorizationTtlProfile::spec_new(
        DEFAULT_INSPECT_MAX_MINUTES,
        RiskLevel::Low,
    )
    &&& c.spec_profile(CapabilityProfile::Design) == AuthorizationTtlProfile::spec_new(
        DEFAULT_DESIGN_MAX_MINUTES,
        RiskLevel::Normal,
    )
    &&& c.spec_profile(CapabilityProfile::Manufacturing) == AuthorizationTtlProfile::spec_new(
        DEFAULT_MANUFACTURING_MAX_MINUTES,
        RiskLevel::High,
    )
    &&& forall|set| #[trigger]
        c.spec_profile(CapabilityProfile::Custom(set)) == AuthorizationTtlProfile::spec_new(
            DEFAULT_CUSTOM_MAX_MINUTES,
            RiskLevel::Critical,
        )
    &&& c.spec_risk_ceiling(RiskLevel::Low) == DEFAULT_LOW_RISK_MAX_MINUTES
    &&& c.spec_risk_ceiling(RiskLevel::Normal) == DEFAULT_NORMAL_RISK_MAX_MINUTES
    &&& c.spec_risk_ceiling(RiskLevel::High) == DEFAULT_HIGH_RISK_MAX_MINUTES
    &&& c.spec_risk_ceiling(RiskLevel::Critical) == DEFAULT_CRITICAL_RISK_MAX_MINUTES
}

impl Default for AuthorizationTtlConfig {
    fn default() -> (c: Self)
        ensures
            is_default_ttl_policy(c),
            c.valid(),
    {
        AuthorizationTtlConfig {
            inspect: AuthorizationTtlProfile {
                max_minutes: DEFAULT_INSPECT_MAX_MINUTES,
                risk: RiskLevel::Low,
            },
            design: AuthorizationTtlProfile {
                max_minutes: DEFAULT_DESIGN_MAX_MINUTES,
                risk: RiskLevel::Normal,
            },
            manufacturing: AuthorizationTtlProfile {
                max_minutes: DEFAULT_MANUFACTURING_MAX_MINUTES,
                risk: RiskLevel::High,
            },
            custom: AuthorizationTtlProfile {
                max_minutes: DEFAULT_CUSTOM_MAX_MINUTES,
                risk: RiskLevel::Critical,
            },
            low_risk_max_minutes: DEFAULT_LOW_RISK_MAX_MINUTES,
            normal_risk_max_minutes: DEFAULT_NORMAL_RISK_MAX_MINUTES,
            high_risk_max_minutes: DEFAULT_HIGH_RISK_MAX_MINUTES,
            critical_risk_max_minutes: DEFAULT_CRITICAL_RISK_MAX_MINUTES,
        }
    }
}

/// Values given on the command line; each one wins over every other layer.
#[derive(Debug, Clone, Default)]
pub struct CliOverrides {
    pub data_dir: Option<String>,
    pub log_level: Option<String>,
    pub core_bridge_endpoint: Option<String>,
    pub transport_mode: Option<TransportMode>,
}

/// The environment variables the configuration reads, as read.
#[derive(Debug, Clone, Default)]
pub struct ConfigEnv {
    /// `GATEWAY_DATA_DIR`
    pub data_dir: Option<String>,
    /// `GATEWAY_LOG_LEVEL`
    pub log_level: Option<String>,
    /// `GATEWAY_CORE_BRIDGE_ENDPOINT`
    pub core_bridge_endpoint: Option<String>,
    /// `GATEWAY_TRANSPORT_MODE`
    pub transport_mode: Option<String>,
}

pub const ENV_DATA_DIR: &'static str = "GATEWAY_DATA_DIR";
pub const ENV_LOG_LEVEL: &'static str = "GATEWAY_LOG_LEVEL";
pub const ENV_CORE_BRIDGE_ENDPOINT: &'static str = "GATEWAY_CORE_BRIDGE_ENDPOINT";
pub const ENV_TRANSPORT_MODE: &'static str = "GATEWAY_TRANSPORT_MODE";
pub const DEFAULT_LOG_LEVEL: &'static str = "info";
pub const DEFAULT_CORE_BRIDGE_ENDPOINT: &'static str = "http://127.0.0.1:3334/mcp";
/// Marker file left in the data directory when a user explicitly stops a
/// daemon that a desktop process may be supervising.
pub const DAEMON_STOP_MARKER_FILE: &'static str = "daemon.stopped";

/// One profile entry of the TTL policy as written in the config file.
#[derive(Debug, Clone)]
pub struct AuthorizationTtlProfileFileConfig {
    pub max_minutes: i64,
    pub risk: String,
}

/// The TTL policy as written in the config file. All fields are required:
/// a partial policy is rejected when the file is read.
#[derive(Debug, Clone)]
pub struct AuthorizationTtlFileConfig {
    pub inspect: AuthorizationTtlProfileFileConfig,
    pub design: AuthorizationTtlProfileFileConfig,
    pub manufacturing: AuthorizationTtlProfileFileConfig,
    pub custom: AuthorizationTtlProfileFileConfig,
    pub low_risk_max_minutes: i64,
    pub normal_risk_max_minutes: i64,
    pub high_risk_max_minutes: i64,
    pub critical_risk_max_minutes: i64,
}

/// The config file's contents.
#[derive(Debug, Clone, Default)]
pub struct FileConfig {
    pub log_level: Option<String>,
    pub core_bridge_endpoint: Option<String>,
    pub transport_mode: Option<String>,
    pub authorization_ttl: Option<AuthorizationTtlFileConfig>,
}

/// What reading `<data_dir>/config.toml` produced.
#[derive(Debug, Clone)]
pub enum FileLayer {
    /// No file.
    Absent,
    /// A file that is not a valid configuration (syntax, unknown keys,
    /// missing policy fields, wrong types).
    Malformed,
    /// A valid file.
    Parsed(FileConfig),
}

/// The host of a parsed URL, as the `url` crate classifies it.
#[derive(Debug, Clone, PartialEq, Eq)]
pub enum HostKind {
    Domain(String),
    Ipv4([u8; 4]),
    /// The address as a 128-bit value.
    Ipv6(u128),
}

/// The mathematical content of a [`HostKind`].
pub enum UrlHost {
    Domain(Seq<char>),
    Ipv4(Seq<u8>),
    Ipv6(u128),
}

impl View for HostKind {
    type V = UrlHost;

    open spec fn view(&self) -> UrlHost {
        match self {
            HostKind::Domain(d) => UrlHost::Domain(d@),
            HostKind::Ipv4(o) => UrlHost::Ipv4(o@),
            HostKind::Ipv6(v) => UrlHost::Ipv6(*v),
        }
    }
}

/// The host of a URL with its text, or none.
pub open spec fn opt_host(h: Option<(String, HostKind)>) -> Option<(Seq<char>, UrlHost)> {
    match h {
        Some((text, kind)) => Some((text@, kind@)),
        None => None,
    }
}

/// A parsed endpoint URL: its serialization, and its host text and kind
/// when it has a host.
#[derive(Debug, Clone, PartialEq, Eq)]
pub struct Endpoint {
    text: String,
    host: Option<(String, HostKind)>,
}

/// What `url::Url::parse` gives for a text, read out as plain values: the
/// parsed URL's serialization and its host (text and kind), or `None` where
/// the parse fails. The accessors only read the parsed value, so this is the
/// result of the one parse, a function of the text alone.
pub uninterp spec fn url_parsed(text: Seq<char>) -> Option<(Seq<char>, Option<(Seq<char>, UrlHost)>)>;

/// Calls `url::Url::parse` and reads the parsed URL out through its
/// accessors `Url::as_str`, `Url::host_str` and `Url::host`. Claimed: the
/// outcome is [`url_parsed`] of the given text.
#[verifier::external_body]
fn parse_url(text: &str) -> (r: Option<(String, Option<(String, HostKind)>)>)
    ensures
        match r {
            Some((serialized, host)) => url_parsed(text@) == Some((serialized@, opt_host(host))),
            None => url_parsed(text@) is None,
        },
{
    let url = match url::Url::parse(text) {
        Ok(url) => url,
        Err(_) => return None,
    };
    let host = match (url.host_str(), url.host()) {
        (Some(h), Some(url::Host::Domain(d))) => Some((h.to_string(), HostKind::Domain(d.to_string()))),
        (Some(h), Some(url::Host::Ipv4(a))) => Some((h.to_string(), HostKind::Ipv4(a.octets()))),
        (Some(h), Some(url::Host::Ipv6(a))) => Some((h.to_string(), HostKind::Ipv6(u128::from(a)))),
        _ => None,
    };
    Some((url.as_str().to_string(), host))
}

impl Endpoint {
    pub closed spec fn spec_text(self) -> Seq<char> {
        self.text@
    }

    /// The host text, if any.
    pub closed spec fn spec_host(self) -> Option<Seq<char>> {
        match self.host {
            Some((t, _)) => Some(t@),
            None => None,
        }
    }

    /// The host kind, if any.
    pub closed spec fn spec_host_kind(self) -> Option<UrlHost> {
        match self.host {
            Some((_, k)) => Some(k@),
            None => None,
        }
    }

    /// The host text and kind, if any.
    pub closed spec fn spec_host_entry(self) -> Option<(Seq<char>, UrlHost)> {
        opt_host(self.host)
    }

    pub proof fn lemma_host_entry(self)
        ensures
            self.spec_host_entry() is None <==> self.spec_host() is None,
            self.spec_host_entry() is None <==> self.spec_host_kind() is None,
            self.spec_host_entry() matches Some((t, k)) ==> self.spec_host() == Some(t)
                && self.spec_host_kind() == Some(k),
    {
    }

    /// Parses `text` as a URL.
    pub fn parse(text: &str) -> (r: Option<Endpoint>)
        ensures
            match r {
                Some(e) => url_parsed(text@) == Some((e.spec_text(), e.spec_host_entry())),
                None => url_parsed(text@) is None,
            },
    {
        match parse_url(text) {
            Some((serialized, host)) => Some(Endpoint { text: serialized, host }),
            None => None,
        }
    }

    /// The URL's serialization.
    pub fn as_str(&self) -> (s: &str)
        ensures
            s@ == self.spec_text(),
    {
        self.text.as_str()
    }

    /// The URL's host text, if any.
    pub fn host_str(&self) -> (h: Option<&str>)
        ensures
            match h {
                Some(h) => self.spec_host() == Some(h@),
                None => self.spec_host() is None,
            },
    {
        match &self.host {
            Some((t, _)) => Some(t.as_str()),
            None => None,
        }
    }

    /// The URL's host kind, if any.
    pub fn host_kind(&self) -> (k: Option<&HostKind>)
        ensures
            match k {
                Some(k) => self.spec_host_kind() == Some(k@),
                None => self.spec_host_kind() is None,
            },
    {
        match &self.host {
            Some((_, k)) => Some(k),
            None => None,
        }
    }
}

/// The resolved configuration.
#[derive(Debug, Clone, PartialEq, Eq)]
pub struct CompanionConfig {
    pub data_dir: String,
    pub log_level: String,
    pub core_bridge_endpoint: Endpoint,
    pub transport_mode: TransportMode,
    pub authorization_ttl: AuthorizationTtlConfig,
}

/// Configuration failures.
#[derive(Debug, Clone, PartialEq, Eq)]
pub enum ConfigError {
    InvalidEndpoint(String),
    InvalidTransportMode(String),
    InvalidAuthorizationTtlPolicy(String),
    InvalidConfigFile,
    ConfigFileRead { path: String, message: String },
}

/// The mathematical content of a [`ConfigError`].
pub enum ConfigErrorView {
    InvalidEndpoint(Seq<char>),
    InvalidTransportMode(Seq<char>),
    InvalidAuthorizationTtlPolicy(Seq<char>),
    InvalidConfigFile,
    ConfigFileRead { path: Seq<char>, message: Seq<char> },
}

impl View for ConfigError {
    type V = ConfigErrorView;

    open spec fn view(&self) -> ConfigErrorView {
        match self {
            ConfigError::InvalidEndpoint(s) => ConfigErrorView::InvalidEndpoint(s@),
            ConfigError::InvalidTransportMode(s) => ConfigErrorView::InvalidTransportMode(s@),
            ConfigError::InvalidAuthorizationTtlPolicy(s) => ConfigErrorView::InvalidAuthorizationTtlPolicy(s@),
            ConfigError::InvalidConfigFile => ConfigErrorView::InvalidConfigFile,
            ConfigError::ConfigFileRead { path, message } => ConfigErrorView::ConfigFileRead {
                path: path@,
                message: message@,
            },
        }
    }
}

/// The stable code of each configuration error.
pub open spec fn config_error_code(e: ConfigErrorView) -> Seq<char> {
    match e {
        ConfigErrorView::InvalidEndpoint(_) => "CONFIG_INVALID_ENDPOINT"@,
        ConfigErrorView::InvalidTransportMode(_) => "CONFIG_INVALID_TRANSPORT_MODE"@,
        ConfigErrorView::InvalidAuthorizationTtlPolicy(_) => "CONFIG_INVALID_AUTHORIZATION_TTL_POLICY"@,
        ConfigErrorView::InvalidConfigFile => "CONFIG_INVALID_FILE"@,
        ConfigErrorView::ConfigFileRead { .. } => "CONFIG_FILE_READ_FAILED"@,
    }
}

impl CompanionError for ConfigError {
    open spec fn spec_code(&self) -> Seq<char> {
        config_error_code(self@)
    }

    open spec fn spec_retryable(&self) -> bool {
        false
    }

    fn code(&self) -> (code: &'static str) {
        match self {
            ConfigError::InvalidEndpoint(_) => "CONFIG_INVALID_ENDPOINT",
            ConfigError::InvalidTransportMode(_) => "CONFIG_INVALID_TRANSPORT_MODE",
            ConfigError::InvalidAuthorizationTtlPolicy(_) => "CONFIG_INVALID_AUTHORIZATION_TTL_POLICY",
            ConfigError::InvalidConfigFile => "CONFIG_INVALID_FILE",
            ConfigError::ConfigFileRead { .. } => "CONFIG_FILE_READ_FAILED",
        }
    }

    fn retryable(&self) -> (r: bool) {
        false
    }
}

/// The message of a ceiling out of bounds for `field`.
pub open spec fn ceiling_message(field: Seq<char>) -> Seq<char> {
    field + " must be between 1 and 525600 minutes"@
}

/// Accepts a TTL ceiling between 1 and [`MAX_AUTHORIZATION_TTL_MINUTES`]
/// inclusive; anything else is an `InvalidAuthorizationTtlPolicy` naming
/// `field`.
pub fn validated_ttl_ceiling(value: i64, field: &str) -> (r: Result<i64, ConfigError>)
    ensures
        match r {
            Ok(v) => valid_ceiling(value) && v == value,
            Err(e) => !valid_ceiling(value) && e@ == ConfigErrorView::InvalidAuthorizationTtlPolicy(
                ceiling_message(field@),
            ),
        },
{
    if 1 <= value && value <= MAX_AUTHORIZATION_TTL_MINUTES {
        Ok(value)
    } else {
        Err(
            ConfigError::InvalidAuthorizationTtlPolicy(
                String::from_str(field).concat(" must be between 1 and 525600 minutes"),
            ),
        )
    }
}

/// The message of an unknown profile risk name.
pub open spec fn profile_risk_message(risk: Seq<char>) -> Seq<char> {
    "profile risk "@ + str_debug_text(risk) + " must be low, normal, high, or critical"@
}

/// Why a profile entry of the file is refused, if it is: its risk name is
/// checked before its ceiling.
pub open spec fn profile_entry_refusal(max_minutes: i64, risk: Seq<char>) -> Option<ConfigErrorView> {
    if spec_risk_named(risk) is None {
        Some(ConfigErrorView::InvalidAuthorizationTtlPolicy(profile_risk_message(risk)))
    } else if !valid_ceiling(max_minutes) {
        Some(
            ConfigErrorView::InvalidAuthorizationTtlPolicy(
                ceiling_message("profile.max_minutes"@),
            ),
        )
    } else {
        None
    }
}

impl AuthorizationTtlProfile {
    /// Validates one profile entry of the file.
    pub fn try_from_file(value: &AuthorizationTtlProfileFileConfig) -> (r: Result<
        AuthorizationTtlProfile,
        ConfigError,
    >)
        ensures
            match r {
                Ok(p) => profile_entry_refusal(value.max_minutes, value.risk@) is None && p
                    == AuthorizationTtlProfile::spec_new(
                    value.max_minutes,
                    spec_risk_named(value.risk@)->0,
                ),
                Err(e) => profile_entry_refusal(value.max_minutes, value.risk@) == Some(e@),
            },
    {
        let risk = match RiskLevel::parse(value.risk.as_str()) {
            Some(risk) => risk,
            None => {
                let message = String::from_str("profile risk ").concat(
                    debug_quoted(value.risk.as_str()).as_str(),
                ).concat(" must be low, normal, high, or critical");
                return Err(ConfigError::InvalidAuthorizationTtlPolicy(message));
            },
        };
        let max_minutes = match validated_ttl_ceiling(value.max_minutes, "profile.max_minutes") {
            Ok(m) => m,
            Err(e) => {
                return Err(e);
            },
        };
        Ok(AuthorizationTtlProfile { max_minutes, risk })
    }
}

/// Why the file's TTL policy is refused, if it is: the four profiles in
/// order, then the four risk ceilings in order; the first refusal wins.
pub open spec fn ttl_policy_refusal(v: AuthorizationTtlFileConfig) -> Option<ConfigErrorView> {
    if profile_entry_refusal(v.inspect.max_minutes, v.inspect.risk@) is Some {
        profile_entry_refusal(v.inspect.max_minutes, v.inspect.risk@)
    } else if profile_entry_refusal(v.design.max_minutes, v.design.risk@) is Some {
        profile_entry_refusal(v.design.max_minutes, v.design.risk@)
    } else if profile_entry_refusal(v.manufacturing.max_minutes, v.manufacturing.risk@) is Some {
        profile_entry_refusal(v.manufacturing.max_minutes, v.manufacturing.risk@)
    } else if profile_entry_refusal(v.custom.max_minutes, v.custom.risk@) is Some {
        profile_entry_refusal(v.custom.max_minutes, v.custom.risk@)
    } else if !valid_ceiling(v.low_risk_max_minutes) {
        Some(
            ConfigErrorView::InvalidAuthorizationTtlPolicy(
                ceiling_message("low_risk_max_minutes"@),
            ),
        )
    } else if !valid_ceiling(v.normal_risk_max_minutes) {
        Some(
            ConfigErrorView::InvalidAuthorizationTtlPolicy(
                ceiling_message("normal_risk_max_minutes"@),
            ),
        )
    } else if !valid_ceiling(v.high_risk_max_minutes) {
        Some(
            ConfigErrorView::InvalidAuthorizationTtlPolicy(
                ceiling_message("high_risk_max_minutes"@),
            ),
        )
    } else if !valid_ceiling(v.critical_risk_max_minutes) {
        Some(
            ConfigErrorView::InvalidAuthorizationTtlPolicy(
                ceiling_message("critical_risk_max_minutes"@),
            ),
        )
    } else {
        None
    }
}

/// Whether `c` holds exactly the values of the file's policy.
pub open spec fn ttl_policy_matches(c: AuthorizationTtlConfig, v: AuthorizationTtlFileConfig) -> bool {
    &&& c.spec_profile(CapabilityProfile::Inspect) == AuthorizationTtlProfile::spec_new(
        v.inspect.max_minutes,
        spec_risk_named(v.inspect.risk@)->0,
    )
    &&& c.spec_profile(CapabilityProfile::Design) == AuthorizationTtlProfile::spec_new(
        v.design.max_minutes,
        spec_risk_named(v.design.risk@)->0,
    )
    &&& c.spec_profile(CapabilityProfile::Manufacturing) == AuthorizationTtlProfile::spec_new(
        v.manufacturing.max_minutes,
        spec_risk_named(v.manufacturing.risk@)->0,
    )
    &&& forall|set| #[trigger]
        c.spec_profile(CapabilityProfile::Custom(set)) == AuthorizationTtlProfile::spec_new(
            v.custom.max_minutes,
            spec_risk_named(v.custom.risk@)->0,
        )
    &&& c.spec_risk_ceiling(RiskLevel::Low) == v.low_risk_max_minutes
    &&& c.spec_risk_ceiling(RiskLevel::Normal) == v.normal_risk_max_minutes
    &&& c.spec_risk_ceiling(RiskLevel::High) == v.high_risk_max_minutes
    &&& c.spec_risk_ceiling(RiskLevel::Critical) == v.critical_risk_max_minutes
}

impl AuthorizationTtlConfig {
    /// Validates the file's TTL policy.
    pub fn try_from_file(value: &AuthorizationTtlFileConfig) -> (r: Result<
        AuthorizationTtlConfig,
        ConfigError,
    >)
        ensures
            match r {
                Ok(c) => ttl_policy_refusal(*value) is None && ttl_policy_matches(c, *value)
                    && c.valid(),
                Err(e) => ttl_policy_refusal(*value) == Some(e@),
            },
    {
        let inspect = match AuthorizationTtlProfile::try_from_file(&value.inspect) {
            Ok(p) => p,
            Err(e) => {
                return Err(e);
            },
        };
        let design = match AuthorizationTtlProfile::try_from_file(&value.design) {
            Ok(p) => p,
            Err(e) => {
                return Err(e);
            },
        };
        let manufacturing = match AuthorizationTtlProfile::try_from_file(&value.manufacturing) {
            Ok(p) => p,
            Err(e) => {
                return Err(e);
            },
        };
        let custom = match AuthorizationTtlProfile::try_from_file(&value.custom) {
            Ok(p) => p,
            Err(e) => {
                return Err(e);
            },
        };
        let low_risk_max_minutes = match validated_ttl_ceiling(
            value.low_risk_max_minutes,
            "low_risk_max_minutes",
        ) {
            Ok(m) => m,
            Err(e) => {
                return Err(e);
            },
        };
        let normal_risk_max_minutes = match validated_ttl_ceiling(
            value.normal_risk_max_minutes,
            "normal_risk_max_minutes",
        ) {
            Ok(m) => m,
            Err(e) => {
                return Err(e);
            },
        };
        let high_risk_max_minutes = match validated_ttl_ceiling(
            value.high_risk_max_minutes,
            "high_risk_max_minutes",
        ) {
            Ok(m) => m,
            Err(e) => {
                return Err(e);
            },
        };
        let critical_risk_max_minutes = match validated_ttl_ceiling(
            value.critical_risk_max_minutes,
            "critical_risk_max_minutes",
        ) {
            Ok(m) => m,
            Err(e) => {
                return Err(e);
            },
        };
        Ok(
            AuthorizationTtlConfig {
                inspect,
                design,
                manufacturing,
                custom,
                low_risk_max_minutes,
                normal_risk_max_minutes,
                high_risk_max_minutes,
                critical_risk_max_minutes,
            },
        )
    }
}

/// The first present value of three layers, or `fallback`.
pub open spec fn first_of(
    a: Option<Seq<char>>,
    b: Option<Seq<char>>,
    c: Option<Seq<char>>,
    fallback: Seq<char>,
) -> Seq<char> {
    match a {
        Some(v) => v,
        None => match b {
            Some(v) => v,
            None => match c {
                Some(v) => v,
                None => fallback,
            },
        },
    }
}

/// Layer precedence: a value given on the command line wins over every
/// other layer; without one, the environment wins over the file; the
/// default applies only where no layer gives a value.
pub proof fn lemma_layer_precedence(
    cli: Option<Seq<char>>,
    env: Option<Seq<char>>,
    file: Option<Seq<char>>,
    default: Seq<char>,
)
    ensures
        cli is Some ==> first_of(cli, env, file, default) == cli->0,
        cli is None && env is Some ==> first_of(cli, env, file, default) == env->0,
        cli is None && env is None && file is Some ==> first_of(cli, env, file, default)
            == file->0,
        cli is None && env is None && file is None ==> first_of(cli, env, file, default)
            == default,
{
}

/// The first present value of three string layers, or `fallback`.
fn first_present(
    a: Option<String>,
    b: Option<String>,
    c: Option<String>,
    fallback: &str,
) -> (v: String)
    ensures
        v@ == first_of(opt_text(a), opt_text(b), opt_text(c), fallback@),
{
    match a {
        Some(v) => v,
        None => match b {
            Some(v) => v,
            None => match c {
                Some(v) => v,
                None => String::from_str(fallback),
            },
        },
    }
}

/// The data directory: the CLI value, else `GATEWAY_DATA_DIR`, else the
/// platform fallback supplied by the caller.
pub fn resolved_data_dir(overrides: &CliOverrides, env: &ConfigEnv, fallback: &str) -> (dir: String)
    ensures
        dir@ == first_of(opt_text(overrides.data_dir), opt_text(env.data_dir), None, fallback@),
{
    first_present(overrides.data_dir.clone(), env.data_dir.clone(), None, fallback)
}

/// The transport mode layers, in order: CLI, environment, file, default.
pub open spec fn transport_mode_choice(
    cli: Option<TransportMode>,
    env: Option<Seq<char>>,
    file: Option<Seq<char>>,
) -> Result<TransportMode, ConfigErrorView> {
    match cli {
        Some(mode) => Ok(mode),
        None => {
            let raw = if env is Some {
                env
            } else {
                file
            };
            match raw {
                Some(name) => match spec_transport_mode_named(name) {
                    Some(mode) => Ok(mode),
                    None => Err(ConfigErrorView::InvalidTransportMode(name)),
                },
                None => Ok(TransportMode::Disabled),
            }
        },
    }
}

/// The file layer's contents, absent and malformed files giving none.
pub open spec fn file_values(file: FileLayer) -> FileConfig {
    match file {
        FileLayer::Parsed(f) => f,
        _ => FileConfig {
            log_level: None,
            core_bridge_endpoint: None,
            transport_mode: None,
            authorization_ttl: None,
        },
    }
}

/// The endpoint text the layers select.
pub open spec fn endpoint_choice(
    overrides: CliOverrides,
    env: ConfigEnv,
    file: FileConfig,
) -> Seq<char> {
    first_of(
        opt_text(overrides.core_bridge_endpoint),
        opt_text(env.core_bridge_endpoint),
        opt_text(file.core_bridge_endpoint),
        DEFAULT_CORE_BRIDGE_ENDPOINT@,
    )
}

/// The transport mode the layers select, or its refusal.
pub open spec fn mode_choice(overrides: CliOverrides, env: ConfigEnv, file: FileConfig) -> Result<
    TransportMode,
    ConfigErrorView,
> {
    transport_mode_choice(
        overrides.transport_mode,
        opt_text(env.transport_mode),
        opt_text(file.transport_mode),
    )
}

/// The text-valued layers take precedence in order: a CLI value wins, else
/// an environment value, else a file value, else the fallback; a later
/// layer is consulted only when every earlier one is absent.
pub proof fn lemma_text_layer_precedence(
    cli: Option<Seq<char>>,
    env: Option<Seq<char>>,
    file: Option<Seq<char>>,
    fallback: Seq<char>,
    other_env: Option<Seq<char>>,
    other_file: Option<Seq<char>>,
    other_fallback: Seq<char>,
)
    ensures
        cli matches Some(v) ==> first_of(cli, env, file, fallback) == v && first_of(
            cli,
            other_env,
            other_file,
            other_fallback,
        ) == v,
        cli is None && env is Some ==> first_of(cli, env, file, fallback) == env->0
            && first_of(cli, env, other_file, other_fallback) == env->0,
        cli is None && env is None && file is Some ==> first_of(cli, env, file, fallback)
            == file->0 && first_of(cli, env, file, other_fallback) == file->0,
        cli is None && env is None && file is None ==> first_of(cli, env, file, fallback)
            == fallback,
{
}

/// How one configured mode text reads: `disabled` and `mock` name their
/// modes, and any other text is refused, naming that text.
pub open spec fn read_mode_text(raw: Seq<char>) -> Result<TransportMode, ConfigErrorView> {
    if raw == "disabled"@ {
        Ok(TransportMode::Disabled)
    } else if raw == "mock"@ {
        Ok(TransportMode::Mock)
    } else {
        Err(ConfigErrorView::InvalidTransportMode(raw))
    }
}

/// The transport mode's layers take precedence in order: a CLI mode wins
/// outright; without one, an environment value decides the mode (or its
/// refusal) whatever the file says, so two files give the same outcome;
/// only without both does the file decide; and with no value anywhere the
/// mode is `disabled`. A value is read as `disabled` or `mock`, and any
/// other text is refused naming that text.
pub proof fn lemma_transport_mode_layer_precedence(
    overrides: CliOverrides,
    env: ConfigEnv,
    file: FileConfig,
    other_file: FileConfig,
    other_env: ConfigEnv,
)
    ensures
        overrides.transport_mode matches Some(m) ==> mode_choice(overrides, env, file) == Ok::<
            TransportMode,
            ConfigErrorView,
        >(m),
        overrides.transport_mode is None && env.transport_mode is Some ==> mode_choice(
            overrides,
            env,
            file,
        ) == mode_choice(overrides, env, other_file),
        overrides.transport_mode is None && env.transport_mode is None
            && other_env.transport_mode is None ==> mode_choice(overrides, env, file)
            == mode_choice(overrides, other_env, file),
        overrides.transport_mode is None && env.transport_mode is None && file.transport_mode
            is None ==> mode_choice(overrides, env, file) == Ok::<TransportMode, ConfigErrorView>(
            TransportMode::Disabled,
        ),
        overrides.transport_mode is None && env.transport_mode is Some ==> mode_choice(
            overrides,
            env,
            file,
        ) == read_mode_text(env.transport_mode->0@),
        overrides.transport_mode is None && env.transport_mode is None && file.transport_mode
            is Some ==> mode_choice(overrides, env, file) == read_mode_text(
            file.transport_mode->0@,
        ),
{
}

/// Why loading fails, if it does, in the order the checks are made: the
/// file, the endpoint, the transport mode, the TTL policy.
pub open spec fn load_refusal(overrides: CliOverrides, env: ConfigEnv, file: FileLayer) -> Option<
    ConfigErrorView,
> {
    let f = file_values(file);
    if file is Malformed {
        Some(ConfigErrorView::InvalidConfigFile)
    } else if url_parsed(endpoint_choice(overrides, env, f)) is None {
        Some(ConfigErrorView::InvalidEndpoint(endpoint_choice(overrides, env, f)))
    } else if mode_choice(overrides, env, f) is Err {
        Some(mode_choice(overrides, env, f)->Err_0)
    } else if f.authorization_ttl is Some && ttl_policy_refusal(f.authorization_ttl->0) is Some {
        ttl_policy_refusal(f.authorization_ttl->0)
    } else {
        None
    }
}

/// Resolves the configuration from the layers: each value comes from the
/// CLI if given, else the environment, else the file, else its default. A
/// malformed file, an endpoint that is not a URL, an unknown transport mode
/// and an invalid TTL policy are typed errors, in that order.
pub fn load_from_sources(
    overrides: CliOverrides,
    env: &ConfigEnv,
    file: FileLayer,
    fallback_data_dir: &str,
) -> (r: Result<CompanionConfig, ConfigError>)
    ensures
        match r {
            Ok(c) => {
                let f = file_values(file);
                &&& load_refusal(overrides, *env, file) is None
                &&& c.data_dir@ == first_of(
                    opt_text(overrides.data_dir),
                    opt_text(env.data_dir),
                    None,
                    fallback_data_dir@,
                )
                &&& c.log_level@ == first_of(
                    opt_text(overrides.log_level),
                    opt_text(env.log_level),
                    opt_text(f.log_level),
                    DEFAULT_LOG_LEVEL@,
                )
                &&& url_parsed(endpoint_choice(overrides, *env, f)) == Some(
                    (c.core_bridge_endpoint.spec_text(), c.core_bridge_endpoint.spec_host_entry()),
                )
                &&& mode_choice(overrides, *env, f) == Ok::<TransportMode, ConfigErrorView>(
                    c.transport_mode,
                )
                &&& match f.authorization_ttl {
                    Some(v) => ttl_policy_matches(c.authorization_ttl, v),
                    None => is_default_ttl_policy(c.authorization_ttl),
                }
                &&& c.authorization_ttl.valid()
            },
            Err(e) => load_refusal(overrides, *env, file) == Some(e@),
        },
{
    let ghost orig_overrides = overrides;
    let ghost orig_file = file;
    let file = match file {
        FileLayer::Malformed => {
            return Err(ConfigError::InvalidConfigFile);
        },
        FileLayer::Absent => FileConfig {
            log_level: None,
            core_bridge_endpoint: None,
            transport_mode: None,
            authorization_ttl: None,
        },
        FileLayer::Parsed(f) => f,
    };
    let data_dir = resolved_data_dir(&overrides, env, fallback_data_dir);
    let log_level = first_present(
        overrides.log_level,
        env.log_level.clone(),
        file.log_level,
        DEFAULT_LOG_LEVEL,
    );
    let endpoint_text = first_present(
        overrides.core_bridge_endpoint,
        env.core_bridge_endpoint.clone(),
        file.core_bridge_endpoint,
        DEFAULT_CORE_BRIDGE_ENDPOINT,
    );
    let core_bridge_endpoint = match Endpoint::parse(endpoint_text.as_str()) {
        Some(e) => e,
        None => {
            return Err(ConfigError::InvalidEndpoint(endpoint_text));
        },
    };
    let transport_mode = match overrides.transport_mode {
        Some(mode) => mode,
        None => match &env.transport_mode {
            Some(raw) => match TransportMode::parse(raw.as_str()) {
                Ok(mode) => mode,
                Err(e) => {
                    return Err(e);
                },
            },
            None => match &file.transport_mode {
                Some(raw) => match TransportMode::parse(raw.as_str()) {
                    Ok(mode) => mode,
                    Err(e) => {
                        return Err(e);
                    },
                },
                None => TransportMode::Disabled,
            },
        },
    };
    let authorization_ttl = match &file.authorization_ttl {
        Some(v) => match AuthorizationTtlConfig::try_from_file(v) {
            Ok(c) => c,
            Err(e) => {
                return Err(e);
            },
        },
        None => AuthorizationTtlConfig::default(),
    };
    Ok(
        CompanionConfig {
            data_dir,
            log_level,
            core_bridge_endpoint,
            transport_mode,
            authorization_ttl,
        },
    )
}

/// Precedence without a file layer: CLI over environment over defaults.
pub fn load_from(overrides: CliOverrides, env: &ConfigEnv, fallback_data_dir: &str) -> (r: Result<
    CompanionConfig,
    ConfigError,
>)
    ensures
        match r {
            Ok(c) => {
                &&& load_refusal(overrides, *env, FileLayer::Absent) is None
                &&& c.data_dir@ == first_of(
                    opt_text(overrides.data_dir),
                    opt_text(env.data_dir),
                    None,
                    fallback_data_dir@,
                )
                &&& url_parsed(endpoint_choice(overrides, *env, file_values(FileLayer::Absent)))
                    == Some(
                    (c.core_bridge_endpoint.spec_text(), c.core_bridge_endpoint.spec_host_entry()),
                )
                &&& c.log_level@ == first_of(
                    opt_text(overrides.log_level),
                    opt_text(env.log_level),
                    None,
                    DEFAULT_LOG_LEVEL@,
                )
                &&& mode_choice(overrides, *env, file_values(FileLayer::Absent)) == Ok::<
                    TransportMode,
                    ConfigErrorView,
                >(c.transport_mode)
                &&& is_default_ttl_policy(c.authorization_ttl)
            },
            Err(e) => load_refusal(overrides, *env, FileLayer::Absent) == Some(e@),
        },
{
    load_from_sources(overrides, env, FileLayer::Absent, fallback_data_dir)
}

} // verus!
