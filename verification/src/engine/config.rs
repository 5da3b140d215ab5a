//! The configuration that the engine is started with.

use std::time::Duration;
use vstd::prelude::*;

verus! {

/// How far an identity token is trusted.
#[derive(Clone, Copy, Debug, PartialEq, Eq, Structural)]
pub enum IdTokenTrustMode {
    Always,
    Never,
    IfPresent,
    Strict,
}

/// How much is logged.
#[derive(Clone, Copy, Debug, PartialEq, Eq, Structural)]
pub enum LogLevel {
    FATAL,
    ERROR,
    WARN,
    INFO,
    DEBUG,
    TRACE,
}

/// The bounds of a log that is kept in memory.
#[derive(Clone, Copy, Debug, PartialEq, Eq)]
pub struct MemoryLogConfig {
    pub log_ttl: u64,
    pub max_items: Option<usize>,
    pub max_item_size: Option<usize>,
}

impl DeepView for MemoryLogConfig {
    type V = MemoryLogConfig;

    open spec fn deep_view(&self) -> MemoryLogConfig {
        *self
    }
}

/// Where the log goes.
#[derive(Clone, Copy, Debug, PartialEq, Eq)]
pub enum LogTypeConfig {
    Off,
    Memory(MemoryLogConfig),
    StdOut,
}

/// The logging section.
#[derive(Clone, Copy, Debug, PartialEq, Eq)]
pub struct LogConfig {
    pub log_type: LogTypeConfig,
    pub log_level: LogLevel,
}

impl DeepView for LogConfig {
    type V = LogConfig;

    open spec fn deep_view(&self) -> LogConfig {
        *self
    }
}

/// Where the policy store comes from: its text, or the path of its file.
#[derive(Debug, PartialEq)]
pub enum PolicyStoreSource {
    Json(String),
    Yaml(String),
    LockServer(String),
    FileJson(String),
    FileYaml(String),
}

pub enum PolicyStoreSourceView {
    Json(Seq<char>),
    Yaml(Seq<char>),
    LockServer(Seq<char>),
    FileJson(Seq<char>),
    FileYaml(Seq<char>),
}

impl DeepView for PolicyStoreSource {
    type V = PolicyStoreSourceView;

    open spec fn deep_view(&self) -> PolicyStoreSourceView {
        match *self {
            PolicyStoreSource::Json(text) => PolicyStoreSourceView::Json(text@),
            PolicyStoreSource::Yaml(text) => PolicyStoreSourceView::Yaml(text@),
            PolicyStoreSource::LockServer(text) => PolicyStoreSourceView::LockServer(text@),
            PolicyStoreSource::FileJson(path) => PolicyStoreSourceView::FileJson(path@),
            PolicyStoreSource::FileYaml(path) => PolicyStoreSourceView::FileYaml(path@),
        }
    }
}

/// The policy store section.
#[derive(Debug, PartialEq)]
pub struct PolicyStoreConfig {
    pub source: PolicyStoreSource,
}

pub struct PolicyStoreConfigView {
    pub source: PolicyStoreSourceView,
}

impl DeepView for PolicyStoreConfig {
    type V = PolicyStoreConfigView;

    open spec fn deep_view(&self) -> PolicyStoreConfigView {
        PolicyStoreConfigView { source: self.source.deep_view() }
    }
}

/// The token validation section. The supported algorithms form a set: none
/// occurs twice, and each stands where it was first named.
#[derive(Debug, PartialEq)]
pub struct JwtConfig {
    pub jwks: Option<String>,
    pub jwt_sig_validation: bool,
    pub jwt_status_validation: bool,
    pub signature_algorithms_supported: Vec<jsonwebtoken::Algorithm>,
}

pub struct JwtConfigView {
    pub jwks: Option<Seq<char>>,
    pub jwt_sig_validation: bool,
    pub jwt_status_validation: bool,
    pub signature_algorithms_supported: Seq<jsonwebtoken::Algorithm>,
}

impl JwtConfigView {
    /// Whether the supported algorithms form a set: none occurs twice.
    pub open spec fn wf(self) -> bool {
        self.signature_algorithms_supported.no_duplicates()
    }
}

impl DeepView for JwtConfig {
    type V = JwtConfigView;

    open spec fn deep_view(&self) -> JwtConfigView {
        JwtConfigView {
            jwks: self.jwks.deep_view(),
            jwt_sig_validation: self.jwt_sig_validation,
            jwt_status_validation: self.jwt_status_validation,
            signature_algorithms_supported: self.signature_algorithms_supported@,
        }
    }
}

/// A rule over principals, as the JSON text gave it.
#[derive(Debug, PartialEq)]
pub struct JsonRule {
    pub value: serde_json::Value,
}

impl DeepView for JsonRule {
    type V = JsonRule;

    open spec fn deep_view(&self) -> JsonRule {
        *self
    }
}

/// The authorization section.
#[derive(Debug, PartialEq)]
pub struct AuthorizationConfig {
    pub use_user_principal: bool,
    pub use_workload_principal: bool,
    pub principal_bool_operator: JsonRule,
    pub decision_log_user_claims: Vec<String>,
    pub decision_log_workload_claims: Vec<String>,
    pub decision_log_default_jwt_id: String,
    pub id_token_trust_mode: IdTokenTrustMode,
}

pub struct AuthorizationConfigView {
    pub use_user_principal: bool,
    pub use_workload_principal: bool,
    pub principal_bool_operator: JsonRule,
    pub decision_log_user_claims: Seq<Seq<char>>,
    pub decision_log_workload_claims: Seq<Seq<char>>,
    pub decision_log_default_jwt_id: Seq<char>,
    pub id_token_trust_mode: IdTokenTrustMode,
}

impl DeepView for AuthorizationConfig {
    type V = AuthorizationConfigView;

    open spec fn deep_view(&self) -> AuthorizationConfigView {
        AuthorizationConfigView {
            use_user_principal: self.use_user_principal,
            use_workload_principal: self.use_workload_principal,
            principal_bool_operator: self.principal_bool_operator,
            decision_log_user_claims: self.decision_log_user_claims.deep_view(),
            decision_log_workload_claims: self.decision_log_workload_claims.deep_view(),
            decision_log_default_jwt_id: self.decision_log_default_jwt_id@,
            id_token_trust_mode: self.id_token_trust_mode,
        }
    }
}

/// Where the role identifier of an unsigned request is taken from. The
/// engine fixes the place; the value says no more than that one was given.
#[derive(Clone, Copy, Debug, PartialEq, Eq, Structural)]
pub struct UnsignedRoleIdSrc;

/// The names of the entity types that the engine builds.
#[derive(Debug, PartialEq)]
pub struct EntityNames {
    pub user: String,
    pub workload: String,
    pub role: String,
    pub iss: String,
}

pub struct EntityNamesView {
    pub user: Seq<char>,
    pub workload: Seq<char>,
    pub role: Seq<char>,
    pub iss: Seq<char>,
}

impl DeepView for EntityNames {
    type V = EntityNamesView;

    open spec fn deep_view(&self) -> EntityNamesView {
        EntityNamesView {
            user: self.user@,
            workload: self.workload@,
            role: self.role@,
            iss: self.iss@,
        }
    }
}

/// The entity builder section.
#[derive(Debug, PartialEq)]
pub struct EntityBuilderConfig {
    pub build_workload: bool,
    pub build_user: bool,
    pub entity_names: EntityNames,
}

pub struct EntityBuilderConfigView {
    pub build_workload: bool,
    pub build_user: bool,
    pub entity_names: EntityNamesView,
}

impl DeepView for EntityBuilderConfig {
    type V = EntityBuilderConfigView;

    open spec fn deep_view(&self) -> EntityBuilderConfigView {
        EntityBuilderConfigView {
            build_workload: self.build_workload,
            build_user: self.build_user,
            entity_names: self.entity_names.deep_view(),
        }
    }
}

/// The lock service section.
#[derive(Debug, PartialEq)]
pub struct LockServiceConfig {
    pub log_level: LogLevel,
    pub config_uri: url::Url,
    pub dynamic_config: bool,
    pub ssa_jwt: Option<String>,
    pub log_interval: Option<Duration>,
    pub health_interval: Option<Duration>,
    pub telemetry_interval: Option<Duration>,
    pub listen_sse: bool,
    pub accept_invalid_certs: bool,
}

pub struct LockServiceConfigView {
    pub log_level: LogLevel,
    pub config_uri: url::Url,
    pub dynamic_config: bool,
    pub ssa_jwt: Option<Seq<char>>,
    pub log_interval: Option<Duration>,
    pub health_interval: Option<Duration>,
    pub telemetry_interval: Option<Duration>,
    pub listen_sse: bool,
    pub accept_invalid_certs: bool,
}

impl DeepView for LockServiceConfig {
    type V = LockServiceConfigView;

    open spec fn deep_view(&self) -> LockServiceConfigView {
        LockServiceConfigView {
            log_level: self.log_level,
            config_uri: self.config_uri,
            dynamic_config: self.dynamic_config,
            ssa_jwt: self.ssa_jwt.deep_view(),
            log_interval: self.log_interval,
            health_interval: self.health_interval,
            telemetry_interval: self.telemetry_interval,
            listen_sse: self.listen_sse,
            accept_invalid_certs: self.accept_invalid_certs,
        }
    }
}

/// Everything the engine is started with.
#[derive(Debug, PartialEq)]
pub struct BootstrapConfig {
    pub application_name: String,
    pub log_config: LogConfig,
    pub policy_store_config: PolicyStoreConfig,
    pub jwt_config: JwtConfig,
    pub authorization_config: AuthorizationConfig,
    pub entity_builder_config: EntityBuilderConfig,
    pub lock_config: Option<LockServiceConfig>,
}

pub struct BootstrapConfigView {
    pub application_name: Seq<char>,
    pub log_config: LogConfig,
    pub policy_store_config: PolicyStoreConfigView,
    pub jwt_config: JwtConfigView,
    pub authorization_config: AuthorizationConfigView,
    pub entity_builder_config: EntityBuilderConfigView,
    pub lock_config: Option<LockServiceConfigView>,
}

impl BootstrapConfigView {
    /// Whether every section is well formed.
    pub open spec fn wf(self) -> bool {
        self.jwt_config.wf()
    }
}

impl DeepView for BootstrapConfig {
    type V = BootstrapConfigView;

    open spec fn deep_view(&self) -> BootstrapConfigView {
        BootstrapConfigView {
            application_name: self.application_name@,
            log_config: self.log_config,
            policy_store_config: self.policy_store_config.deep_view(),
            jwt_config: self.jwt_config.deep_view(),
            authorization_config: self.authorization_config.deep_view(),
            entity_builder_config: self.entity_builder_config.deep_view(),
            lock_config: self.lock_config.deep_view(),
        }
    }
}

} // verus!
