//! The converter of the whole configuration.

use crate::config::authorization_config::JavaAuthorizationConfig;
use crate::config::entity_builder_config::JavaEntityBuilderConfig;
use crate::config::jwt_config::JavaJwtConfig;
use crate::config::lock_service_config::JavaLockServiceConfig;
use crate::config::log_config::JavaLogConfig;
use crate::config::policy_store_config::JavaPolicyStoreConfig;
use crate::engine::config::{AuthorizationConfig, BootstrapConfig, BootstrapConfigView};
use crate::engine::config::EntityBuilderConfig;
use crate::engine::config::{JwtConfig, JwtConfigView, LockServiceConfig, LockServiceConfigView};
use crate::engine::config::LogConfig;
use crate::engine::config::{PolicyStoreConfig, PolicyStoreConfigView};
use crate::error::{CedarlingBridgeError, CedarlingBridgeErrorView, is_result, is_result_of, misses};
use crate::jni::env::{JMethodID, JObject, JavaEnv, JavaEnvView};
use crate::jni::jni_cache::{JniCache, JniCacheView, Registration};
use crate::jni::util::{call_jni_object_method, call_jni_string_method, lemma_reads_never_miss};
use crate::jni::util::{no_args, object_result, require_some, required_of, string_result};
use vstd::prelude::*;

verus! {

pub const JAVA_CLS_NAME: &'static str = "io/jans/cedarling/bridge/config/BootstrapConfiguration";

pub const JAVA_METHOD_NAME_GET_APPLICATION_NAME: &'static str = "getApplicationName";

pub const JAVA_METHOD_SIG_GET_APPLICATION_NAME: &'static str = "()Ljava/lang/String;";

pub const JAVA_METHOD_NAME_GET_LOG_CONFIGURATION: &'static str = "getLogConfiguration";

pub const JAVA_METHOD_SIG_GET_LOG_CONFIGURATION: &'static str =
    "()Lio/jans/cedarling/bridge/config/LogConfiguration;";

pub const JAVA_METHOD_NAME_GET_POLICY_STORE_CONFIGURATION: &'static str =
    "getPolicyStoreConfiguration";

pub const JAVA_METHOD_SIG_GET_POLICY_STORE_CONFIGURATION: &'static str =
    "()Lio/jans/cedarling/bridge/config/PolicyStoreConfiguration;";

pub const JAVA_METHOD_NAME_GET_JWT_CONFIGURATION: &'static str = "getJwtConfiguration";

pub const JAVA_METHOD_SIG_GET_JWT_CONFIGURATION: &'static str =
    "()Lio/jans/cedarling/bridge/config/JwtConfiguration;";

pub const JAVA_METHOD_NAME_GET_AUTHORIZATION_CONFIGURATION: &'static str = "getAuthzConfiguration";

pub const JAVA_METHOD_SIG_GET_AUTHORIZATION_CONFIGURATION: &'static str =
    "()Lio/jans/cedarling/bridge/config/AuthorizationConfiguration;";

pub const JAVA_METHOD_NAME_GET_ENTITY_BUILDER_CONFIGURATION: &'static str =
    "getEntityBuilderConfiguration";

pub const JAVA_METHOD_SIG_GET_ENTITY_BUILDER_CONFIGURATION: &'static str =
    "()Lio/jans/cedarling/bridge/config/EntityBuilderConfiguration;";

pub const JAVA_METHOD_NAME_GET_LOCK_CONFIGURATION: &'static str = "getLockConfiguration";

pub const JAVA_METHOD_SIG_GET_LOCK_CONFIGURATION: &'static str =
    "()Lio/jans/cedarling/bridge/config/LockServiceConfiguration;";

/// A foreign configuration with the handles that read it.
#[derive(Clone, Copy, Debug)]
pub struct JavaBootstrapConfig {
    pub jobj: JObject,
    pub get_application_name_method: JMethodID,
    pub get_log_configuration_method: JMethodID,
    pub get_policy_store_configuration_method: JMethodID,
    pub get_jwt_configuration_method: JMethodID,
    pub get_authz_configuration_method: JMethodID,
    pub get_entity_builder_configuration_method: JMethodID,
    pub get_lock_configuration_method: JMethodID,
}

impl JavaBootstrapConfig {
    /// What this converter registers: its class, then each of its methods.
    pub open spec fn registration(reg: Registration, env: JavaEnvView) -> Registration {
        reg.class(env, JAVA_CLS_NAME@)
            .method(
                env,
                JAVA_CLS_NAME@,
                JAVA_METHOD_NAME_GET_APPLICATION_NAME@,
                JAVA_METHOD_SIG_GET_APPLICATION_NAME@,
            )
            .method(
                env,
                JAVA_CLS_NAME@,
                JAVA_METHOD_NAME_GET_LOG_CONFIGURATION@,
                JAVA_METHOD_SIG_GET_LOG_CONFIGURATION@,
            )
            .method(
                env,
                JAVA_CLS_NAME@,
                JAVA_METHOD_NAME_GET_POLICY_STORE_CONFIGURATION@,
                JAVA_METHOD_SIG_GET_POLICY_STORE_CONFIGURATION@,
            )
            .method(
                env,
                JAVA_CLS_NAME@,
                JAVA_METHOD_NAME_GET_JWT_CONFIGURATION@,
                JAVA_METHOD_SIG_GET_JWT_CONFIGURATION@,
            )
            .method(
                env,
                JAVA_CLS_NAME@,
                JAVA_METHOD_NAME_GET_AUTHORIZATION_CONFIGURATION@,
                JAVA_METHOD_SIG_GET_AUTHORIZATION_CONFIGURATION@,
            )
            .method(
                env,
                JAVA_CLS_NAME@,
                JAVA_METHOD_NAME_GET_ENTITY_BUILDER_CONFIGURATION@,
                JAVA_METHOD_SIG_GET_ENTITY_BUILDER_CONFIGURATION@,
            )
            .method(
                env,
                JAVA_CLS_NAME@,
                JAVA_METHOD_NAME_GET_LOCK_CONFIGURATION@,
                JAVA_METHOD_SIG_GET_LOCK_CONFIGURATION@,
            )
    }

    /// Registers the class and its methods; stops at the first that the
    /// runtime cannot resolve.
    pub fn jni_cache_init(env: &JavaEnv, cache: &mut JniCache) -> (res: Result<
        (),
        CedarlingBridgeError,
    >)
        ensures
            Self::registration(Registration::start(old(cache)@), env@).is_outcome(
                res,
                final(cache)@,
            ),
    {
        cache.add_class(env, JAVA_CLS_NAME)?;
        cache.add_instance_method(
            env,
            JAVA_CLS_NAME,
            JAVA_METHOD_NAME_GET_APPLICATION_NAME,
            JAVA_METHOD_SIG_GET_APPLICATION_NAME,
        )?;
        cache.add_instance_method(
            env,
            JAVA_CLS_NAME,
            JAVA_METHOD_NAME_GET_LOG_CONFIGURATION,
            JAVA_METHOD_SIG_GET_LOG_CONFIGURATION,
        )?;
        cache.add_instance_method(
            env,
            JAVA_CLS_NAME,
            JAVA_METHOD_NAME_GET_POLICY_STORE_CONFIGURATION,
            JAVA_METHOD_SIG_GET_POLICY_STORE_CONFIGURATION,
        )?;
        cache.add_instance_method(
            env,
            JAVA_CLS_NAME,
            JAVA_METHOD_NAME_GET_JWT_CONFIGURATION,
            JAVA_METHOD_SIG_GET_JWT_CONFIGURATION,
        )?;
        cache.add_instance_method(
            env,
            JAVA_CLS_NAME,
            JAVA_METHOD_NAME_GET_AUTHORIZATION_CONFIGURATION,
            JAVA_METHOD_SIG_GET_AUTHORIZATION_CONFIGURATION,
        )?;
        cache.add_instance_method(
            env,
            JAVA_CLS_NAME,
            JAVA_METHOD_NAME_GET_ENTITY_BUILDER_CONFIGURATION,
            JAVA_METHOD_SIG_GET_ENTITY_BUILDER_CONFIGURATION,
        )?;
        cache.add_instance_method(
            env,
            JAVA_CLS_NAME,
            JAVA_METHOD_NAME_GET_LOCK_CONFIGURATION,
            JAVA_METHOD_SIG_GET_LOCK_CONFIGURATION,
        )
    }

    /// What wrapping a foreign object gives: nothing for the null reference,
    /// else the object with its handles from the cache, or the report of the
    /// first handle that the cache does not hold.
    pub open spec fn wrapped(cache: JniCacheView, jobj: JObject) -> Result<
        Option<JavaBootstrapConfig>,
        CedarlingBridgeErrorView,
    > {
        if jobj.is_null() {
            Ok(None)
        } else {
            match cache.method(
                JAVA_CLS_NAME@,
                JAVA_METHOD_NAME_GET_APPLICATION_NAME@,
                JAVA_METHOD_SIG_GET_APPLICATION_NAME@,
            ) {
                Err(e) => Err(e),
                Ok(get_application_name_method) => match cache.method(
                    JAVA_CLS_NAME@,
                    JAVA_METHOD_NAME_GET_LOG_CONFIGURATION@,
                    JAVA_METHOD_SIG_GET_LOG_CONFIGURATION@,
                ) {
                    Err(e) => Err(e),
                    Ok(get_log_configuration_method) => match cache.method(
                        JAVA_CLS_NAME@,
                        JAVA_METHOD_NAME_GET_POLICY_STORE_CONFIGURATION@,
                        JAVA_METHOD_SIG_GET_POLICY_STORE_CONFIGURATION@,
                    ) {
                        Err(e) => Err(e),
                        Ok(get_policy_store_configuration_method) => match cache.method(
                            JAVA_CLS_NAME@,
                            JAVA_METHOD_NAME_GET_JWT_CONFIGURATION@,
                            JAVA_METHOD_SIG_GET_JWT_CONFIGURATION@,
                        ) {
                            Err(e) => Err(e),
                            Ok(get_jwt_configuration_method) => match cache.method(
                                JAVA_CLS_NAME@,
                                JAVA_METHOD_NAME_GET_AUTHORIZATION_CONFIGURATION@,
                                JAVA_METHOD_SIG_GET_AUTHORIZATION_CONFIGURATION@,
                            ) {
                                Err(e) => Err(e),
                                Ok(get_authz_configuration_method) => match cache.method(
                                    JAVA_CLS_NAME@,
                                    JAVA_METHOD_NAME_GET_ENTITY_BUILDER_CONFIGURATION@,
                                    JAVA_METHOD_SIG_GET_ENTITY_BUILDER_CONFIGURATION@,
                                ) {
                                    Err(e) => Err(e),
                                    Ok(
                                        get_entity_builder_configuration_method,
                                    ) => match cache.method(
                                        JAVA_CLS_NAME@,
                                        JAVA_METHOD_NAME_GET_LOCK_CONFIGURATION@,
                                        JAVA_METHOD_SIG_GET_LOCK_CONFIGURATION@,
                                    ) {
                                        Err(e) => Err(e),
                                        Ok(get_lock_configuration_method) => Ok(
                                            Some(
                                                JavaBootstrapConfig {
                                                    jobj,
                                                    get_application_name_method,
                                                    get_log_configuration_method,
                                                    get_policy_store_configuration_method,
                                                    get_jwt_configuration_method,
                                                    get_authz_configuration_method,
                                                    get_entity_builder_configuration_method,
                                                    get_lock_configuration_method,
                                                },
                                            ),
                                        ),
                                    },
                                },
                            },
                        },
                    },
                },
            }
        }
    }

    /// Wraps a foreign object.
    pub fn new(cache: &JniCache, jobj: JObject) -> (res: Result<
        Option<JavaBootstrapConfig>,
        CedarlingBridgeError,
    >)
        ensures
            is_result(res, Self::wrapped(cache@, jobj)),
    {
        if jobj.is_null() {
            return Ok(None);
        }
        let get_application_name_key = (
            JAVA_CLS_NAME,
            JAVA_METHOD_NAME_GET_APPLICATION_NAME,
            JAVA_METHOD_SIG_GET_APPLICATION_NAME,
        );
        let get_log_configuration_key = (
            JAVA_CLS_NAME,
            JAVA_METHOD_NAME_GET_LOG_CONFIGURATION,
            JAVA_METHOD_SIG_GET_LOG_CONFIGURATION,
        );
        let get_policy_store_configuration_key = (
            JAVA_CLS_NAME,
            JAVA_METHOD_NAME_GET_POLICY_STORE_CONFIGURATION,
            JAVA_METHOD_SIG_GET_POLICY_STORE_CONFIGURATION,
        );
        let get_jwt_configuration_key = (
            JAVA_CLS_NAME,
            JAVA_METHOD_NAME_GET_JWT_CONFIGURATION,
            JAVA_METHOD_SIG_GET_JWT_CONFIGURATION,
        );
        let get_authz_configuration_key = (
            JAVA_CLS_NAME,
            JAVA_METHOD_NAME_GET_AUTHORIZATION_CONFIGURATION,
            JAVA_METHOD_SIG_GET_AUTHORIZATION_CONFIGURATION,
        );
        let get_entity_builder_configuration_key = (
            JAVA_CLS_NAME,
            JAVA_METHOD_NAME_GET_ENTITY_BUILDER_CONFIGURATION,
            JAVA_METHOD_SIG_GET_ENTITY_BUILDER_CONFIGURATION,
        );
        let get_lock_configuration_key = (
            JAVA_CLS_NAME,
            JAVA_METHOD_NAME_GET_LOCK_CONFIGURATION,
            JAVA_METHOD_SIG_GET_LOCK_CONFIGURATION,
        );
        Ok(
            Some(
                JavaBootstrapConfig {
                    jobj: jobj,
                    get_application_name_method: cache.get_instance_method(
                        &get_application_name_key,
                    )?,
                    get_log_configuration_method: cache.get_instance_method(
                        &get_log_configuration_key,
                    )?,
                    get_policy_store_configuration_method: cache.get_instance_method(
                        &get_policy_store_configuration_key,
                    )?,
                    get_jwt_configuration_method: cache.get_instance_method(
                        &get_jwt_configuration_key,
                    )?,
                    get_authz_configuration_method: cache.get_instance_method(
                        &get_authz_configuration_key,
                    )?,
                    get_entity_builder_configuration_method: cache.get_instance_method(
                        &get_entity_builder_configuration_key,
                    )?,
                    get_lock_configuration_method: cache.get_instance_method(
                        &get_lock_configuration_key,
                    )?,
                },
            ),
        )
    }

    /// What asking the object for `getApplicationName` gives.
    pub open spec fn spec_get_application_name(self, env: JavaEnvView) -> Result<
        Option<Seq<char>>,
        CedarlingBridgeErrorView,
    > {
        string_result(env, self.jobj, self.get_application_name_method, Seq::empty())
    }

    /// Asks the object for `getApplicationName`.
    pub fn get_application_name(&self, env: &JavaEnv) -> (res: Result<
        Option<String>,
        CedarlingBridgeError,
    >)
        ensures
            is_result_of(res, self.spec_get_application_name(env@)),
    {
        call_jni_string_method(env, &self.jobj, &self.get_application_name_method, &no_args())
    }

    /// What asking the object for `getLogConfiguration` gives: the object that
    /// comes back, wrapped.
    pub open spec fn spec_get_log_configuration(
        self,
        env: JavaEnvView,
        cache: JniCacheView,
    ) -> Result<
        Option<JavaLogConfig>,
        CedarlingBridgeErrorView,
    > {
        match object_result(env, self.jobj, self.get_log_configuration_method, Seq::empty()) {
            Err(e) => Err(e),
            Ok(obj) => JavaLogConfig::wrapped(cache, obj),
        }
    }

    /// Asks the object for `getLogConfiguration`.
    pub fn get_log_configuration(&self, env: &JavaEnv, cache: &JniCache) -> (res: Result<
        Option<JavaLogConfig>,
        CedarlingBridgeError,
    >)
        ensures
            is_result(res, self.spec_get_log_configuration(env@, cache@)),
    {
        let obj = call_jni_object_method(
            env,
            &self.jobj,
            &self.get_log_configuration_method,
            &no_args(),
        )?;
        JavaLogConfig::new(cache, obj)
    }

    /// What asking the object for `getPolicyStoreConfiguration` gives: the object that
    /// comes back, wrapped.
    pub open spec fn spec_get_policy_store_configuration(
        self,
        env: JavaEnvView,
        cache: JniCacheView,
    ) -> Result<
        Option<JavaPolicyStoreConfig>,
        CedarlingBridgeErrorView,
    > {
        match object_result(
            env,
            self.jobj,
            self.get_policy_store_configuration_method,
            Seq::empty(),
        ) {
            Err(e) => Err(e),
            Ok(obj) => JavaPolicyStoreConfig::wrapped(cache, obj),
        }
    }

    /// Asks the object for `getPolicyStoreConfiguration`.
    pub fn get_policy_store_configuration(&self, env: &JavaEnv, cache: &JniCache) -> (res: Result<
        Option<JavaPolicyStoreConfig>,
        CedarlingBridgeError,
    >)
        ensures
            is_result(res, self.spec_get_policy_store_configuration(env@, cache@)),
    {
        let obj = call_jni_object_method(
            env,
            &self.jobj,
            &self.get_policy_store_configuration_method,
            &no_args(),
        )?;
        JavaPolicyStoreConfig::new(cache, obj)
    }

    /// What asking the object for `getJwtConfiguration` gives: the object that
    /// comes back, wrapped.
    pub open spec fn spec_get_jwt_configuration(
        self,
        env: JavaEnvView,
        cache: JniCacheView,
    ) -> Result<
        Option<JavaJwtConfig>,
        CedarlingBridgeErrorView,
    > {
        match object_result(env, self.jobj, self.get_jwt_configuration_method, Seq::empty()) {
            Err(e) => Err(e),
            Ok(obj) => JavaJwtConfig::wrapped(cache, obj),
        }
    }

    /// Asks the object for `getJwtConfiguration`.
    pub fn get_jwt_configuration(&self, env: &JavaEnv, cache: &JniCache) -> (res: Result<
        Option<JavaJwtConfig>,
        CedarlingBridgeError,
    >)
        ensures
            is_result(res, self.spec_get_jwt_configuration(env@, cache@)),
    {
        let obj = call_jni_object_method(
            env,
            &self.jobj,
            &self.get_jwt_configuration_method,
            &no_args(),
        )?;
        JavaJwtConfig::new(cache, obj)
    }

    /// What asking the object for `getAuthzConfiguration` gives: the object that
    /// comes back, wrapped.
    pub open spec fn spec_get_authz_configuration(
        self,
        env: JavaEnvView,
        cache: JniCacheView,
    ) -> Result<
        Option<JavaAuthorizationConfig>,
        CedarlingBridgeErrorView,
    > {
        match object_result(env, self.jobj, self.get_authz_configuration_method, Seq::empty()) {
            Err(e) => Err(e),
            Ok(obj) => JavaAuthorizationConfig::wrapped(cache, obj),
        }
    }

    /// Asks the object for `getAuthzConfiguration`.
    pub fn get_authz_configuration(&self, env: &JavaEnv, cache: &JniCache) -> (res: Result<
        Option<JavaAuthorizationConfig>,
        CedarlingBridgeError,
    >)
        ensures
            is_result(res, self.spec_get_authz_configuration(env@, cache@)),
    {
        let obj = call_jni_object_method(
            env,
            &self.jobj,
            &self.get_authz_configuration_method,
            &no_args(),
        )?;
        JavaAuthorizationConfig::new(cache, obj)
    }

    /// What asking the object for `getEntityBuilderConfiguration` gives: the object that
    /// comes back, wrapped.
    pub open spec fn spec_get_entity_builder_configuration(
        self,
        env: JavaEnvView,
        cache: JniCacheView,
    ) -> Result<
        Option<JavaEntityBuilderConfig>,
        CedarlingBridgeErrorView,
    > {
        match object_result(
            env,
            self.jobj,
            self.get_entity_builder_configuration_method,
            Seq::empty(),
        ) {
            Err(e) => Err(e),
            Ok(obj) => JavaEntityBuilderConfig::wrapped(cache, obj),
        }
    }

    /// Asks the object for `getEntityBuilderConfiguration`.
    pub fn get_entity_builder_configuration(&self, env: &JavaEnv, cache: &JniCache) -> (res: Result<
        Option<JavaEntityBuilderConfig>,
        CedarlingBridgeError,
    >)
        ensures
            is_result(res, self.spec_get_entity_builder_configuration(env@, cache@)),
    {
        let obj = call_jni_object_method(
            env,
            &self.jobj,
            &self.get_entity_builder_configuration_method,
            &no_args(),
        )?;
        JavaEntityBuilderConfig::new(cache, obj)
    }

    /// What asking the object for `getLockConfiguration` gives: the object that
    /// comes back, wrapped.
    pub open spec fn spec_get_lock_configuration(
        self,
        env: JavaEnvView,
        cache: JniCacheView,
    ) -> Result<
        Option<JavaLockServiceConfig>,
        CedarlingBridgeErrorView,
    > {
        match object_result(env, self.jobj, self.get_lock_configuration_method, Seq::empty()) {
            Err(e) => Err(e),
            Ok(obj) => JavaLockServiceConfig::wrapped(cache, obj),
        }
    }

    /// Asks the object for `getLockConfiguration`.
    pub fn get_lock_configuration(&self, env: &JavaEnv, cache: &JniCache) -> (res: Result<
        Option<JavaLockServiceConfig>,
        CedarlingBridgeError,
    >)
        ensures
            is_result(res, self.spec_get_lock_configuration(env@, cache@)),
    {
        let obj = call_jni_object_method(
            env,
            &self.jobj,
            &self.get_lock_configuration_method,
            &no_args(),
        )?;
        JavaLockServiceConfig::new(cache, obj)
    }


    /// The native lock service section: nothing where the accessor gave the
    /// null reference.
    pub open spec fn lock_config_of(
        env: JavaEnvView,
        cache: JniCacheView,
        got: Result<Option<JavaLockServiceConfig>, CedarlingBridgeErrorView>,
    ) -> Result<Option<LockServiceConfigView>, CedarlingBridgeErrorView> {
        match got {
            Err(e) => Err(e),
            Ok(None) => Ok(None),
            Ok(Some(section)) => match section.converted(env, cache) {
                Err(e) => Err(e),
                Ok(native) => Ok(Some(native)),
            },
        }
    }

    /// Converts the lock service section, if there is one.
    pub fn to_lock_config(
        env: &JavaEnv,
        cache: &JniCache,
        got: Option<JavaLockServiceConfig>,
    ) -> (res:
        Result<Option<LockServiceConfig>, CedarlingBridgeError>)
        ensures
            is_result_of(res, Self::lock_config_of(env@, cache@, Ok(got))),
    {
        match got {
            Some(section) => Ok(Some(section.as_cedarling_lock_service_config(env, cache)?)),
            None => Ok(None),
        }
    }

    /// The native configuration that the object stands for. The application
    /// name and five sections are required; the lock service section may be
    /// absent. They are read and converted in the order given here, and the
    /// first failure is the result.
    pub open spec fn converted(self, env: JavaEnvView, cache: JniCacheView) -> Result<
        BootstrapConfigView,
        CedarlingBridgeErrorView,
    > {
        match required_of(self.spec_get_application_name(env), JAVA_CLS_NAME@, "applicationName"@) {
            Err(e) => Err(e),
            Ok(application_name) => match required_of(
                self.spec_get_log_configuration(env, cache),
                JAVA_CLS_NAME@,
                "logConfiguration"@,
            ) {
                Err(e) => Err(e),
                Ok(log_section) => match log_section.converted(env, cache) {
                    Err(e) => Err(e),
                    Ok(log_config) => match required_of(
                        self.spec_get_policy_store_configuration(env, cache),
                        JAVA_CLS_NAME@,
                        "policyStoreConfiguration"@,
                    ) {
                        Err(e) => Err(e),
                        Ok(store_section) => match store_section.converted(env, cache) {
                            Err(e) => Err(e),
                            Ok(policy_store_config) => match required_of(
                                self.spec_get_jwt_configuration(env, cache),
                                JAVA_CLS_NAME@,
                                "jwtConfiguration"@,
                            ) {
                                Err(e) => Err(e),
                                Ok(jwt_section) => match jwt_section.converted(env, cache) {
                                    Err(e) => Err(e),
                                    Ok(jwt_config) => self.converted_rest(
                                        env,
                                        cache,
                                        application_name,
                                        log_config,
                                        policy_store_config,
                                        jwt_config,
                                    ),
                                },
                            },
                        },
                    },
                },
            },
        }
    }

    /// The second half of [`Self::converted`]: what follows the token
    /// validation section.
    pub open spec fn converted_rest(
        self,
        env: JavaEnvView,
        cache: JniCacheView,
        application_name: Seq<char>,
        log_config: LogConfig,
        policy_store_config: PolicyStoreConfigView,
        jwt_config: JwtConfigView,
    ) -> Result<BootstrapConfigView, CedarlingBridgeErrorView> {
        match required_of(
            self.spec_get_authz_configuration(env, cache),
            JAVA_CLS_NAME@,
            "authzConfiguration"@,
        ) {
            Err(e) => Err(e),
            Ok(authz_section) => match authz_section.converted(env, cache) {
                Err(e) => Err(e),
                Ok(authorization_config) => match required_of(
                    self.spec_get_entity_builder_configuration(env, cache),
                    JAVA_CLS_NAME@,
                    "entityBuilderConfiguration"@,
                ) {
                    Err(e) => Err(e),
                    Ok(builder_section) => match builder_section.converted(env, cache) {
                        Err(e) => Err(e),
                        Ok(entity_builder_config) => match Self::lock_config_of(
                            env,
                            cache,
                            self.spec_get_lock_configuration(env, cache),
                        ) {
                            Err(e) => Err(e),
                            Ok(lock_config) => Ok(
                                BootstrapConfigView {
                                    application_name,
                                    log_config,
                                    policy_store_config,
                                    jwt_config,
                                    authorization_config,
                                    entity_builder_config,
                                    lock_config,
                                },
                            ),
                        },
                    },
                },
            },
        }
    }

    /// Converts the whole configuration.
    pub fn as_cedarling_boostrap_config(&self, env: &JavaEnv, cache: &JniCache) -> (res: Result<
        BootstrapConfig,
        CedarlingBridgeError,
    >)
        ensures
            is_result_of(res, self.converted(env@, cache@)),
            res matches Ok(config) ==> config.deep_view().wf(),
    {
        let app_name: String = require_some(
            self.get_application_name(env)?,
            JAVA_CLS_NAME,
            "applicationName",
        )?;
        let log_config: LogConfig = {
            let java_log_config = require_some(
                self.get_log_configuration(env, cache)?,
                JAVA_CLS_NAME,
                "logConfiguration",
            )?;
            java_log_config.as_cedarling_log_config(env, cache)?
        };
        let policy_store_config: PolicyStoreConfig = {
            let java_ps_config = require_some(
                self.get_policy_store_configuration(env, cache)?,
                JAVA_CLS_NAME,
                "policyStoreConfiguration",
            )?;
            java_ps_config.as_cedarling_policy_store_config(env, cache)?
        };
        let jwt_config: JwtConfig = {
            let java_jwt_config = require_some(
                self.get_jwt_configuration(env, cache)?,
                JAVA_CLS_NAME,
                "jwtConfiguration",
            )?;
            java_jwt_config.as_cedarling_jwt_config(env, cache)?
        };
        let authz_config: AuthorizationConfig = {
            let java_authz_config = require_some(
                self.get_authz_configuration(env, cache)?,
                JAVA_CLS_NAME,
                "authzConfiguration",
            )?;
            java_authz_config.as_cedarling_authz_config(env, cache)?
        };
        let entity_builder_config: EntityBuilderConfig = {
            let java_eb_config = require_some(
                self.get_entity_builder_configuration(env, cache)?,
                JAVA_CLS_NAME,
                "entityBuilderConfiguration",
            )?;
            java_eb_config.as_cedarling_entity_builder_config(env, cache)?
        };
        let lock_config: Option<LockServiceConfig> = Self::to_lock_config(
            env,
            cache,
            self.get_lock_configuration(env, cache)?,
        )?;
        Ok(
            BootstrapConfig {
                application_name: app_name,
                log_config: log_config,
                policy_store_config: policy_store_config,
                jwt_config: jwt_config,
                authorization_config: authz_config,
                entity_builder_config: entity_builder_config,
                lock_config: lock_config,
            },
        )
    }

    /// Whether the cache holds the class of this converter and every one of
    /// its handles.
    pub open spec fn is_registered(cache: JniCacheView) -> bool {
        &&& cache.classes.contains_key(JAVA_CLS_NAME@)
        &&& cache.methods.contains_key(
            (JAVA_CLS_NAME@, JAVA_METHOD_NAME_GET_APPLICATION_NAME@, JAVA_METHOD_SIG_GET_APPLICATION_NAME@),
        )
        &&& cache.methods.contains_key(
            (JAVA_CLS_NAME@, JAVA_METHOD_NAME_GET_LOG_CONFIGURATION@, JAVA_METHOD_SIG_GET_LOG_CONFIGURATION@),
        )
        &&& cache.methods.contains_key(
            (JAVA_CLS_NAME@, JAVA_METHOD_NAME_GET_POLICY_STORE_CONFIGURATION@, JAVA_METHOD_SIG_GET_POLICY_STORE_CONFIGURATION@),
        )
        &&& cache.methods.contains_key(
            (JAVA_CLS_NAME@, JAVA_METHOD_NAME_GET_JWT_CONFIGURATION@, JAVA_METHOD_SIG_GET_JWT_CONFIGURATION@),
        )
        &&& cache.methods.contains_key(
            (JAVA_CLS_NAME@, JAVA_METHOD_NAME_GET_AUTHORIZATION_CONFIGURATION@, JAVA_METHOD_SIG_GET_AUTHORIZATION_CONFIGURATION@),
        )
        &&& cache.methods.contains_key(
            (JAVA_CLS_NAME@, JAVA_METHOD_NAME_GET_ENTITY_BUILDER_CONFIGURATION@, JAVA_METHOD_SIG_GET_ENTITY_BUILDER_CONFIGURATION@),
        )
        &&& cache.methods.contains_key(
            (JAVA_CLS_NAME@, JAVA_METHOD_NAME_GET_LOCK_CONFIGURATION@, JAVA_METHOD_SIG_GET_LOCK_CONFIGURATION@),
        )
    }

    /// A run that has gone through the registration of this converter
    /// without a failure holds every one of its handles, and has dropped
    /// nothing that it held before.
    pub proof fn lemma_registration_holds(reg: Registration, env: JavaEnvView)
        ensures
            Self::registration(reg, env).continues(reg),
            Self::registration(reg, env).failure is None ==> Self::is_registered(
                Self::registration(reg, env).cache,
            ),
    {
        let r0 = reg.class(env, JAVA_CLS_NAME@);
        reg.lemma_class_is_held(env, JAVA_CLS_NAME@);
        let r1 = r0.method(
            env,
            JAVA_CLS_NAME@,
            JAVA_METHOD_NAME_GET_APPLICATION_NAME@,
            JAVA_METHOD_SIG_GET_APPLICATION_NAME@,
        );
        r0.lemma_method_is_held(
            env,
            JAVA_CLS_NAME@,
            JAVA_METHOD_NAME_GET_APPLICATION_NAME@,
            JAVA_METHOD_SIG_GET_APPLICATION_NAME@,
        );
        let r2 = r1.method(
            env,
            JAVA_CLS_NAME@,
            JAVA_METHOD_NAME_GET_LOG_CONFIGURATION@,
            JAVA_METHOD_SIG_GET_LOG_CONFIGURATION@,
        );
        r1.lemma_method_is_held(
            env,
            JAVA_CLS_NAME@,
            JAVA_METHOD_NAME_GET_LOG_CONFIGURATION@,
            JAVA_METHOD_SIG_GET_LOG_CONFIGURATION@,
        );
        let r3 = r2.method(
            env,
            JAVA_CLS_NAME@,
            JAVA_METHOD_NAME_GET_POLICY_STORE_CONFIGURATION@,
            JAVA_METHOD_SIG_GET_POLICY_STORE_CONFIGURATION@,
        );
        r2.lemma_method_is_held(
            env,
            JAVA_CLS_NAME@,
            JAVA_METHOD_NAME_GET_POLICY_STORE_CONFIGURATION@,
            JAVA_METHOD_SIG_GET_POLICY_STORE_CONFIGURATION@,
        );
        let r4 = r3.method(
            env,
            JAVA_CLS_NAME@,
            JAVA_METHOD_NAME_GET_JWT_CONFIGURATION@,
            JAVA_METHOD_SIG_GET_JWT_CONFIGURATION@,
        );
        r3.lemma_method_is_held(
            env,
            JAVA_CLS_NAME@,
            JAVA_METHOD_NAME_GET_JWT_CONFIGURATION@,
            JAVA_METHOD_SIG_GET_JWT_CONFIGURATION@,
        );
        let r5 = r4.method(
            env,
            JAVA_CLS_NAME@,
            JAVA_METHOD_NAME_GET_AUTHORIZATION_CONFIGURATION@,
            JAVA_METHOD_SIG_GET_AUTHORIZATION_CONFIGURATION@,
        );
        r4.lemma_method_is_held(
            env,
            JAVA_CLS_NAME@,
            JAVA_METHOD_NAME_GET_AUTHORIZATION_CONFIGURATION@,
            JAVA_METHOD_SIG_GET_AUTHORIZATION_CONFIGURATION@,
        );
        let r6 = r5.method(
            env,
            JAVA_CLS_NAME@,
            JAVA_METHOD_NAME_GET_ENTITY_BUILDER_CONFIGURATION@,
            JAVA_METHOD_SIG_GET_ENTITY_BUILDER_CONFIGURATION@,
        );
        r5.lemma_method_is_held(
            env,
            JAVA_CLS_NAME@,
            JAVA_METHOD_NAME_GET_ENTITY_BUILDER_CONFIGURATION@,
            JAVA_METHOD_SIG_GET_ENTITY_BUILDER_CONFIGURATION@,
        );
        let r7 = r6.method(
            env,
            JAVA_CLS_NAME@,
            JAVA_METHOD_NAME_GET_LOCK_CONFIGURATION@,
            JAVA_METHOD_SIG_GET_LOCK_CONFIGURATION@,
        );
        r6.lemma_method_is_held(
            env,
            JAVA_CLS_NAME@,
            JAVA_METHOD_NAME_GET_LOCK_CONFIGURATION@,
            JAVA_METHOD_SIG_GET_LOCK_CONFIGURATION@,
        );
    }

    /// What the cache holds for this converter stays when more is registered.
    pub proof fn lemma_registered_stays(earlier: JniCacheView, later: JniCacheView)
        requires
            Self::is_registered(earlier),
            later.extends(earlier),
        ensures
            Self::is_registered(later),
    {
    }

    /// With every handle in the cache, wrapping an object finds them all:
    /// it cannot miss.
    pub proof fn lemma_registered_wraps(cache: JniCacheView, jobj: JObject)
        requires
            Self::is_registered(cache),
        ensures
            Self::wrapped(cache, jobj) is Ok,
            !jobj.is_null() ==> Self::wrapped(cache, jobj)->Ok_0 is Some,
    {
    }

    /// With every handle of the bridge in the cache, the conversion fails
    /// only on what the foreign object holds or on a foreign call that
    /// fails, and never on a miss in the cache.
    pub proof fn lemma_converts_without_miss(self, env: JavaEnvView, cache: JniCacheView)
        requires
            crate::cedarling::is_registered(cache),
        ensures
            !misses(self.converted(env, cache)),
    {
        lemma_reads_never_miss(env, self.jobj, self.get_application_name_method, Seq::empty());
        lemma_reads_never_miss(env, self.jobj, self.get_log_configuration_method, Seq::empty());
        if let Ok(
            value,
        ) = object_result(env, self.jobj, self.get_log_configuration_method, Seq::empty()) {
            JavaLogConfig::lemma_registered_wraps(cache, value);
        }
        lemma_reads_never_miss(
            env,
            self.jobj,
            self.get_policy_store_configuration_method,
            Seq::empty(),
        );
        if let Ok(
            value,
        ) = object_result(env, self.jobj, self.get_policy_store_configuration_method, Seq::empty()) {
            JavaPolicyStoreConfig::lemma_registered_wraps(cache, value);
        }
        lemma_reads_never_miss(env, self.jobj, self.get_jwt_configuration_method, Seq::empty());
        if let Ok(
            value,
        ) = object_result(env, self.jobj, self.get_jwt_configuration_method, Seq::empty()) {
            JavaJwtConfig::lemma_registered_wraps(cache, value);
        }
        lemma_reads_never_miss(env, self.jobj, self.get_authz_configuration_method, Seq::empty());
        if let Ok(
            value,
        ) = object_result(env, self.jobj, self.get_authz_configuration_method, Seq::empty()) {
            JavaAuthorizationConfig::lemma_registered_wraps(cache, value);
        }
        lemma_reads_never_miss(
            env,
            self.jobj,
            self.get_entity_builder_configuration_method,
            Seq::empty(),
        );
        if let Ok(
            value,
        ) = object_result(env, self.jobj, self.get_entity_builder_configuration_method, Seq::empty()) {
            JavaEntityBuilderConfig::lemma_registered_wraps(cache, value);
        }
        lemma_reads_never_miss(env, self.jobj, self.get_lock_configuration_method, Seq::empty());
        if let Ok(
            value,
        ) = object_result(env, self.jobj, self.get_lock_configuration_method, Seq::empty()) {
            JavaLockServiceConfig::lemma_registered_wraps(cache, value);
        }
        if let Ok(Some(part)) = self.spec_get_log_configuration(env, cache) {
            part.lemma_converts_without_miss(env, cache);
        }
        if let Ok(Some(part)) = self.spec_get_policy_store_configuration(env, cache) {
            part.lemma_converts_without_miss(env, cache);
        }
        if let Ok(Some(part)) = self.spec_get_jwt_configuration(env, cache) {
            part.lemma_converts_without_miss(env, cache);
        }
        if let Ok(Some(part)) = self.spec_get_authz_configuration(env, cache) {
            part.lemma_converts_without_miss(env, cache);
        }
        if let Ok(Some(part)) = self.spec_get_entity_builder_configuration(env, cache) {
            part.lemma_converts_without_miss(env, cache);
        }
        if let Ok(Some(part)) = self.spec_get_lock_configuration(env, cache) {
            part.lemma_converts_without_miss(env, cache);
        }
    }
}

} // verus!
