//! The converter of the lock service section.

use crate::config::log_level::JavaLogLevel;
use crate::engine::config::{LockServiceConfig, LockServiceConfigView, LogLevel};
use crate::error::{CedarlingBridgeError, CedarlingBridgeErrorView, is_result, is_result_of, misses};
use crate::jni::duration::JavaDuration;
use crate::jni::env::{JMethodID, JObject, JavaEnv, JavaEnvView};
use crate::jni::jni_cache::{JniCache, JniCacheView, Registration};
use crate::jni::uri::JavaURI;
use crate::jni::util::{bool_result, call_jni_bool_method, call_jni_object_method};
use crate::jni::util::{call_jni_string_method, lemma_reads_never_miss};
use crate::jni::util::{lemma_registered_never_misses, no_args, object_result, require_some};
use crate::jni::util::{required_of, string_result};
use std::time::Duration;
use vstd::prelude::*;

verus! {

pub const JAVA_CLS_NAME: &'static str = "io/jans/cedarling/bridge/config/LockServiceConfiguration";

pub const JAVA_METHOD_NAME_GET_LOG_LEVEL: &'static str = "getLogLevel";

pub const JAVA_METHOD_SIG_GET_LOG_LEVEL: &'static str =
    "()Lio/jans/cedarling/bridge/config/LogLevel;";

pub const JAVA_METHOD_NAME_GET_CONFIG_URI: &'static str = "getConfigUri";

pub const JAVA_METHOD_SIG_GET_CONFIG_URI: &'static str = "()Ljava/net/URI;";

pub const JAVA_METHOD_NAME_GET_DYNAMIC_CONFIG: &'static str = "getDynamicConfig";

pub const JAVA_METHOD_SIG_GET_DYNAMIC_CONFIG: &'static str = "()Z";

pub const JAVA_METHOD_NAME_GET_SSA_JWT: &'static str = "getSsaJwt";

pub const JAVA_METHOD_SIG_GET_SSA_JWT: &'static str = "()Ljava/lang/String;";

pub const JAVA_METHOD_NAME_GET_LOG_INTERVAL: &'static str = "getLogInterval";

pub const JAVA_METHOD_SIG_GET_LOG_INTERVAL: &'static str = "()Ljava/time/Duration;";

pub const JAVA_METHOD_NAME_GET_HEALTH_INTERVAL: &'static str = "getHealthInterval";

pub const JAVA_METHOD_SIG_GET_HEALTH_INTERVAL: &'static str = "()Ljava/time/Duration;";

pub const JAVA_METHOD_NAME_GET_TELEMETRY_INTERVAL: &'static str = "getTelemetryInterval";

pub const JAVA_METHOD_SIG_GET_TELEMETRY_INTERVAL: &'static str = "()Ljava/time/Duration;";

pub const JAVA_METHOD_NAME_GET_LISTEN_SSE: &'static str = "getListenSse";

pub const JAVA_METHOD_SIG_GET_LISTEN_SSE: &'static str = "()Z";

pub const JAVA_METHOD_NAME_GET_ACCEPT_INVALID_CERTS: &'static str = "getAcceptInvalidCerts";

pub const JAVA_METHOD_SIG_GET_ACCEPT_INVALID_CERTS: &'static str = "()Z";

/// A foreign lock service section with the handles that read it.
#[derive(Clone, Copy, Debug)]
pub struct JavaLockServiceConfig {
    pub jobj: JObject,
    pub get_log_level_method: JMethodID,
    pub get_config_uri_method: JMethodID,
    pub get_dynamic_config_method: JMethodID,
    pub get_ssa_jwt_method: JMethodID,
    pub get_log_interval_method: JMethodID,
    pub get_health_interval_method: JMethodID,
    pub get_telemetry_interval_method: JMethodID,
    pub get_listen_sse_method: JMethodID,
    pub get_accept_invalid_certs_method: JMethodID,
}

impl JavaLockServiceConfig {
    /// What this converter registers: its class, then each of its methods.
    pub open spec fn registration(reg: Registration, env: JavaEnvView) -> Registration {
        reg.class(env, JAVA_CLS_NAME@)
            .method(
                env,
                JAVA_CLS_NAME@,
                JAVA_METHOD_NAME_GET_LOG_LEVEL@,
                JAVA_METHOD_SIG_GET_LOG_LEVEL@,
            )
            .method(
                env,
                JAVA_CLS_NAME@,
                JAVA_METHOD_NAME_GET_CONFIG_URI@,
                JAVA_METHOD_SIG_GET_CONFIG_URI@,
            )
            .method(
                env,
                JAVA_CLS_NAME@,
                JAVA_METHOD_NAME_GET_DYNAMIC_CONFIG@,
                JAVA_METHOD_SIG_GET_DYNAMIC_CONFIG@,
            )
            .method(
                env,
                JAVA_CLS_NAME@,
                JAVA_METHOD_NAME_GET_SSA_JWT@,
                JAVA_METHOD_SIG_GET_SSA_JWT@,
            )
            .method(
                env,
                JAVA_CLS_NAME@,
                JAVA_METHOD_NAME_GET_LOG_INTERVAL@,
                JAVA_METHOD_SIG_GET_LOG_INTERVAL@,
            )
            .method(
                env,
                JAVA_CLS_NAME@,
                JAVA_METHOD_NAME_GET_HEALTH_INTERVAL@,
                JAVA_METHOD_SIG_GET_HEALTH_INTERVAL@,
            )
            .method(
                env,
                JAVA_CLS_NAME@,
                JAVA_METHOD_NAME_GET_TELEMETRY_INTERVAL@,
                JAVA_METHOD_SIG_GET_TELEMETRY_INTERVAL@,
            )
            .method(
                env,
                JAVA_CLS_NAME@,
                JAVA_METHOD_NAME_GET_LISTEN_SSE@,
                JAVA_METHOD_SIG_GET_LISTEN_SSE@,
            )
            .method(
                env,
                JAVA_CLS_NAME@,
                JAVA_METHOD_NAME_GET_ACCEPT_INVALID_CERTS@,
                JAVA_METHOD_SIG_GET_ACCEPT_INVALID_CERTS@,
            )
    }

    /// Registers the class and its methods; stops at the first that the
    /// runtime cannot resolve.
    pub fn jni_cache_init(env: &JavaEnv, cache: &mut JniCache) -> (res: Result<
        (),
        CedarlingBridgeError,
    >)
        ensures
            Self::registration(Registration::start(old(cache)@), env@).is_outcome(
                res,
                final(cache)@,
            ),
    {
        cache.add_class(env, JAVA_CLS_NAME)?;
        cache.add_instance_method(
            env,
            JAVA_CLS_NAME,
            JAVA_METHOD_NAME_GET_LOG_LEVEL,
            JAVA_METHOD_SIG_GET_LOG_LEVEL,
        )?;
        cache.add_instance_method(
            env,
            JAVA_CLS_NAME,
            JAVA_METHOD_NAME_GET_CONFIG_URI,
            JAVA_METHOD_SIG_GET_CONFIG_URI,
        )?;
        cache.add_instance_method(
            env,
            JAVA_CLS_NAME,
            JAVA_METHOD_NAME_GET_DYNAMIC_CONFIG,
            JAVA_METHOD_SIG_GET_DYNAMIC_CONFIG,
        )?;
        cache.add_instance_method(
            env,
            JAVA_CLS_NAME,
            JAVA_METHOD_NAME_GET_SSA_JWT,
            JAVA_METHOD_SIG_GET_SSA_JWT,
        )?;
        cache.add_instance_method(
            env,
            JAVA_CLS_NAME,
            JAVA_METHOD_NAME_GET_LOG_INTERVAL,
            JAVA_METHOD_SIG_GET_LOG_INTERVAL,
        )?;
        cache.add_instance_method(
            env,
            JAVA_CLS_NAME,
            JAVA_METHOD_NAME_GET_HEALTH_INTERVAL,
            JAVA_METHOD_SIG_GET_HEALTH_INTERVAL,
        )?;
        cache.add_instance_method(
            env,
            JAVA_CLS_NAME,
            JAVA_METHOD_NAME_GET_TELEMETRY_INTERVAL,
            JAVA_METHOD_SIG_GET_TELEMETRY_INTERVAL,
        )?;
        cache.add_instance_method(
            env,
            JAVA_CLS_NAME,
            JAVA_METHOD_NAME_GET_LISTEN_SSE,
            JAVA_METHOD_SIG_GET_LISTEN_SSE,
        )?;
        cache.add_instance_method(
            env,
            JAVA_CLS_NAME,
            JAVA_METHOD_NAME_GET_ACCEPT_INVALID_CERTS,
            JAVA_METHOD_SIG_GET_ACCEPT_INVALID_CERTS,
        )
    }

    /// What wrapping a foreign object gives: nothing for the null reference,
    /// else the object with its handles from the cache, or the report of the
    /// first handle that the cache does not hold.
    pub open spec fn wrapped(cache: JniCacheView, jobj: JObject) -> Result<
        Option<JavaLockServiceConfig>,
        CedarlingBridgeErrorView,
    > {
        if jobj.is_null() {
            Ok(None)
        } else {
            match cache.method(
                JAVA_CLS_NAME@,
                JAVA_METHOD_NAME_GET_LOG_LEVEL@,
                JAVA_METHOD_SIG_GET_LOG_LEVEL@,
            ) {
                Err(e) => Err(e),
                Ok(get_log_level_method) => match cache.method(
                    JAVA_CLS_NAME@,
                    JAVA_METHOD_NAME_GET_CONFIG_URI@,
                    JAVA_METHOD_SIG_GET_CONFIG_URI@,
                ) {
                    Err(e) => Err(e),
                    Ok(get_config_uri_method) => match cache.method(
                        JAVA_CLS_NAME@,
                        JAVA_METHOD_NAME_GET_DYNAMIC_CONFIG@,
                        JAVA_METHOD_SIG_GET_DYNAMIC_CONFIG@,
                    ) {
                        Err(e) => Err(e),
                        Ok(get_dynamic_config_method) => match cache.method(
                            JAVA_CLS_NAME@,
                            JAVA_METHOD_NAME_GET_SSA_JWT@,
                            JAVA_METHOD_SIG_GET_SSA_JWT@,
                        ) {
                            Err(e) => Err(e),
                            Ok(get_ssa_jwt_method) => match cache.method(
                                JAVA_CLS_NAME@,
                                JAVA_METHOD_NAME_GET_LOG_INTERVAL@,
                                JAVA_METHOD_SIG_GET_LOG_INTERVAL@,
                            ) {
                                Err(e) => Err(e),
                                Ok(get_log_interval_method) => match cache.method(
                                    JAVA_CLS_NAME@,
                                    JAVA_METHOD_NAME_GET_HEALTH_INTERVAL@,
                                    JAVA_METHOD_SIG_GET_HEALTH_INTERVAL@,
                                ) {
                                    Err(e) => Err(e),
                                    Ok(get_health_interval_method) => match cache.method(
                                        JAVA_CLS_NAME@,
                                        JAVA_METHOD_NAME_GET_TELEMETRY_INTERVAL@,
                                        JAVA_METHOD_SIG_GET_TELEMETRY_INTERVAL@,
                                    ) {
                                        Err(e) => Err(e),
                                        Ok(get_telemetry_interval_method) => match cache.method(
                                            JAVA_CLS_NAME@,
                                            JAVA_METHOD_NAME_GET_LISTEN_SSE@,
                                            JAVA_METHOD_SIG_GET_LISTEN_SSE@,
                                        ) {
                                            Err(e) => Err(e),
                                            Ok(get_listen_sse_method) => match cache.method(
                                                JAVA_CLS_NAME@,
                                                JAVA_METHOD_NAME_GET_ACCEPT_INVALID_CERTS@,
                                                JAVA_METHOD_SIG_GET_ACCEPT_INVALID_CERTS@,
                                            ) {
                                                Err(e) => Err(e),
                                                Ok(get_accept_invalid_certs_method) => Ok(
                                                    Some(
                                                        JavaLockServiceConfig {
                                                            jobj,
                                                            get_log_level_method,
                                                            get_config_uri_method,
                                                            get_dynamic_config_method,
                                                            get_ssa_jwt_method,
                                                            get_log_interval_method,
                                                            get_health_interval_method,
                                                            get_telemetry_interval_method,
                                                            get_listen_sse_method,
                                                            get_accept_invalid_certs_method,
                                                        },
                                                    ),
                                                ),
                                            },
                                        },
                                    },
                                },
                            },
                        },
                    },
                },
            }
        }
    }

    /// Wraps a foreign object.
    pub fn new(cache: &JniCache, jobj: JObject) -> (res: Result<
        Option<JavaLockServiceConfig>,
        CedarlingBridgeError,
    >)
        ensures
            is_result(res, Self::wrapped(cache@, jobj)),
    {
        if jobj.is_null() {
            return Ok(None);
        }
        let get_log_level_key = (
            JAVA_CLS_NAME,
            JAVA_METHOD_NAME_GET_LOG_LEVEL,
            JAVA_METHOD_SIG_GET_LOG_LEVEL,
        );
        let get_config_uri_key = (
            JAVA_CLS_NAME,
            JAVA_METHOD_NAME_GET_CONFIG_URI,
            JAVA_METHOD_SIG_GET_CONFIG_URI,
        );
        let get_dynamic_config_key = (
            JAVA_CLS_NAME,
            JAVA_METHOD_NAME_GET_DYNAMIC_CONFIG,
            JAVA_METHOD_SIG_GET_DYNAMIC_CONFIG,
        );
        let get_ssa_jwt_key = (
            JAVA_CLS_NAME,
            JAVA_METHOD_NAME_GET_SSA_JWT,
            JAVA_METHOD_SIG_GET_SSA_JWT,
        );
        let get_log_interval_key = (
            JAVA_CLS_NAME,
            JAVA_METHOD_NAME_GET_LOG_INTERVAL,
            JAVA_METHOD_SIG_GET_LOG_INTERVAL,
        );
        let get_health_interval_key = (
            JAVA_CLS_NAME,
            JAVA_METHOD_NAME_GET_HEALTH_INTERVAL,
            JAVA_METHOD_SIG_GET_HEALTH_INTERVAL,
        );
        let get_telemetry_interval_key = (
            JAVA_CLS_NAME,
            JAVA_METHOD_NAME_GET_TELEMETRY_INTERVAL,
            JAVA_METHOD_SIG_GET_TELEMETRY_INTERVAL,
        );
        let get_listen_sse_key = (
            JAVA_CLS_NAME,
            JAVA_METHOD_NAME_GET_LISTEN_SSE,
            JAVA_METHOD_SIG_GET_LISTEN_SSE,
        );
        let get_accept_invalid_certs_key = (
            JAVA_CLS_NAME,
            JAVA_METHOD_NAME_GET_ACCEPT_INVALID_CERTS,
            JAVA_METHOD_SIG_GET_ACCEPT_INVALID_CERTS,
        );
        Ok(
            Some(
                JavaLockServiceConfig {
                    jobj: jobj,
                    get_log_level_method: cache.get_instance_method(&get_log_level_key)?,
                    get_config_uri_method: cache.get_instance_method(&get_config_uri_key)?,
                    get_dynamic_config_method: cache.get_instance_method(&get_dynamic_config_key)?,
                    get_ssa_jwt_method: cache.get_instance_method(&get_ssa_jwt_key)?,
                    get_log_interval_method: cache.get_instance_method(&get_log_interval_key)?,
                    get_health_interval_method: cache.get_instance_method(
                        &get_health_interval_key,
                    )?,
                    get_telemetry_interval_method: cache.get_instance_method(
                        &get_telemetry_interval_key,
                    )?,
                    get_listen_sse_method: cache.get_instance_method(&get_listen_sse_key)?,
                    get_accept_invalid_certs_method: cache.get_instance_method(
                        &get_accept_invalid_certs_key,
                    )?,
                },
            ),
        )
    }

    /// What asking the object for `getLogLevel` gives: the name of the
    /// enum value that comes back.
    pub open spec fn spec_get_log_level(self, env: JavaEnvView, cache: JniCacheView) -> Result<
        Option<Seq<char>>,
        CedarlingBridgeErrorView,
    > {
        match object_result(env, self.jobj, self.get_log_level_method, Seq::empty()) {
            Err(e) => Err(e),
            Ok(obj) => JavaLogLevel::name_of_object(env, cache, obj),
        }
    }

    /// Asks the object for `getLogLevel`.
    pub fn get_log_level(&self, env: &JavaEnv, cache: &JniCache) -> (res: Result<
        Option<JavaLogLevel>,
        CedarlingBridgeError,
    >)
        ensures
            is_result_of(res, self.spec_get_log_level(env@, cache@)),
    {
        let obj = call_jni_object_method(
            env,
            &self.jobj,
            &self.get_log_level_method,
            &no_args(),
        )?;
        JavaLogLevel::from_jni_object(env, cache, obj)
    }

    /// What asking the object for `getConfigUri` gives: the object that
    /// comes back, wrapped.
    pub open spec fn spec_get_config_uri(self, env: JavaEnvView) -> Result<
        Option<JavaURI>,
        CedarlingBridgeErrorView,
    > {
        match object_result(env, self.jobj, self.get_config_uri_method, Seq::empty()) {
            Err(e) => Err(e),
            Ok(obj) => JavaURI::wrapped(obj),
        }
    }

    /// Asks the object for `getConfigUri`.
    pub fn get_config_uri(&self, env: &JavaEnv) -> (res: Result<
        Option<JavaURI>,
        CedarlingBridgeError,
    >)
        ensures
            is_result(res, self.spec_get_config_uri(env@)),
    {
        let obj = call_jni_object_method(
            env,
            &self.jobj,
            &self.get_config_uri_method,
            &no_args(),
        )?;
        JavaURI::new(obj)
    }

    /// What asking the object for `getDynamicConfig` gives.
    pub open spec fn spec_get_dynamic_config(self, env: JavaEnvView) -> Result<
        bool,
        CedarlingBridgeErrorView,
    > {
        bool_result(env, self.jobj, self.get_dynamic_config_method, Seq::empty())
    }

    /// Asks the object for `getDynamicConfig`.
    pub fn get_dynamic_config(&self, env: &JavaEnv) -> (res: Result<
        bool,
        CedarlingBridgeError,
    >)
        ensures
            is_result(res, self.spec_get_dynamic_config(env@)),
    {
        call_jni_bool_method(env, &self.jobj, &self.get_dynamic_config_method, &no_args())
    }

    /// What asking the object for `getSsaJwt` gives.
    pub open spec fn spec_get_ssa_jwt(self, env: JavaEnvView) -> Result<
        Option<Seq<char>>,
        CedarlingBridgeErrorView,
    > {
        string_result(env, self.jobj, self.get_ssa_jwt_method, Seq::empty())
    }

    /// Asks the object for `getSsaJwt`.
    pub fn get_ssa_jwt(&self, env: &JavaEnv) -> (res: Result<
        Option<String>,
        CedarlingBridgeError,
    >)
        ensures
            is_result_of(res, self.spec_get_ssa_jwt(env@)),
    {
        call_jni_string_method(env, &self.jobj, &self.get_ssa_jwt_method, &no_args())
    }

    /// What asking the object for `getLogInterval` gives: the object that
    /// comes back, wrapped.
    pub open spec fn spec_get_log_interval(self, env: JavaEnvView, cache: JniCacheView) -> Result<
        Option<JavaDuration>,
        CedarlingBridgeErrorView,
    > {
        match object_result(env, self.jobj, self.get_log_interval_method, Seq::empty()) {
            Err(e) => Err(e),
            Ok(obj) => JavaDuration::wrapped(cache, obj),
        }
    }

    /// Asks the object for `getLogInterval`.
    pub fn get_log_interval(&self, env: &JavaEnv, cache: &JniCache) -> (res: Result<
        Option<JavaDuration>,
        CedarlingBridgeError,
    >)
        ensures
            is_result(res, self.spec_get_log_interval(env@, cache@)),
    {
        let obj = call_jni_object_method(
            env,
            &self.jobj,
            &self.get_log_interval_method,
            &no_args(),
        )?;
        JavaDuration::new(cache, obj)
    }

    /// What asking the object for `getHealthInterval` gives: the object that
    /// comes back, wrapped.
    pub open spec fn spec_get_health_interval(
        self,
        env: JavaEnvView,
        cache: JniCacheView,
    ) -> Result<
        Option<JavaDuration>,
        CedarlingBridgeErrorView,
    > {
        match object_result(env, self.jobj, self.get_health_interval_method, Seq::empty()) {
            Err(e) => Err(e),
            Ok(obj) => JavaDuration::wrapped(cache, obj),
        }
    }

    /// Asks the object for `getHealthInterval`.
    pub fn get_health_interval(&self, env: &JavaEnv, cache: &JniCache) -> (res: Result<
        Option<JavaDuration>,
        CedarlingBridgeError,
    >)
        ensures
            is_result(res, self.spec_get_health_interval(env@, cache@)),
    {
        let obj = call_jni_object_method(
            env,
            &self.jobj,
            &self.get_health_interval_method,
            &no_args(),
        )?;
        JavaDuration::new(cache, obj)
    }

    /// What asking the object for `getTelemetryInterval` gives: the object that
    /// comes back, wrapped.
    pub open spec fn spec_get_telemetry_interval(
        self,
        env: JavaEnvView,
        cache: JniCacheView,
    ) -> Result<
        Option<JavaDuration>,
        CedarlingBridgeErrorView,
    > {
        match object_result(env, self.jobj, self.get_telemetry_interval_method, Seq::empty()) {
            Err(e) => Err(e),
            Ok(obj) => JavaDuration::wrapped(cache, obj),
        }
    }

    /// Asks the object for `getTelemetryInterval`.
    pub fn get_telemetry_interval(&self, env: &JavaEnv, cache: &JniCache) -> (res: Result<
        Option<JavaDuration>,
        CedarlingBridgeError,
    >)
        ensures
            is_result(res, self.spec_get_telemetry_interval(env@, cache@)),
    {
        let obj = call_jni_object_method(
            env,
            &self.jobj,
            &self.get_telemetry_interval_method,
            &no_args(),
        )?;
        JavaDuration::new(cache, obj)
    }

    /// What asking the object for `getListenSse` gives.
    pub open spec fn spec_get_listen_sse(self, env: JavaEnvView) -> Result<
        bool,
        CedarlingBridgeErrorView,
    > {
        bool_result(env, self.jobj, self.get_listen_sse_method, Seq::empty())
    }

    /// Asks the object for `getListenSse`.
    pub fn get_listen_sse(&self, env: &JavaEnv) -> (res: Result<
        bool,
        CedarlingBridgeError,
    >)
        ensures
            is_result(res, self.spec_get_listen_sse(env@)),
    {
        call_jni_bool_method(env, &self.jobj, &self.get_listen_sse_method, &no_args())
    }

    /// What asking the object for `getAcceptInvalidCerts` gives.
    pub open spec fn spec_get_accept_invalid_certs(self, env: JavaEnvView) -> Result<
        bool,
        CedarlingBridgeErrorView,
    > {
        bool_result(env, self.jobj, self.get_accept_invalid_certs_method, Seq::empty())
    }

    /// Asks the object for `getAcceptInvalidCerts`.
    pub fn get_accept_invalid_certs(&self, env: &JavaEnv) -> (res: Result<
        bool,
        CedarlingBridgeError,
    >)
        ensures
            is_result(res, self.spec_get_accept_invalid_certs(env@)),
    {
        call_jni_bool_method(env, &self.jobj, &self.get_accept_invalid_certs_method, &no_args())
    }


    /// The native span of an optional foreign duration: nothing where the
    /// accessor gave the null reference.
    pub open spec fn interval(
        env: JavaEnvView,
        got: Result<Option<JavaDuration>, CedarlingBridgeErrorView>,
    ) -> Result<Option<Duration>, CedarlingBridgeErrorView> {
        match got {
            Err(e) => Err(e),
            Ok(None) => Ok(None),
            Ok(Some(duration)) => match duration.spec_duration(env) {
                Err(e) => Err(e),
                Ok(span) => Ok(Some(span)),
            },
        }
    }

    /// Converts an optional foreign duration.
    pub fn to_interval(env: &JavaEnv, got: Option<JavaDuration>) -> (res: Result<
        Option<Duration>,
        CedarlingBridgeError,
    >)
        ensures
            is_result(res, Self::interval(env@, Ok(got))),
    {
        match got {
            Some(duration) => Ok(Some(duration.to_duration(env)?)),
            None => Ok(None),
        }
    }

    /// The native lock service section that the object stands for. The log
    /// level and the configuration URI are required; the token and the three
    /// intervals may be absent. The fields are read in the order given here,
    /// and the first failure is the result.
    pub open spec fn converted(self, env: JavaEnvView, cache: JniCacheView) -> Result<
        LockServiceConfigView,
        CedarlingBridgeErrorView,
    > {
        match required_of(self.spec_get_log_level(env, cache), JAVA_CLS_NAME@, "logLevel"@) {
            Err(e) => Err(e),
            Ok(level_name) => match JavaLogLevel::decoded(level_name) {
                Err(e) => Err(e),
                Ok(log_level) => match required_of(
                    self.spec_get_config_uri(env),
                    JAVA_CLS_NAME@,
                    "configUri"@,
                ) {
                    Err(e) => Err(e),
                    Ok(uri) => match uri.spec_url(env, cache) {
                        Err(e) => Err(e),
                        Ok(config_uri) => match self.spec_get_dynamic_config(env) {
                            Err(e) => Err(e),
                            Ok(dynamic_config) => match self.spec_get_ssa_jwt(env) {
                                Err(e) => Err(e),
                                Ok(ssa_jwt) => self.converted_rest(
                                    env,
                                    cache,
                                    log_level,
                                    config_uri,
                                    dynamic_config,
                                    ssa_jwt,
                                ),
                            },
                        },
                    },
                },
            },
        }
    }

    /// The second half of [`Self::converted`]: the intervals and the two
    /// flags that follow them.
    pub open spec fn converted_rest(
        self,
        env: JavaEnvView,
        cache: JniCacheView,
        log_level: LogLevel,
        config_uri: url::Url,
        dynamic_config: bool,
        ssa_jwt: Option<Seq<char>>,
    ) -> Result<LockServiceConfigView, CedarlingBridgeErrorView> {
        match Self::interval(env, self.spec_get_log_interval(env, cache)) {
            Err(e) => Err(e),
            Ok(log_interval) => match Self::interval(
                env,
                self.spec_get_health_interval(env, cache),
            ) {
                Err(e) => Err(e),
                Ok(health_interval) => match Self::interval(
                    env,
                    self.spec_get_telemetry_interval(env, cache),
                ) {
                    Err(e) => Err(e),
                    Ok(telemetry_interval) => match self.spec_get_listen_sse(env) {
                        Err(e) => Err(e),
                        Ok(listen_sse) => match self.spec_get_accept_invalid_certs(env) {
                            Err(e) => Err(e),
                            Ok(accept_invalid_certs) => Ok(
                                LockServiceConfigView {
                                    log_level,
                                    config_uri,
                                    dynamic_config,
                                    ssa_jwt,
                                    log_interval,
                                    health_interval,
                                    telemetry_interval,
                                    listen_sse,
                                    accept_invalid_certs,
                                },
                            ),
                        },
                    },
                },
            },
        }
    }

    /// An absent token does not stand in the way of the rest: the fields
    /// that follow it convert as they would beside a token, and the section
    /// differs only in the token.
    pub proof fn lemma_absent_token_keeps_rest(
        self,
        env: JavaEnvView,
        cache: JniCacheView,
        log_level: LogLevel,
        config_uri: url::Url,
        dynamic_config: bool,
        token: Seq<char>,
    )
        ensures
            ({
                let without = self.converted_rest(
                    env,
                    cache,
                    log_level,
                    config_uri,
                    dynamic_config,
                    None,
                );
                let with = self.converted_rest(
                    env,
                    cache,
                    log_level,
                    config_uri,
                    dynamic_config,
                    Some(token),
                );
                match with {
                    Ok(section) => without == Ok::<LockServiceConfigView, CedarlingBridgeErrorView>(
                        LockServiceConfigView { ssa_jwt: None, ..section },
                    ),
                    Err(e) => without == Err::<LockServiceConfigView, CedarlingBridgeErrorView>(e),
                }
            }),
    {
    }

    /// The intervals are optional one by one: an interval whose accessor
    /// gives the null reference is absent, and no failure.
    pub proof fn lemma_absent_interval(env: JavaEnvView)
        ensures
            Self::interval(env, Ok(None)) == Ok::<Option<Duration>, CedarlingBridgeErrorView>(None),
    {
    }

    /// Converts the lock service section.
    pub fn as_cedarling_lock_service_config(&self, env: &JavaEnv, cache: &JniCache) -> (res: Result<
        LockServiceConfig,
        CedarlingBridgeError,
    >)
        ensures
            is_result_of(res, self.converted(env@, cache@)),
    {
        let log_level: LogLevel = {
            let java_log_level = require_some(
                self.get_log_level(env, cache)?,
                JAVA_CLS_NAME,
                "logLevel",
            )?;
            java_log_level.as_enum()?
        };
        let config_uri: url::Url = {
            let java_config_uri = require_some(
                self.get_config_uri(env)?,
                JAVA_CLS_NAME,
                "configUri",
            )?;
            java_config_uri.as_url(env, cache)?
        };
        let dynamic_config: bool = self.get_dynamic_config(env)?;
        let ssa_jwt: Option<String> = self.get_ssa_jwt(env)?;
        let log_interval = Self::to_interval(env, self.get_log_interval(env, cache)?)?;
        let health_interval = Self::to_interval(env, self.get_health_interval(env, cache)?)?;
        let telemetry_interval = Self::to_interval(env, self.get_telemetry_interval(env, cache)?)?;
        let listen_sse: bool = self.get_listen_sse(env)?;
        let accept_invalid_certs: bool = self.get_accept_invalid_certs(env)?;
        Ok(
            LockServiceConfig {
                log_level: log_level,
                config_uri: config_uri,
                dynamic_config: dynamic_config,
                ssa_jwt: ssa_jwt,
                log_interval: log_interval,
                health_interval: health_interval,
                telemetry_interval: telemetry_interval,
                listen_sse: listen_sse,
                accept_invalid_certs: accept_invalid_certs,
            },
        )
    }

    /// Whether the cache holds the class of this converter and every one of
    /// its handles.
    pub open spec fn is_registered(cache: JniCacheView) -> bool {
        &&& cache.classes.contains_key(JAVA_CLS_NAME@)
        &&& cache.methods.contains_key(
            (JAVA_CLS_NAME@, JAVA_METHOD_NAME_GET_LOG_LEVEL@, JAVA_METHOD_SIG_GET_LOG_LEVEL@),
        )
        &&& cache.methods.contains_key(
            (JAVA_CLS_NAME@, JAVA_METHOD_NAME_GET_CONFIG_URI@, JAVA_METHOD_SIG_GET_CONFIG_URI@),
        )
        &&& cache.methods.contains_key(
            (JAVA_CLS_NAME@, JAVA_METHOD_NAME_GET_DYNAMIC_CONFIG@, JAVA_METHOD_SIG_GET_DYNAMIC_CONFIG@),
        )
        &&& cache.methods.contains_key(
            (JAVA_CLS_NAME@, JAVA_METHOD_NAME_GET_SSA_JWT@, JAVA_METHOD_SIG_GET_SSA_JWT@),
        )
        &&& cache.methods.contains_key(
            (JAVA_CLS_NAME@, JAVA_METHOD_NAME_GET_LOG_INTERVAL@, JAVA_METHOD_SIG_GET_LOG_INTERVAL@),
        )
        &&& cache.methods.contains_key(
            (JAVA_CLS_NAME@, JAVA_METHOD_NAME_GET_HEALTH_INTERVAL@, JAVA_METHOD_SIG_GET_HEALTH_INTERVAL@),
        )
        &&& cache.methods.contains_key(
            (JAVA_CLS_NAME@, JAVA_METHOD_NAME_GET_TELEMETRY_INTERVAL@, JAVA_METHOD_SIG_GET_TELEMETRY_INTERVAL@),
        )
        &&& cache.methods.contains_key(
            (JAVA_CLS_NAME@, JAVA_METHOD_NAME_GET_LISTEN_SSE@, JAVA_METHOD_SIG_GET_LISTEN_SSE@),
        )
        &&& cache.methods.contains_key(
            (JAVA_CLS_NAME@, JAVA_METHOD_NAME_GET_ACCEPT_INVALID_CERTS@, JAVA_METHOD_SIG_GET_ACCEPT_INVALID_CERTS@),
        )
    }

    /// A run that has gone through the registration of this converter
    /// without a failure holds every one of its handles, and has dropped
    /// nothing that it held before.
    pub proof fn lemma_registration_holds(reg: Registration, env: JavaEnvView)
        ensures
            Self::registration(reg, env).continues(reg),
            Self::registration(reg, env).failure is None ==> Self::is_registered(
                Self::registration(reg, env).cache,
            ),
    {
        let r0 = reg.class(env, JAVA_CLS_NAME@);
        reg.lemma_class_is_held(env, JAVA_CLS_NAME@);
        let r1 = r0.method(
            env,
            JAVA_CLS_NAME@,
            JAVA_METHOD_NAME_GET_LOG_LEVEL@,
            JAVA_METHOD_SIG_GET_LOG_LEVEL@,
        );
        r0.lemma_method_is_held(
            env,
            JAVA_CLS_NAME@,
            JAVA_METHOD_NAME_GET_LOG_LEVEL@,
            JAVA_METHOD_SIG_GET_LOG_LEVEL@,
        );
        let r2 = r1.method(
            env,
            JAVA_CLS_NAME@,
            JAVA_METHOD_NAME_GET_CONFIG_URI@,
            JAVA_METHOD_SIG_GET_CONFIG_URI@,
        );
        r1.lemma_method_is_held(
            env,
            JAVA_CLS_NAME@,
            JAVA_METHOD_NAME_GET_CONFIG_URI@,
            JAVA_METHOD_SIG_GET_CONFIG_URI@,
        );
        let r3 = r2.method(
            env,
            JAVA_CLS_NAME@,
            JAVA_METHOD_NAME_GET_DYNAMIC_CONFIG@,
            JAVA_METHOD_SIG_GET_DYNAMIC_CONFIG@,
        );
        r2.lemma_method_is_held(
            env,
            JAVA_CLS_NAME@,
            JAVA_METHOD_NAME_GET_DYNAMIC_CONFIG@,
            JAVA_METHOD_SIG_GET_DYNAMIC_CONFIG@,
        );
        let r4 = r3.method(
            env,
            JAVA_CLS_NAME@,
            JAVA_METHOD_NAME_GET_SSA_JWT@,
            JAVA_METHOD_SIG_GET_SSA_JWT@,
        );
        r3.lemma_method_is_held(
            env,
            JAVA_CLS_NAME@,
            JAVA_METHOD_NAME_GET_SSA_JWT@,
            JAVA_METHOD_SIG_GET_SSA_JWT@,
        );
        let r5 = r4.method(
            env,
            JAVA_CLS_NAME@,
            JAVA_METHOD_NAME_GET_LOG_INTERVAL@,
            JAVA_METHOD_SIG_GET_LOG_INTERVAL@,
        );
        r4.lemma_method_is_held(
            env,
            JAVA_CLS_NAME@,
            JAVA_METHOD_NAME_GET_LOG_INTERVAL@,
            JAVA_METHOD_SIG_GET_LOG_INTERVAL@,
        );
        let r6 = r5.method(
            env,
            JAVA_CLS_NAME@,
            JAVA_METHOD_NAME_GET_HEALTH_INTERVAL@,
            JAVA_METHOD_SIG_GET_HEALTH_INTERVAL@,
        );
        r5.lemma_method_is_held(
            env,
            JAVA_CLS_NAME@,
            JAVA_METHOD_NAME_GET_HEALTH_INTERVAL@,
            JAVA_METHOD_SIG_GET_HEALTH_INTERVAL@,
        );
        let r7 = r6.method(
            env,
            JAVA_CLS_NAME@,
            JAVA_METHOD_NAME_GET_TELEMETRY_INTERVAL@,
            JAVA_METHOD_SIG_GET_TELEMETRY_INTERVAL@,
        );
        r6.lemma_method_is_held(
            env,
            JAVA_CLS_NAME@,
            JAVA_METHOD_NAME_GET_TELEMETRY_INTERVAL@,
            JAVA_METHOD_SIG_GET_TELEMETRY_INTERVAL@,
        );
        let r8 = r7.method(
            env,
            JAVA_CLS_NAME@,
            JAVA_METHOD_NAME_GET_LISTEN_SSE@,
            JAVA_METHOD_SIG_GET_LISTEN_SSE@,
        );
        r7.lemma_method_is_held(
            env,
            JAVA_CLS_NAME@,
            JAVA_METHOD_NAME_GET_LISTEN_SSE@,
            JAVA_METHOD_SIG_GET_LISTEN_SSE@,
        );
        let r9 = r8.method(
            env,
            JAVA_CLS_NAME@,
            JAVA_METHOD_NAME_GET_ACCEPT_INVALID_CERTS@,
            JAVA_METHOD_SIG_GET_ACCEPT_INVALID_CERTS@,
        );
        r8.lemma_method_is_held(
            env,
            JAVA_CLS_NAME@,
            JAVA_METHOD_NAME_GET_ACCEPT_INVALID_CERTS@,
            JAVA_METHOD_SIG_GET_ACCEPT_INVALID_CERTS@,
        );
    }

    /// What the cache holds for this converter stays when more is registered.
    pub proof fn lemma_registered_stays(earlier: JniCacheView, later: JniCacheView)
        requires
            Self::is_registered(earlier),
            later.extends(earlier),
        ensures
            Self::is_registered(later),
    {
    }

    /// With every handle in the cache, wrapping an object finds them all:
    /// it cannot miss.
    pub proof fn lemma_registered_wraps(cache: JniCacheView, jobj: JObject)
        requires
            Self::is_registered(cache),
        ensures
            Self::wrapped(cache, jobj) is Ok,
            !jobj.is_null() ==> Self::wrapped(cache, jobj)->Ok_0 is Some,
    {
    }

    /// With every handle of the bridge in the cache, the conversion fails
    /// only on what the foreign object holds or on a foreign call that
    /// fails, and never on a miss in the cache.
    pub proof fn lemma_converts_without_miss(self, env: JavaEnvView, cache: JniCacheView)
        requires
            crate::cedarling::is_registered(cache),
        ensures
            !misses(self.converted(env, cache)),
    {
        lemma_reads_never_miss(env, self.jobj, self.get_log_level_method, Seq::empty());
        if let Ok(value) = object_result(env, self.jobj, self.get_log_level_method, Seq::empty()) {
            lemma_registered_never_misses(
                env,
                cache,
                value,
                self.get_log_level_method,
                Seq::empty(),
            );
        }
        lemma_reads_never_miss(env, self.jobj, self.get_config_uri_method, Seq::empty());
        lemma_reads_never_miss(env, self.jobj, self.get_dynamic_config_method, Seq::empty());
        lemma_reads_never_miss(env, self.jobj, self.get_ssa_jwt_method, Seq::empty());
        lemma_reads_never_miss(env, self.jobj, self.get_log_interval_method, Seq::empty());
        if let Ok(
            value,
        ) = object_result(env, self.jobj, self.get_log_interval_method, Seq::empty()) {
            JavaDuration::lemma_registered_wraps(cache, value);
        }
        lemma_reads_never_miss(env, self.jobj, self.get_health_interval_method, Seq::empty());
        if let Ok(
            value,
        ) = object_result(env, self.jobj, self.get_health_interval_method, Seq::empty()) {
            JavaDuration::lemma_registered_wraps(cache, value);
        }
        lemma_reads_never_miss(env, self.jobj, self.get_telemetry_interval_method, Seq::empty());
        if let Ok(
            value,
        ) = object_result(env, self.jobj, self.get_telemetry_interval_method, Seq::empty()) {
            JavaDuration::lemma_registered_wraps(cache, value);
        }
        lemma_reads_never_miss(env, self.jobj, self.get_listen_sse_method, Seq::empty());
        lemma_reads_never_miss(env, self.jobj, self.get_accept_invalid_certs_method, Seq::empty());
        if let Ok(Some(part)) = self.spec_get_config_uri(env) {
            part.lemma_converts_without_miss(env, cache);
        }
        if let Ok(Some(part)) = self.spec_get_log_interval(env, cache) {
            part.lemma_converts_without_miss(env);
        }
        if let Ok(Some(part)) = self.spec_get_health_interval(env, cache) {
            part.lemma_converts_without_miss(env);
        }
        if let Ok(Some(part)) = self.spec_get_telemetry_interval(env, cache) {
            part.lemma_converts_without_miss(env);
        }
    }
}

} // verus!
