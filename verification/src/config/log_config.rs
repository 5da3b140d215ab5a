//! The converter of the logging section.

use crate::config::log_level::JavaLogLevel;
use crate::config::log_type::JavaLogType;
use crate::config::memory_log_config::JavaMemoryLogConfig;
use crate::engine::config::{LogConfig, MemoryLogConfig};
use crate::error::{CedarlingBridgeError, CedarlingBridgeErrorView, is_result, is_result_of, misses};
use crate::jni::env::{JMethodID, JObject, JavaEnv, JavaEnvView};
use crate::jni::jni_cache::{JniCache, JniCacheView, Registration};
use crate::jni::util::{call_jni_object_method, lemma_reads_never_miss};
use crate::jni::util::{lemma_registered_never_misses, no_args, object_result, require_some};
use crate::jni::util::required_of;
use vstd::prelude::*;

verus! {

pub const JAVA_CLS_NAME: &'static str = "io/jans/cedarling/bridge/config/LogConfiguration";

pub const JAVA_METHOD_NAME_GET_LOG_TYPE: &'static str = "getLogType";

pub const JAVA_METHOD_SIG_GET_LOG_TYPE: &'static str =
    "()Lio/jans/cedarling/bridge/config/LogType;";

pub const JAVA_METHOD_NAME_GET_LOG_LEVEL: &'static str = "getLogLevel";

pub const JAVA_METHOD_SIG_GET_LOG_LEVEL: &'static str =
    "()Lio/jans/cedarling/bridge/config/LogLevel;";

pub const JAVA_METHOD_NAME_GET_MEMORY_LOG_CONFIG: &'static str = "getMemoryLogConfiguration";

pub const JAVA_METHOD_SIG_GET_MEMORY_LOG_CONFIG: &'static str =
    "()Lio/jans/cedarling/bridge/config/MemoryLogConfiguration;";

/// A foreign logging section with the handles that read it.
#[derive(Clone, Copy, Debug)]
pub struct JavaLogConfig {
    pub jobj: JObject,
    pub get_log_type_method: JMethodID,
    pub get_log_level_method: JMethodID,
    pub get_memory_log_config_method: JMethodID,
}

impl JavaLogConfig {
    /// What this converter registers: its class, then each of its methods.
    pub open spec fn registration(reg: Registration, env: JavaEnvView) -> Registration {
        reg.class(env, JAVA_CLS_NAME@)
            .method(
                env,
                JAVA_CLS_NAME@,
                JAVA_METHOD_NAME_GET_LOG_TYPE@,
                JAVA_METHOD_SIG_GET_LOG_TYPE@,
            )
            .method(
                env,
                JAVA_CLS_NAME@,
                JAVA_METHOD_NAME_GET_LOG_LEVEL@,
                JAVA_METHOD_SIG_GET_LOG_LEVEL@,
            )
            .method(
                env,
                JAVA_CLS_NAME@,
                JAVA_METHOD_NAME_GET_MEMORY_LOG_CONFIG@,
                JAVA_METHOD_SIG_GET_MEMORY_LOG_CONFIG@,
            )
    }

    /// Registers the class and its methods; stops at the first that the
    /// runtime cannot resolve.
    pub fn jni_cache_init(env: &JavaEnv, cache: &mut JniCache) -> (res: Result<
        (),
        CedarlingBridgeError,
    >)
        ensures
            Self::registration(Registration::start(old(cache)@), env@).is_outcome(
                res,
                final(cache)@,
            ),
    {
        cache.add_class(env, JAVA_CLS_NAME)?;
        cache.add_instance_method(
            env,
            JAVA_CLS_NAME,
            JAVA_METHOD_NAME_GET_LOG_TYPE,
            JAVA_METHOD_SIG_GET_LOG_TYPE,
        )?;
        cache.add_instance_method(
            env,
            JAVA_CLS_NAME,
            JAVA_METHOD_NAME_GET_LOG_LEVEL,
            JAVA_METHOD_SIG_GET_LOG_LEVEL,
        )?;
        cache.add_instance_method(
            env,
            JAVA_CLS_NAME,
            JAVA_METHOD_NAME_GET_MEMORY_LOG_CONFIG,
            JAVA_METHOD_SIG_GET_MEMORY_LOG_CONFIG,
        )
    }

    /// What wrapping a foreign object gives: nothing for the null reference,
    /// else the object with its handles from the cache, or the report of the
    /// first handle that the cache does not hold.
    pub open spec fn wrapped(cache: JniCacheView, jobj: JObject) -> Result<
        Option<JavaLogConfig>,
        CedarlingBridgeErrorView,
    > {
        if jobj.is_null() {
            Ok(None)
        } else {
            match cache.method(
                JAVA_CLS_NAME@,
                JAVA_METHOD_NAME_GET_LOG_TYPE@,
                JAVA_METHOD_SIG_GET_LOG_TYPE@,
            ) {
                Err(e) => Err(e),
                Ok(get_log_type_method) => match cache.method(
                    JAVA_CLS_NAME@,
                    JAVA_METHOD_NAME_GET_LOG_LEVEL@,
                    JAVA_METHOD_SIG_GET_LOG_LEVEL@,
                ) {
                    Err(e) => Err(e),
                    Ok(get_log_level_method) => match cache.method(
                        JAVA_CLS_NAME@,
                        JAVA_METHOD_NAME_GET_MEMORY_LOG_CONFIG@,
                        JAVA_METHOD_SIG_GET_MEMORY_LOG_CONFIG@,
                    ) {
                        Err(e) => Err(e),
                        Ok(get_memory_log_config_method) => Ok(
                            Some(
                                JavaLogConfig {
                                    jobj,
                                    get_log_type_method,
                                    get_log_level_method,
                                    get_memory_log_config_method,
                                },
                            ),
                        ),
                    },
                },
            }
        }
    }

    /// Wraps a foreign object.
    pub fn new(cache: &JniCache, jobj: JObject) -> (res: Result<
        Option<JavaLogConfig>,
        CedarlingBridgeError,
    >)
        ensures
            is_result(res, Self::wrapped(cache@, jobj)),
    {
        if jobj.is_null() {
            return Ok(None);
        }
        let get_log_type_key = (
            JAVA_CLS_NAME,
            JAVA_METHOD_NAME_GET_LOG_TYPE,
            JAVA_METHOD_SIG_GET_LOG_TYPE,
        );
        let get_log_level_key = (
            JAVA_CLS_NAME,
            JAVA_METHOD_NAME_GET_LOG_LEVEL,
            JAVA_METHOD_SIG_GET_LOG_LEVEL,
        );
        let get_memory_log_config_key = (
            JAVA_CLS_NAME,
            JAVA_METHOD_NAME_GET_MEMORY_LOG_CONFIG,
            JAVA_METHOD_SIG_GET_MEMORY_LOG_CONFIG,
        );
        Ok(
            Some(
                JavaLogConfig {
                    jobj: jobj,
                    get_log_type_method: cache.get_instance_method(&get_log_type_key)?,
                    get_log_level_method: cache.get_instance_method(&get_log_level_key)?,
                    get_memory_log_config_method: cache.get_instance_method(
                        &get_memory_log_config_key,
                    )?,
                },
            ),
        )
    }

    /// What asking the object for `getLogType` gives: the name of the
    /// enum value that comes back.
    pub open spec fn spec_get_log_type(self, env: JavaEnvView, cache: JniCacheView) -> Result<
        Option<Seq<char>>,
        CedarlingBridgeErrorView,
    > {
        match object_result(env, self.jobj, self.get_log_type_method, Seq::empty()) {
            Err(e) => Err(e),
            Ok(obj) => JavaLogType::name_of_object(env, cache, obj),
        }
    }

    /// Asks the object for `getLogType`.
    pub fn get_log_type(&self, env: &JavaEnv, cache: &JniCache) -> (res: Result<
        Option<JavaLogType>,
        CedarlingBridgeError,
    >)
        ensures
            is_result_of(res, self.spec_get_log_type(env@, cache@)),
    {
        let obj = call_jni_object_method(
            env,
            &self.jobj,
            &self.get_log_type_method,
            &no_args(),
        )?;
        JavaLogType::from_jni_object(env, cache, obj)
    }

    /// What asking the object for `getLogLevel` gives: the name of the
    /// enum value that comes back.
    pub open spec fn spec_get_log_level(self, env: JavaEnvView, cache: JniCacheView) -> Result<
        Option<Seq<char>>,
        CedarlingBridgeErrorView,
    > {
        match object_result(env, self.jobj, self.get_log_level_method, Seq::empty()) {
            Err(e) => Err(e),
            Ok(obj) => JavaLogLevel::name_of_object(env, cache, obj),
        }
    }

    /// Asks the object for `getLogLevel`.
    pub fn get_log_level(&self, env: &JavaEnv, cache: &JniCache) -> (res: Result<
        Option<JavaLogLevel>,
        CedarlingBridgeError,
    >)
        ensures
            is_result_of(res, self.spec_get_log_level(env@, cache@)),
    {
        let obj = call_jni_object_method(
            env,
            &self.jobj,
            &self.get_log_level_method,
            &no_args(),
        )?;
        JavaLogLevel::from_jni_object(env, cache, obj)
    }

    /// What asking the object for `getMemoryLogConfiguration` gives: the object that
    /// comes back, wrapped.
    pub open spec fn spec_get_memory_log_config(
        self,
        env: JavaEnvView,
        cache: JniCacheView,
    ) -> Result<
        Option<JavaMemoryLogConfig>,
        CedarlingBridgeErrorView,
    > {
        match object_result(env, self.jobj, self.get_memory_log_config_method, Seq::empty()) {
            Err(e) => Err(e),
            Ok(obj) => JavaMemoryLogConfig::wrapped(cache, obj),
        }
    }

    /// Asks the object for `getMemoryLogConfiguration`.
    pub fn get_memory_log_config(&self, env: &JavaEnv, cache: &JniCache) -> (res: Result<
        Option<JavaMemoryLogConfig>,
        CedarlingBridgeError,
    >)
        ensures
            is_result(res, self.spec_get_memory_log_config(env@, cache@)),
    {
        let obj = call_jni_object_method(
            env,
            &self.jobj,
            &self.get_memory_log_config_method,
            &no_args(),
        )?;
        JavaMemoryLogConfig::new(cache, obj)
    }


    /// The native memory log section beside the log type: nothing where the
    /// accessor gave the null reference.
    pub open spec fn spec_get_cedarling_memory_log_config(
        self,
        env: JavaEnvView,
        cache: JniCacheView,
    ) -> Result<Option<MemoryLogConfig>, CedarlingBridgeErrorView> {
        match self.spec_get_memory_log_config(env, cache) {
            Err(e) => Err(e),
            Ok(None) => Ok(None),
            Ok(Some(config)) => match config.converted(env, cache) {
                Err(e) => Err(e),
                Ok(native) => Ok(Some(native)),
            },
        }
    }

    /// Reads and converts the memory log section, if there is one.
    pub fn get_cedarling_memory_log_config(&self, env: &JavaEnv, cache: &JniCache) -> (res: Result<
        Option<MemoryLogConfig>,
        CedarlingBridgeError,
    >)
        ensures
            is_result(res, self.spec_get_cedarling_memory_log_config(env@, cache@)),
    {
        match self.get_memory_log_config(env, cache)? {
            Some(config) => Ok(Some(config.as_cedarling_memory_log_config(env, cache)?)),
            None => Ok(None),
        }
    }

    /// The native logging section that the object stands for. Type and
    /// level are required and are read first; then the memory log section is
    /// read and handed to the decoding of the type, which needs it for
    /// `MEMORY`; the level is decoded last.
    pub open spec fn converted(self, env: JavaEnvView, cache: JniCacheView) -> Result<
        LogConfig,
        CedarlingBridgeErrorView,
    > {
        match required_of(self.spec_get_log_type(env, cache), JAVA_CLS_NAME@, "logType"@) {
            Err(e) => Err(e),
            Ok(kind_name) => match required_of(
                self.spec_get_log_level(env, cache),
                JAVA_CLS_NAME@,
                "logLevel"@,
            ) {
                Err(e) => Err(e),
                Ok(level_name) => match self.spec_get_cedarling_memory_log_config(env, cache) {
                    Err(e) => Err(e),
                    Ok(mem_log_config) => match JavaLogType::decoded(kind_name, mem_log_config) {
                        Err(e) => Err(e),
                        Ok(log_type) => match JavaLogLevel::decoded(level_name) {
                            Err(e) => Err(e),
                            Ok(log_level) => Ok(LogConfig { log_type, log_level }),
                        },
                    },
                },
            },
        }
    }

    /// Converts the logging section.
    pub fn as_cedarling_log_config(&self, env: &JavaEnv, cache: &JniCache) -> (res: Result<
        LogConfig,
        CedarlingBridgeError,
    >)
        ensures
            is_result(res, self.converted(env@, cache@)),
    {
        let java_log_type = require_some(self.get_log_type(env, cache)?, JAVA_CLS_NAME, "logType")?;
        let java_log_level = require_some(
            self.get_log_level(env, cache)?,
            JAVA_CLS_NAME,
            "logLevel",
        )?;
        let mem_log_config: Option<MemoryLogConfig> = self.get_cedarling_memory_log_config(
            env,
            cache,
        )?;
        let log_type = java_log_type.as_enum(mem_log_config)?;
        let log_level = java_log_level.as_enum()?;
        Ok(LogConfig { log_type: log_type, log_level: log_level })
    }

    /// Whether the cache holds the class of this converter and every one of
    /// its handles.
    pub open spec fn is_registered(cache: JniCacheView) -> bool {
        &&& cache.classes.contains_key(JAVA_CLS_NAME@)
        &&& cache.methods.contains_key(
            (JAVA_CLS_NAME@, JAVA_METHOD_NAME_GET_LOG_TYPE@, JAVA_METHOD_SIG_GET_LOG_TYPE@),
        )
        &&& cache.methods.contains_key(
            (JAVA_CLS_NAME@, JAVA_METHOD_NAME_GET_LOG_LEVEL@, JAVA_METHOD_SIG_GET_LOG_LEVEL@),
        )
        &&& cache.methods.contains_key(
            (JAVA_CLS_NAME@, JAVA_METHOD_NAME_GET_MEMORY_LOG_CONFIG@, JAVA_METHOD_SIG_GET_MEMORY_LOG_CONFIG@),
        )
    }

    /// A run that has gone through the registration of this converter
    /// without a failure holds every one of its handles, and has dropped
    /// nothing that it held before.
    pub proof fn lemma_registration_holds(reg: Registration, env: JavaEnvView)
        ensures
            Self::registration(reg, env).continues(reg),
            Self::registration(reg, env).failure is None ==> Self::is_registered(
                Self::registration(reg, env).cache,
            ),
    {
        let r0 = reg.class(env, JAVA_CLS_NAME@);
        reg.lemma_class_is_held(env, JAVA_CLS_NAME@);
        let r1 = r0.method(
            env,
            JAVA_CLS_NAME@,
            JAVA_METHOD_NAME_GET_LOG_TYPE@,
            JAVA_METHOD_SIG_GET_LOG_TYPE@,
        );
        r0.lemma_method_is_held(
            env,
            JAVA_CLS_NAME@,
            JAVA_METHOD_NAME_GET_LOG_TYPE@,
            JAVA_METHOD_SIG_GET_LOG_TYPE@,
        );
        let r2 = r1.method(
            env,
            JAVA_CLS_NAME@,
            JAVA_METHOD_NAME_GET_LOG_LEVEL@,
            JAVA_METHOD_SIG_GET_LOG_LEVEL@,
        );
        r1.lemma_method_is_held(
            env,
            JAVA_CLS_NAME@,
            JAVA_METHOD_NAME_GET_LOG_LEVEL@,
            JAVA_METHOD_SIG_GET_LOG_LEVEL@,
        );
        let r3 = r2.method(
            env,
            JAVA_CLS_NAME@,
            JAVA_METHOD_NAME_GET_MEMORY_LOG_CONFIG@,
            JAVA_METHOD_SIG_GET_MEMORY_LOG_CONFIG@,
        );
        r2.lemma_method_is_held(
            env,
            JAVA_CLS_NAME@,
            JAVA_METHOD_NAME_GET_MEMORY_LOG_CONFIG@,
            JAVA_METHOD_SIG_GET_MEMORY_LOG_CONFIG@,
        );
    }

    /// What the cache holds for this converter stays when more is registered.
    pub proof fn lemma_registered_stays(earlier: JniCacheView, later: JniCacheView)
        requires
            Self::is_registered(earlier),
            later.extends(earlier),
        ensures
            Self::is_registered(later),
    {
    }

    /// With every handle in the cache, wrapping an object finds them all:
    /// it cannot miss.
    pub proof fn lemma_registered_wraps(cache: JniCacheView, jobj: JObject)
        requires
            Self::is_registered(cache),
        ensures
            Self::wrapped(cache, jobj) is Ok,
            !jobj.is_null() ==> Self::wrapped(cache, jobj)->Ok_0 is Some,
    {
    }

    /// With every handle of the bridge in the cache, the conversion fails
    /// only on what the foreign object holds or on a foreign call that
    /// fails, and never on a miss in the cache.
    pub proof fn lemma_converts_without_miss(self, env: JavaEnvView, cache: JniCacheView)
        requires
            crate::cedarling::is_registered(cache),
        ensures
            !misses(self.converted(env, cache)),
    {
        lemma_reads_never_miss(env, self.jobj, self.get_log_type_method, Seq::empty());
        if let Ok(value) = object_result(env, self.jobj, self.get_log_type_method, Seq::empty()) {
            lemma_registered_never_misses(
                env,
                cache,
                value,
                self.get_log_type_method,
                Seq::empty(),
            );
        }
        lemma_reads_never_miss(env, self.jobj, self.get_log_level_method, Seq::empty());
        if let Ok(value) = object_result(env, self.jobj, self.get_log_level_method, Seq::empty()) {
            lemma_registered_never_misses(
                env,
                cache,
                value,
                self.get_log_level_method,
                Seq::empty(),
            );
        }
        lemma_reads_never_miss(env, self.jobj, self.get_memory_log_config_method, Seq::empty());
        if let Ok(
            value,
        ) = object_result(env, self.jobj, self.get_memory_log_config_method, Seq::empty()) {
            JavaMemoryLogConfig::lemma_registered_wraps(cache, value);
        }
        if let Ok(Some(part)) = self.spec_get_memory_log_config(env, cache) {
            part.lemma_converts_without_miss(env, cache);
        }
    }
}

} // verus!
