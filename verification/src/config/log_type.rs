//! The decoder of log types.

use crate::error::{CedarlingBridgeError, CedarlingBridgeErrorView, is_result, is_result_of};
use crate::jni::env::{JObject, JavaEnv, JavaEnvView};
use crate::jni::jni_cache::{JniCache, JniCacheView};
use crate::jni::util::{call_jni_method_to_string, string_form};
use crate::text::str_eq;
use crate::engine::config::{LogTypeConfig, MemoryLogConfig};
use vstd::prelude::*;

verus! {

pub const JAVA_CLS_NAME: &'static str = "io/jans/cedarling/bridge/config/LogType";

pub const JAVA_ENUM_VALUE_OFF: &'static str = "OFF";

pub const JAVA_ENUM_VALUE_MEMORY: &'static str = "MEMORY";

pub const JAVA_ENUM_VALUE_STDOUT: &'static str = "STDOUT";

pub const NO_MEMORY_LOG_CONFIG: &'static str =
    "Log type set to MEMORY but no memory log configuration provided";

/// A foreign enum value, held by its name.
#[derive(Debug)]
pub struct JavaLogType {
    pub name: String,
}

impl DeepView for JavaLogType {
    type V = Seq<char>;

    open spec fn deep_view(&self) -> Seq<char> {
        self.name@
    }
}

impl JavaLogType {
    /// The name of a foreign enum value: nothing for the null reference,
    /// else the string form of the object.
    pub open spec fn name_of_object(env: JavaEnvView, cache: JniCacheView, jobj: JObject) -> Result<
        Option<Seq<char>>,
        CedarlingBridgeErrorView,
    > {
        if jobj.is_null() {
            Ok(None)
        } else {
            string_form(env, cache, jobj)
        }
    }

    /// Reads the name of a foreign enum value.
    pub fn from_jni_object(env: &JavaEnv, cache: &JniCache, jobj: JObject) -> (res: Result<
        Option<JavaLogType>,
        CedarlingBridgeError,
    >)
        ensures
            is_result_of(res, Self::name_of_object(env@, cache@, jobj)),
    {
        if jobj.is_null() {
            return Ok(None);
        }
        match call_jni_method_to_string(env, cache, &jobj)? {
            Some(name) => Ok(Some(JavaLogType { name })),
            None => Ok(None),
        }
    }

    /// What decoding a name gives, with the memory log configuration that
    /// was found beside it: `MEMORY` needs that configuration and fails
    /// without it; the other names do not look at it.
    pub open spec fn decoded(name: Seq<char>, mem_log_config: Option<MemoryLogConfig>) -> Result<
        LogTypeConfig,
        CedarlingBridgeErrorView,
    > {
        if name == JAVA_ENUM_VALUE_OFF@ {
            Ok(LogTypeConfig::Off)
        } else if name == JAVA_ENUM_VALUE_MEMORY@ {
            match mem_log_config {
                Some(config) => Ok(LogTypeConfig::Memory(config)),
                None => Err(CedarlingBridgeErrorView::GenericError(NO_MEMORY_LOG_CONFIG@)),
            }
        } else if name == JAVA_ENUM_VALUE_STDOUT@ {
            Ok(LogTypeConfig::StdOut)
        } else {
            Err(
                CedarlingBridgeErrorView::UnknownEnumValue { enum_cls: JAVA_CLS_NAME@, value: name },
            )
        }
    }

    /// Decodes the name, with the memory log configuration that was found
    /// beside it.
    pub fn as_enum(&self, mem_log_config: Option<MemoryLogConfig>) -> (res: Result<
        LogTypeConfig,
        CedarlingBridgeError,
    >)
        ensures
            is_result(res, Self::decoded(self.name@, mem_log_config)),
    {
        let name = self.name.as_str();
        if str_eq(name, JAVA_ENUM_VALUE_OFF) {
            Ok(LogTypeConfig::Off)
        } else if str_eq(name, JAVA_ENUM_VALUE_MEMORY) {
            match mem_log_config {
                Some(config) => Ok(LogTypeConfig::Memory(config)),
                None => Err(
                    CedarlingBridgeError::GenericError(String::from_str(NO_MEMORY_LOG_CONFIG)),
                ),
            }
        } else if str_eq(name, JAVA_ENUM_VALUE_STDOUT) {
            Ok(LogTypeConfig::StdOut)
        } else {
            Err(
                CedarlingBridgeError::UnknownEnumValue {
                    enum_cls: JAVA_CLS_NAME,
                    value: self.name.clone(),
                },
            )
        }
    }

    /// The name that stands for a log type.
    pub open spec fn name_of(log_type: LogTypeConfig) -> Seq<char> {
        match log_type {
            LogTypeConfig::Off => JAVA_ENUM_VALUE_OFF@,
            LogTypeConfig::Memory(_) => JAVA_ENUM_VALUE_MEMORY@,
            LogTypeConfig::StdOut => JAVA_ENUM_VALUE_STDOUT@,
        }
    }

    /// Each log type is decoded from its own name and from no other: a
    /// recognised name, decoded and written again, is the name that came in.
    pub proof fn lemma_round_trip(
        log_type: LogTypeConfig,
        name: Seq<char>,
        mem_log_config: Option<MemoryLogConfig>,
    )
        ensures
            log_type is Memory ==> Self::decoded(Self::name_of(log_type), Some(log_type->Memory_0))
                == Ok::<LogTypeConfig, CedarlingBridgeErrorView>(log_type),
            !(log_type is Memory) ==> Self::decoded(
                Self::name_of(log_type),
                mem_log_config,
            ) == Ok::<
                LogTypeConfig,
                CedarlingBridgeErrorView,
            >(log_type),
            Self::decoded(name, mem_log_config) == Ok::<LogTypeConfig, CedarlingBridgeErrorView>(
                log_type,
            ) ==> Self::name_of(log_type) == name,
    {
        reveal_strlit("OFF");
        reveal_strlit("MEMORY");
        reveal_strlit("STDOUT");
        assert(JAVA_ENUM_VALUE_OFF@[0] == 'O');
        assert(JAVA_ENUM_VALUE_MEMORY@[0] == 'M');
        assert(JAVA_ENUM_VALUE_STDOUT@[0] == 'S');
    }
}

} // verus!
