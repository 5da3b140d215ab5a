//! The decoder of log levels.

use crate::error::{CedarlingBridgeError, CedarlingBridgeErrorView, is_result, is_result_of};
use crate::jni::env::{JObject, JavaEnv, JavaEnvView};
use crate::jni::jni_cache::{JniCache, JniCacheView};
use crate::jni::util::{call_jni_method_to_string, string_form};
use crate::text::str_eq;
use crate::engine::config::LogLevel;
use vstd::prelude::*;

verus! {

pub const JAVA_CLS_NAME: &'static str = "io/jans/cedarling/bridge/config/LogLevel";

pub const JAVA_ENUM_VALUE_FATAL: &'static str = "FATAL";

pub const JAVA_ENUM_VALUE_ERROR: &'static str = "ERROR";

pub const JAVA_ENUM_VALUE_WARN: &'static str = "WARN";

pub const JAVA_ENUM_VALUE_INFO: &'static str = "INFO";

pub const JAVA_ENUM_VALUE_DEBUG: &'static str = "DEBUG";

pub const JAVA_ENUM_VALUE_TRACE: &'static str = "TRACE";

/// A foreign enum value, held by its name.
#[derive(Debug)]
pub struct JavaLogLevel {
    pub name: String,
}

impl DeepView for JavaLogLevel {
    type V = Seq<char>;

    open spec fn deep_view(&self) -> Seq<char> {
        self.name@
    }
}

impl JavaLogLevel {
    /// The name of a foreign enum value: nothing for the null reference,
    /// else the string form of the object.
    pub open spec fn name_of_object(env: JavaEnvView, cache: JniCacheView, jobj: JObject) -> Result<
        Option<Seq<char>>,
        CedarlingBridgeErrorView,
    > {
        if jobj.is_null() {
            Ok(None)
        } else {
            string_form(env, cache, jobj)
        }
    }

    /// Reads the name of a foreign enum value.
    pub fn from_jni_object(env: &JavaEnv, cache: &JniCache, jobj: JObject) -> (res: Result<
        Option<JavaLogLevel>,
        CedarlingBridgeError,
    >)
        ensures
            is_result_of(res, Self::name_of_object(env@, cache@, jobj)),
    {
        if jobj.is_null() {
            return Ok(None);
        }
        match call_jni_method_to_string(env, cache, &jobj)? {
            Some(name) => Ok(Some(JavaLogLevel { name })),
            None => Ok(None),
        }
    }

    /// The log level that a name stands for.
    pub open spec fn level_of(name: Seq<char>) -> Option<LogLevel> {
        if name == JAVA_ENUM_VALUE_FATAL@ {
            Some(LogLevel::FATAL)
        } else if name == JAVA_ENUM_VALUE_ERROR@ {
            Some(LogLevel::ERROR)
        } else if name == JAVA_ENUM_VALUE_WARN@ {
            Some(LogLevel::WARN)
        } else if name == JAVA_ENUM_VALUE_INFO@ {
            Some(LogLevel::INFO)
        } else if name == JAVA_ENUM_VALUE_DEBUG@ {
            Some(LogLevel::DEBUG)
        } else if name == JAVA_ENUM_VALUE_TRACE@ {
            Some(LogLevel::TRACE)
        } else {
            None
        }
    }

    /// The name that stands for a log level.
    pub open spec fn name_of(level: LogLevel) -> Seq<char> {
        match level {
            LogLevel::FATAL => JAVA_ENUM_VALUE_FATAL@,
            LogLevel::ERROR => JAVA_ENUM_VALUE_ERROR@,
            LogLevel::WARN => JAVA_ENUM_VALUE_WARN@,
            LogLevel::INFO => JAVA_ENUM_VALUE_INFO@,
            LogLevel::DEBUG => JAVA_ENUM_VALUE_DEBUG@,
            LogLevel::TRACE => JAVA_ENUM_VALUE_TRACE@,
        }
    }

    /// What decoding a name gives: its log level, or the error that names
    /// the enum and the unknown value.
    pub open spec fn decoded(name: Seq<char>) -> Result<LogLevel, CedarlingBridgeErrorView> {
        match Self::level_of(name) {
            Some(level) => Ok(level),
            None => Err(
                CedarlingBridgeErrorView::UnknownEnumValue { enum_cls: JAVA_CLS_NAME@, value: name },
            ),
        }
    }

    /// Decodes the name.
    pub fn as_enum(&self) -> (res: Result<LogLevel, CedarlingBridgeError>)
        ensures
            is_result(res, Self::decoded(self.name@)),
    {
        let name = self.name.as_str();
        if str_eq(name, JAVA_ENUM_VALUE_FATAL) {
            Ok(LogLevel::FATAL)
        } else if str_eq(name, JAVA_ENUM_VALUE_ERROR) {
            Ok(LogLevel::ERROR)
        } else if str_eq(name, JAVA_ENUM_VALUE_WARN) {
            Ok(LogLevel::WARN)
        } else if str_eq(name, JAVA_ENUM_VALUE_INFO) {
            Ok(LogLevel::INFO)
        } else if str_eq(name, JAVA_ENUM_VALUE_DEBUG) {
            Ok(LogLevel::DEBUG)
        } else if str_eq(name, JAVA_ENUM_VALUE_TRACE) {
            Ok(LogLevel::TRACE)
        } else {
            Err(
                CedarlingBridgeError::UnknownEnumValue {
                    enum_cls: JAVA_CLS_NAME,
                    value: self.name.clone(),
                },
            )
        }
    }

    /// Each log level is decoded from its own name and from no other: a
    /// recognised name, decoded and written again, is the name that came in.
    pub proof fn lemma_round_trip(level: LogLevel, name: Seq<char>)
        ensures
            Self::level_of(Self::name_of(level)) == Some(level),
            Self::level_of(name) == Some(level) ==> Self::name_of(level) == name,
    {
        reveal_strlit("FATAL");
        reveal_strlit("ERROR");
        reveal_strlit("WARN");
        reveal_strlit("INFO");
        reveal_strlit("DEBUG");
        reveal_strlit("TRACE");
        assert(JAVA_ENUM_VALUE_FATAL@[0] == 'F');
        assert(JAVA_ENUM_VALUE_ERROR@[0] == 'E');
        assert(JAVA_ENUM_VALUE_WARN@[0] == 'W');
        assert(JAVA_ENUM_VALUE_INFO@[0] == 'I');
        assert(JAVA_ENUM_VALUE_DEBUG@[0] == 'D');
        assert(JAVA_ENUM_VALUE_TRACE@[0] == 'T');
    }
}

} // verus!
