//! The converter of the context of a request.

use crate::error::{CedarlingBridgeError, CedarlingBridgeErrorView, is_result, is_result_of, misses};
use crate::jni::env::{JMethodID, JObject, JavaEnv, JavaEnvView};
use crate::jni::jni_cache::{JniCache, JniCacheView, Registration};
use crate::jni::util::{call_jni_string_method, lemma_reads_never_miss, no_args, require_some};
use crate::jni::util::{required_of, string_result};
use crate::outside::{json_value_of, parse_json_value};
use vstd::prelude::*;

verus! {

pub const JAVA_CLS_NAME: &'static str = "io/jans/cedarling/bridge/authz/Context";

pub const JAVA_METHOD_NAME_GET_DATA: &'static str = "getData";

pub const JAVA_METHOD_SIG_GET_DATA: &'static str = "()Ljava/lang/String;";

pub const PARSING_FAILED: &'static str = "Parsing authz request context data failed";

/// A foreign context with the handle that reads it.
#[derive(Clone, Copy, Debug)]
pub struct JavaContext {
    pub jobj: JObject,
    pub get_data_method: JMethodID,
}

impl JavaContext {
    /// What this converter registers: its class, then each of its methods.
    pub open spec fn registration(reg: Registration, env: JavaEnvView) -> Registration {
        reg.class(env, JAVA_CLS_NAME@)
            .method(
                env,
                JAVA_CLS_NAME@,
                JAVA_METHOD_NAME_GET_DATA@,
                JAVA_METHOD_SIG_GET_DATA@,
            )
    }

    /// Registers the class and its methods; stops at the first that the
    /// runtime cannot resolve.
    pub fn jni_cache_init(env: &JavaEnv, cache: &mut JniCache) -> (res: Result<
        (),
        CedarlingBridgeError,
    >)
        ensures
            Self::registration(Registration::start(old(cache)@), env@).is_outcome(
                res,
                final(cache)@,
            ),
    {
        cache.add_class(env, JAVA_CLS_NAME)?;
        cache.add_instance_method(
            env,
            JAVA_CLS_NAME,
            JAVA_METHOD_NAME_GET_DATA,
            JAVA_METHOD_SIG_GET_DATA,
        )
    }

    /// What wrapping a foreign object gives: nothing for the null reference,
    /// else the object with its handles from the cache, or the report of the
    /// first handle that the cache does not hold.
    pub open spec fn wrapped(cache: JniCacheView, jobj: JObject) -> Result<
        Option<JavaContext>,
        CedarlingBridgeErrorView,
    > {
        if jobj.is_null() {
            Ok(None)
        } else {
            match cache.method(
                JAVA_CLS_NAME@,
                JAVA_METHOD_NAME_GET_DATA@,
                JAVA_METHOD_SIG_GET_DATA@,
            ) {
                Err(e) => Err(e),
                Ok(get_data_method) => Ok(Some(JavaContext { jobj, get_data_method })),
            }
        }
    }

    /// Wraps a foreign object.
    pub fn new(cache: &JniCache, jobj: JObject) -> (res: Result<
        Option<JavaContext>,
        CedarlingBridgeError,
    >)
        ensures
            is_result(res, Self::wrapped(cache@, jobj)),
    {
        if jobj.is_null() {
            return Ok(None);
        }
        let get_data_key = (
            JAVA_CLS_NAME,
            JAVA_METHOD_NAME_GET_DATA,
            JAVA_METHOD_SIG_GET_DATA,
        );
        Ok(
            Some(
                JavaContext {
                    jobj: jobj,
                    get_data_method: cache.get_instance_method(&get_data_key)?,
                },
            ),
        )
    }

    /// What asking the object for `getData` gives.
    pub open spec fn spec_get_data(self, env: JavaEnvView) -> Result<
        Option<Seq<char>>,
        CedarlingBridgeErrorView,
    > {
        string_result(env, self.jobj, self.get_data_method, Seq::empty())
    }

    /// Asks the object for `getData`.
    pub fn get_data(&self, env: &JavaEnv) -> (res: Result<
        Option<String>,
        CedarlingBridgeError,
    >)
        ensures
            is_result_of(res, self.spec_get_data(env@)),
    {
        call_jni_string_method(env, &self.jobj, &self.get_data_method, &no_args())
    }


    /// What the outcome of parsing the text of the context stands for: the
    /// document, or the parse error with the note that it was the context
    /// that failed to parse.
    pub open spec fn parsed(outcome: Result<serde_json::Value, serde_json::Error>) -> Result<
        serde_json::Value,
        CedarlingBridgeErrorView,
    > {
        match outcome {
            Ok(value) => Ok(value),
            Err(json_err) => Err(
                CedarlingBridgeErrorView::JsonError {
                    additional_description: PARSING_FAILED@,
                    json_err,
                },
            ),
        }
    }

    /// Turns the outcome of parsing the text of the context into the result
    /// of the conversion.
    pub fn from_parsed(outcome: Result<serde_json::Value, serde_json::Error>) -> (res: Result<
        serde_json::Value,
        CedarlingBridgeError,
    >)
        ensures
            is_result(res, Self::parsed(outcome)),
    {
        match outcome {
            Ok(value) => Ok(value),
            Err(e) => Err(
                CedarlingBridgeError::JsonError {
                    additional_description: String::from_str(PARSING_FAILED),
                    json_err: e,
                },
            ),
        }
    }

    /// The native context that the object stands for: its text, which is
    /// required, parsed as JSON.
    pub open spec fn converted(self, env: JavaEnvView) -> Result<
        serde_json::Value,
        CedarlingBridgeErrorView,
    > {
        match required_of(self.spec_get_data(env), JAVA_CLS_NAME@, "data"@) {
            Err(e) => Err(e),
            Ok(text) => Self::parsed(json_value_of(text)),
        }
    }

    /// Converts the context.
    pub fn as_cedarling_context(&self, env: &JavaEnv) -> (res: Result<
        serde_json::Value,
        CedarlingBridgeError,
    >)
        ensures
            is_result(res, self.converted(env@)),
    {
        let data: String = require_some(self.get_data(env)?, JAVA_CLS_NAME, "data")?;
        Self::from_parsed(parse_json_value(data.as_str()))
    }

    /// Whether the cache holds the class of this converter and every one of
    /// its handles.
    pub open spec fn is_registered(cache: JniCacheView) -> bool {
        &&& cache.classes.contains_key(JAVA_CLS_NAME@)
        &&& cache.methods.contains_key(
            (JAVA_CLS_NAME@, JAVA_METHOD_NAME_GET_DATA@, JAVA_METHOD_SIG_GET_DATA@),
        )
    }

    /// A run that has gone through the registration of this converter
    /// without a failure holds every one of its handles, and has dropped
    /// nothing that it held before.
    pub proof fn lemma_registration_holds(reg: Registration, env: JavaEnvView)
        ensures
            Self::registration(reg, env).continues(reg),
            Self::registration(reg, env).failure is None ==> Self::is_registered(
                Self::registration(reg, env).cache,
            ),
    {
        let r0 = reg.class(env, JAVA_CLS_NAME@);
        reg.lemma_class_is_held(env, JAVA_CLS_NAME@);
        let r1 = r0.method(
            env,
            JAVA_CLS_NAME@,
            JAVA_METHOD_NAME_GET_DATA@,
            JAVA_METHOD_SIG_GET_DATA@,
        );
        r0.lemma_method_is_held(
            env,
            JAVA_CLS_NAME@,
            JAVA_METHOD_NAME_GET_DATA@,
            JAVA_METHOD_SIG_GET_DATA@,
        );
    }

    /// What the cache holds for this converter stays when more is registered.
    pub proof fn lemma_registered_stays(earlier: JniCacheView, later: JniCacheView)
        requires
            Self::is_registered(earlier),
            later.extends(earlier),
        ensures
            Self::is_registered(later),
    {
    }

    /// With every handle in the cache, wrapping an object finds them all:
    /// it cannot miss.
    pub proof fn lemma_registered_wraps(cache: JniCacheView, jobj: JObject)
        requires
            Self::is_registered(cache),
        ensures
            Self::wrapped(cache, jobj) is Ok,
            !jobj.is_null() ==> Self::wrapped(cache, jobj)->Ok_0 is Some,
    {
    }

    /// With every handle of the bridge in the cache, the conversion fails
    /// only on what the foreign object holds or on a foreign call that
    /// fails, and never on a miss in the cache.
    pub proof fn lemma_converts_without_miss(self, env: JavaEnvView)
        ensures
            !misses(self.converted(env)),
    {
        lemma_reads_never_miss(env, self.jobj, self.get_data_method, Seq::empty());
    }
}

} // verus!
