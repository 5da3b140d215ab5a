//! The converter of the source of role identifiers for unsigned requests.

use crate::engine::config::UnsignedRoleIdSrc;
use crate::error::{CedarlingBridgeError, CedarlingBridgeErrorView, is_result, is_result_of, misses};
use crate::jni::env::{JMethodID, JObject, JavaEnv, JavaEnvView};
use crate::jni::jni_cache::{JniCache, JniCacheView, Registration};
use crate::jni::util::{call_jni_string_method, lemma_reads_never_miss, no_args, require_some};
use crate::jni::util::{required_of, string_result};
use vstd::prelude::*;

verus! {

pub const JAVA_CLS_NAME: &'static str = "io/jans/cedarling/bridge/config/UnsignedRoleIdSrc";

pub const JAVA_METHOD_NAME_GET_VALUE: &'static str = "getValue";

pub const JAVA_METHOD_SIG_GET_VALUE: &'static str = "()Ljava/lang/String;";

/// A foreign source of role identifiers with the handle that reads it.
#[derive(Clone, Copy, Debug)]
pub struct JavaUnsignedRoleIdSrc {
    pub jobj: JObject,
    pub get_value_method: JMethodID,
}

impl JavaUnsignedRoleIdSrc {
    /// What this converter registers: its class, then each of its methods.
    pub open spec fn registration(reg: Registration, env: JavaEnvView) -> Registration {
        reg.class(env, JAVA_CLS_NAME@)
            .method(
                env,
                JAVA_CLS_NAME@,
                JAVA_METHOD_NAME_GET_VALUE@,
                JAVA_METHOD_SIG_GET_VALUE@,
            )
    }

    /// Registers the class and its methods; stops at the first that the
    /// runtime cannot resolve.
    pub fn jni_init(env: &JavaEnv, cache: &mut JniCache) -> (res: Result<
        (),
        CedarlingBridgeError,
    >)
        ensures
            Self::registration(Registration::start(old(cache)@), env@).is_outcome(
                res,
                final(cache)@,
            ),
    {
        cache.add_class(env, JAVA_CLS_NAME)?;
        cache.add_instance_method(
            env,
            JAVA_CLS_NAME,
            JAVA_METHOD_NAME_GET_VALUE,
            JAVA_METHOD_SIG_GET_VALUE,
        )
    }

    /// What wrapping a foreign object gives: nothing for the null reference,
    /// else the object with its handles from the cache, or the report of the
    /// first handle that the cache does not hold.
    pub open spec fn wrapped(cache: JniCacheView, jobj: JObject) -> Result<
        Option<JavaUnsignedRoleIdSrc>,
        CedarlingBridgeErrorView,
    > {
        if jobj.is_null() {
            Ok(None)
        } else {
            match cache.method(
                JAVA_CLS_NAME@,
                JAVA_METHOD_NAME_GET_VALUE@,
                JAVA_METHOD_SIG_GET_VALUE@,
            ) {
                Err(e) => Err(e),
                Ok(get_value_method) => Ok(Some(JavaUnsignedRoleIdSrc { jobj, get_value_method })),
            }
        }
    }

    /// Wraps a foreign object.
    pub fn new(cache: &JniCache, jobj: JObject) -> (res: Result<
        Option<JavaUnsignedRoleIdSrc>,
        CedarlingBridgeError,
    >)
        ensures
            is_result(res, Self::wrapped(cache@, jobj)),
    {
        if jobj.is_null() {
            return Ok(None);
        }
        let get_value_key = (
            JAVA_CLS_NAME,
            JAVA_METHOD_NAME_GET_VALUE,
            JAVA_METHOD_SIG_GET_VALUE,
        );
        Ok(
            Some(
                JavaUnsignedRoleIdSrc {
                    jobj: jobj,
                    get_value_method: cache.get_instance_method(&get_value_key)?,
                },
            ),
        )
    }

    /// What asking the object for `getValue` gives.
    pub open spec fn spec_get_value(self, env: JavaEnvView) -> Result<
        Option<Seq<char>>,
        CedarlingBridgeErrorView,
    > {
        string_result(env, self.jobj, self.get_value_method, Seq::empty())
    }

    /// Asks the object for `getValue`.
    pub fn get_value(&self, env: &JavaEnv) -> (res: Result<
        Option<String>,
        CedarlingBridgeError,
    >)
        ensures
            is_result_of(res, self.spec_get_value(env@)),
    {
        call_jni_string_method(env, &self.jobj, &self.get_value_method, &no_args())
    }


    /// The native source that the object stands for: its value is required,
    /// and beyond that the native source says nothing.
    pub open spec fn converted(self, env: JavaEnvView) -> Result<
        UnsignedRoleIdSrc,
        CedarlingBridgeErrorView,
    > {
        match required_of(self.spec_get_value(env), JAVA_CLS_NAME@, "value"@) {
            Err(e) => Err(e),
            Ok(_) => Ok(UnsignedRoleIdSrc),
        }
    }

    /// Converts the source of role identifiers.
    pub fn as_cedarling_unsigned_role_id_src(&self, env: &JavaEnv) -> (res: Result<
        UnsignedRoleIdSrc,
        CedarlingBridgeError,
    >)
        ensures
            is_result(res, self.converted(env@)),
    {
        let _value = require_some(self.get_value(env)?, JAVA_CLS_NAME, "value")?;
        Ok(UnsignedRoleIdSrc)
    }

    /// Whether the cache holds the class of this converter and every one of
    /// its handles.
    pub open spec fn is_registered(cache: JniCacheView) -> bool {
        &&& cache.classes.contains_key(JAVA_CLS_NAME@)
        &&& cache.methods.contains_key(
            (JAVA_CLS_NAME@, JAVA_METHOD_NAME_GET_VALUE@, JAVA_METHOD_SIG_GET_VALUE@),
        )
    }

    /// A run that has gone through the registration of this converter
    /// without a failure holds every one of its handles, and has dropped
    /// nothing that it held before.
    pub proof fn lemma_registration_holds(reg: Registration, env: JavaEnvView)
        ensures
            Self::registration(reg, env).continues(reg),
            Self::registration(reg, env).failure is None ==> Self::is_registered(
                Self::registration(reg, env).cache,
            ),
    {
        let r0 = reg.class(env, JAVA_CLS_NAME@);
        reg.lemma_class_is_held(env, JAVA_CLS_NAME@);
        let r1 = r0.method(
            env,
            JAVA_CLS_NAME@,
            JAVA_METHOD_NAME_GET_VALUE@,
            JAVA_METHOD_SIG_GET_VALUE@,
        );
        r0.lemma_method_is_held(
            env,
            JAVA_CLS_NAME@,
            JAVA_METHOD_NAME_GET_VALUE@,
            JAVA_METHOD_SIG_GET_VALUE@,
        );
    }

    /// What the cache holds for this converter stays when more is registered.
    pub proof fn lemma_registered_stays(earlier: JniCacheView, later: JniCacheView)
        requires
            Self::is_registered(earlier),
            later.extends(earlier),
        ensures
            Self::is_registered(later),
    {
    }

    /// With every handle in the cache, wrapping an object finds them all:
    /// it cannot miss.
    pub proof fn lemma_registered_wraps(cache: JniCacheView, jobj: JObject)
        requires
            Self::is_registered(cache),
        ensures
            Self::wrapped(cache, jobj) is Ok,
            !jobj.is_null() ==> Self::wrapped(cache, jobj)->Ok_0 is Some,
    {
    }

    /// With every handle of the bridge in the cache, the conversion fails
    /// only on what the foreign object holds or on a foreign call that
    /// fails, and never on a miss in the cache.
    pub proof fn lemma_converts_without_miss(self, env: JavaEnvView)
        ensures
            !misses(self.converted(env)),
    {
        lemma_reads_never_miss(env, self.jobj, self.get_value_method, Seq::empty());
    }
}

} // verus!
