//! The converter of authorization errors, in the output direction.

use crate::error::{CedarlingBridgeError, CedarlingBridgeErrorView, misses};
use crate::jni::env::{JMethodID, JObject, JValue, JavaEnv, JavaEnvView};
use crate::jni::jni_cache::{JniCache, JniCacheView, Registration};
use crate::jni::util::{Effect, call_jni_object_constructor, constructed, failed, is_effect, one_arg};
use vstd::prelude::*;

verus! {

pub const JAVA_CLS_NAME: &'static str = "io/jans/cedarling/bridge/cedar/policy/AuthzError";

pub const JAVA_CLS_CTOR: &'static str = "<init>";

pub const JAVA_CLS_CTOR_SIG: &'static str = "(Ljava/lang/String;)V";

/// The report of a native authorization error with the handle that builds its foreign form.
#[derive(Clone, Copy, Debug)]
pub struct JavaAuthzError<'r> {
    pub authz_error: &'r String,
    pub ctor_method: JMethodID,
}

impl<'r> JavaAuthzError<'r> {
    /// What this converter registers: its class and its constructor.
    pub open spec fn registration(reg: Registration, env: JavaEnvView) -> Registration {
        reg.class(env, JAVA_CLS_NAME@).method(
            env,
            JAVA_CLS_NAME@,
            JAVA_CLS_CTOR@,
            JAVA_CLS_CTOR_SIG@,
        )
    }

    /// Registers the class and its constructor.
    pub fn jni_cache_init(env: &JavaEnv, cache: &mut JniCache) -> (res: Result<
        (),
        CedarlingBridgeError,
    >)
        ensures
            Self::registration(Registration::start(old(cache)@), env@).is_outcome(
                res,
                final(cache)@,
            ),
    {
        cache.add_class(env, JAVA_CLS_NAME)?;
        cache.add_instance_method(env, JAVA_CLS_NAME, JAVA_CLS_CTOR, JAVA_CLS_CTOR_SIG)
    }

    /// The constructor handle as the cache gives it.
    pub open spec fn handle(cache: JniCacheView) -> Result<JMethodID, CedarlingBridgeErrorView> {
        cache.method(JAVA_CLS_NAME@, JAVA_CLS_CTOR@, JAVA_CLS_CTOR_SIG@)
    }

    /// Pairs an error report with the constructor handle from the cache.
    pub fn new(cache: &JniCache, authz_error: &'r String) -> (res: Result<
        JavaAuthzError<'r>,
        CedarlingBridgeError,
    >)
        ensures
            match res {
                Ok(wrapper) => Self::handle(cache@) == Ok::<JMethodID, CedarlingBridgeErrorView>(
                    wrapper.ctor_method,
                ) && wrapper.authz_error == authz_error,
                Err(e) => Self::handle(cache@) == Err::<JMethodID, CedarlingBridgeErrorView>(e@),
            },
    {
        let ctor_key = (JAVA_CLS_NAME, JAVA_CLS_CTOR, JAVA_CLS_CTOR_SIG);
        Ok(
            JavaAuthzError {
                authz_error: authz_error,
                ctor_method: cache.get_instance_method(&ctor_key)?,
            },
        )
    }

    /// What building the foreign form does: a string with the report is
    /// made, the class is looked up, and the object is constructed from the
    /// string.
    pub open spec fn built(
        env: JavaEnvView,
        cache: JniCacheView,
        ctor: JMethodID,
        authz_error: Seq<char>,
    ) -> Effect<JObject> {
        let text = env.next_object();
        let with_text = env.after_new_string(authz_error);
        match cache.class(with_text, JAVA_CLS_NAME@) {
            Err(e) => failed(with_text, e),
            Ok(class) => constructed(with_text, class, ctor, seq![JValue::Object(text)]),
        }
    }

    /// What looking up the handle and then building the foreign form does.
    pub open spec fn sent(env: JavaEnvView, cache: JniCacheView, authz_error: Seq<char>) -> Effect<
        JObject,
    > {
        match Self::handle(cache) {
            Err(e) => failed(env, e),
            Ok(ctor) => Self::built(env, cache, ctor, authz_error),
        }
    }

    /// Builds the foreign form of the error report.
    pub fn as_java_object(&self, env: &mut JavaEnv, cache: &JniCache) -> (res: Result<
        JObject,
        CedarlingBridgeError,
    >)
        ensures
            is_effect(
                res,
                final(env)@,
                Self::built(old(env)@, cache@, self.ctor_method, self.authz_error@),
            ),
    {
        let pid_obj = env.new_string(self.authz_error.as_str());
        let args = one_arg(JValue::Object(pid_obj));
        let class = cache.get_class(env, JAVA_CLS_NAME)?;
        call_jni_object_constructor(env, &class, &self.ctor_method, &args)
    }

    /// Whether the cache holds the class of this converter and every one of
    /// its handles.
    pub open spec fn is_registered(cache: JniCacheView) -> bool {
        &&& cache.classes.contains_key(JAVA_CLS_NAME@)
        &&& cache.methods.contains_key((JAVA_CLS_NAME@, JAVA_CLS_CTOR@, JAVA_CLS_CTOR_SIG@))
    }

    /// A run that has gone through the registration of this converter
    /// without a failure holds every one of its handles, and has dropped
    /// nothing that it held before.
    pub proof fn lemma_registration_holds(reg: Registration, env: JavaEnvView)
        ensures
            Self::registration(reg, env).continues(reg),
            Self::registration(reg, env).failure is None ==> Self::is_registered(
                Self::registration(reg, env).cache,
            ),
    {
        let r0 = reg.class(env, JAVA_CLS_NAME@);
        reg.lemma_class_is_held(env, JAVA_CLS_NAME@);
        let r1 = r0.method(env, JAVA_CLS_NAME@, JAVA_CLS_CTOR@, JAVA_CLS_CTOR_SIG@);
        r0.lemma_method_is_held(env, JAVA_CLS_NAME@, JAVA_CLS_CTOR@, JAVA_CLS_CTOR_SIG@);
    }

    /// What the cache holds for this converter stays when more is registered.
    pub proof fn lemma_registered_stays(earlier: JniCacheView, later: JniCacheView)
        requires
            Self::is_registered(earlier),
            later.extends(earlier),
        ensures
            Self::is_registered(later),
    {
    }

    /// With every handle in the cache, pairing a native value with them
    /// finds them all: it cannot miss.
    pub proof fn lemma_registered_pairs(cache: JniCacheView)
        requires
            Self::is_registered(cache),
        ensures
            Self::handle(cache) is Ok,
    {
    }

    /// With every handle of the bridge in the cache, building the foreign
    /// form never fails on a miss in the cache.
    pub proof fn lemma_builds_without_miss(
        env: JavaEnvView,
        cache: JniCacheView,
        authz_error: Seq<char>,
    )
        requires
            crate::cedarling::is_registered(cache),
        ensures
            !misses(Self::sent(env, cache, authz_error).result),
    {
    }
}

} // verus!
