//! The converter of the decision on one principal, in the output direction.

use crate::cedar_policy::authz_decision::JavaAuthzDecision;
use crate::cedar_policy::diagnostics::JavaDiagnostics;
use crate::engine::response::{Response, ResponseView};
use crate::error::{CedarlingBridgeError, CedarlingBridgeErrorView, misses};
use crate::jni::env::{JMethodID, JObject, JValue, JavaEnv, JavaEnvView};
use crate::jni::jni_cache::{JniCache, JniCacheView, Registration};
use crate::jni::util::{Effect, call_jni_object_constructor, constructed, failed, is_effect};
use crate::jni::util::two_args;
use vstd::prelude::*;

verus! {

pub const JAVA_CLS_NAME: &'static str = "io/jans/cedarling/bridge/cedar/policy/PolicyResponse";

pub const JAVA_CLS_CTOR: &'static str = "<init>";

pub const JAVA_CLS_CTOR_SIG: &'static str =
    "(Lio/jans/cedarling/bridge/cedar/policy/AuthzDecision;Lio/jans/cedarling/bridge/cedar/policy/Diagnostics;)V";

/// A native decision with the handle that builds its foreign form.
#[derive(Clone, Copy, Debug)]
pub struct JavaPolicyResponse<'r> {
    pub policy_response: &'r Response,
    pub ctor_method: JMethodID,
}

impl<'r> JavaPolicyResponse<'r> {
    /// What this converter registers: its class and its constructor.
    pub open spec fn registration(reg: Registration, env: JavaEnvView) -> Registration {
        reg.class(env, JAVA_CLS_NAME@).method(
            env,
            JAVA_CLS_NAME@,
            JAVA_CLS_CTOR@,
            JAVA_CLS_CTOR_SIG@,
        )
    }

    /// Registers the class and its constructor.
    pub fn jni_cache_init(env: &JavaEnv, cache: &mut JniCache) -> (res: Result<
        (),
        CedarlingBridgeError,
    >)
        ensures
            Self::registration(Registration::start(old(cache)@), env@).is_outcome(
                res,
                final(cache)@,
            ),
    {
        cache.add_class(env, JAVA_CLS_NAME)?;
        cache.add_instance_method(env, JAVA_CLS_NAME, JAVA_CLS_CTOR, JAVA_CLS_CTOR_SIG)
    }

    /// The constructor handle as the cache gives it.
    pub open spec fn handle(cache: JniCacheView) -> Result<JMethodID, CedarlingBridgeErrorView> {
        cache.method(JAVA_CLS_NAME@, JAVA_CLS_CTOR@, JAVA_CLS_CTOR_SIG@)
    }

    /// Pairs a decision with the constructor handle from the cache.
    pub fn new(cache: &JniCache, policy_response: &'r Response) -> (res: Result<
        JavaPolicyResponse<'r>,
        CedarlingBridgeError,
    >)
        ensures
            match res {
                Ok(wrapper) => Self::handle(cache@) == Ok::<JMethodID, CedarlingBridgeErrorView>(
                    wrapper.ctor_method,
                ) && wrapper.policy_response == policy_response,
                Err(e) => Self::handle(cache@) == Err::<JMethodID, CedarlingBridgeErrorView>(e@),
            },
    {
        let ctor_key = (JAVA_CLS_NAME, JAVA_CLS_CTOR, JAVA_CLS_CTOR_SIG);
        Ok(
            JavaPolicyResponse {
                policy_response: policy_response,
                ctor_method: cache.get_instance_method(&ctor_key)?,
            },
        )
    }

    /// What building the foreign form does: the class is looked up, the
    /// constant of the decision is read, the diagnostics are built, and the
    /// object is constructed from the two. The parts are built before the
    /// whole.
    pub open spec fn built(
        env: JavaEnvView,
        cache: JniCacheView,
        ctor: JMethodID,
        response: ResponseView,
    ) -> Effect<JObject> {
        match cache.class(env, JAVA_CLS_NAME@) {
            Err(e) => failed(env, e),
            Ok(class) => match JavaAuthzDecision::foreign(env, cache, response.decision) {
                Err(e) => failed(env, e),
                Ok(decision_obj) => {
                    let diagnostics = JavaDiagnostics::sent(env, cache, response.diagnostics);
                    match diagnostics.result {
                        Err(e) => failed(diagnostics.env, e),
                        Ok(diagnostics_obj) => constructed(
                            diagnostics.env,
                            class,
                            ctor,
                            seq![JValue::Object(decision_obj), JValue::Object(diagnostics_obj)],
                        ),
                    }
                },
            },
        }
    }

    /// What looking up the handle and then building the foreign form does.
    pub open spec fn sent(env: JavaEnvView, cache: JniCacheView, response: ResponseView) -> Effect<
        JObject,
    > {
        match Self::handle(cache) {
            Err(e) => failed(env, e),
            Ok(ctor) => Self::built(env, cache, ctor, response),
        }
    }

    /// Builds the foreign form of the decision.
    pub fn as_java_object(&self, env: &mut JavaEnv, cache: &JniCache) -> (res: Result<
        JObject,
        CedarlingBridgeError,
    >)
        ensures
            is_effect(
                res,
                final(env)@,
                Self::built(old(env)@, cache@, self.ctor_method, self.policy_response.deep_view()),
            ),
    {
        let class = cache.get_class(env, JAVA_CLS_NAME)?;
        let decision_obj = JavaAuthzDecision::as_java_object(
            env,
            cache,
            &self.policy_response.decision,
        )?;
        let diagnostics_obj = JavaDiagnostics::new(
            cache,
            &self.policy_response.diagnostics,
        )?.as_java_object(env, cache)?;
        let args = two_args(JValue::Object(decision_obj), JValue::Object(diagnostics_obj));
        call_jni_object_constructor(env, &class, &self.ctor_method, &args)
    }

    /// Whether the cache holds the class of this converter and every one of
    /// its handles.
    pub open spec fn is_registered(cache: JniCacheView) -> bool {
        &&& cache.classes.contains_key(JAVA_CLS_NAME@)
        &&& cache.methods.contains_key((JAVA_CLS_NAME@, JAVA_CLS_CTOR@, JAVA_CLS_CTOR_SIG@))
    }

    /// A run that has gone through the registration of this converter
    /// without a failure holds every one of its handles, and has dropped
    /// nothing that it held before.
    pub proof fn lemma_registration_holds(reg: Registration, env: JavaEnvView)
        ensures
            Self::registration(reg, env).continues(reg),
            Self::registration(reg, env).failure is None ==> Self::is_registered(
                Self::registration(reg, env).cache,
            ),
    {
        let r0 = reg.class(env, JAVA_CLS_NAME@);
        reg.lemma_class_is_held(env, JAVA_CLS_NAME@);
        let r1 = r0.method(env, JAVA_CLS_NAME@, JAVA_CLS_CTOR@, JAVA_CLS_CTOR_SIG@);
        r0.lemma_method_is_held(env, JAVA_CLS_NAME@, JAVA_CLS_CTOR@, JAVA_CLS_CTOR_SIG@);
    }

    /// What the cache holds for this converter stays when more is registered.
    pub proof fn lemma_registered_stays(earlier: JniCacheView, later: JniCacheView)
        requires
            Self::is_registered(earlier),
            later.extends(earlier),
        ensures
            Self::is_registered(later),
    {
    }

    /// With every handle in the cache, pairing a native value with them
    /// finds them all: it cannot miss.
    pub proof fn lemma_registered_pairs(cache: JniCacheView)
        requires
            Self::is_registered(cache),
        ensures
            Self::handle(cache) is Ok,
    {
    }

    /// With every handle of the bridge in the cache, building the foreign
    /// form never fails on a miss in the cache.
    pub proof fn lemma_builds_without_miss(
        env: JavaEnvView,
        cache: JniCacheView,
        response: ResponseView,
    )
        requires
            crate::cedarling::is_registered(cache),
        ensures
            !misses(Self::sent(env, cache, response).result),
    {
        JavaAuthzDecision::lemma_builds_without_miss(env, cache, response.decision);
        JavaDiagnostics::lemma_builds_without_miss(env, cache, response.diagnostics);
    }
}

} // verus!
