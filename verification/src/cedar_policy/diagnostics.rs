//! The converter of diagnostics, in the output direction.

use crate::cedar_policy::authz_error::JavaAuthzError;
use crate::cedar_policy::policy_id::JavaPolicyId;
use crate::engine::response::{Diagnostics, DiagnosticsView};
use crate::error::{CedarlingBridgeError, CedarlingBridgeErrorView, misses};
use crate::jni::env::{JMethodID, JObject, JValue, JavaEnv, JavaEnvView};
use crate::jni::jni_cache::{JniCache, JniCacheView, Registration};
use crate::jni::util::{Effect, call_jni_object_constructor, call_jni_void_method, constructed};
use crate::jni::util::{each_added, failed, invoked, is_effect, no_args, one_arg};
use crate::jni::util::lemma_each_added_never_misses;
use vstd::prelude::*;

verus! {

pub const JAVA_CLS_NAME: &'static str = "io/jans/cedarling/bridge/cedar/policy/Diagnostics";

pub const JAVA_CLS_CTOR: &'static str = "<init>";

pub const JAVA_CLS_CTOR_SIG: &'static str = "()V";

pub const JAVA_METHOD_NAME_ADD_POLICY_ID: &'static str = "addPolicyId";

pub const JAVA_METHOD_SIG_ADD_POLICY_ID: &'static str =
    "(Lio/jans/cedarling/bridge/cedar/policy/PolicyId;)V";

pub const JAVA_METHOD_NAME_ADD_ERROR: &'static str = "addError";

pub const JAVA_METHOD_SIG_ADD_ERROR: &'static str =
    "(Lio/jans/cedarling/bridge/cedar/policy/AuthzError;)V";

/// The handles that build the foreign form of diagnostics.
#[derive(Clone, Copy, Debug)]
pub struct DiagnosticsHandles {
    pub ctor_method: JMethodID,
    pub add_policy_id_method: JMethodID,
    pub add_error_method: JMethodID,
}

/// Native diagnostics with the handles that build their foreign form.
#[derive(Clone, Copy, Debug)]
pub struct JavaDiagnostics<'r> {
    pub diagnostics: &'r Diagnostics,
    pub ctor_method: JMethodID,
    pub add_policy_id_method: JMethodID,
    pub add_error_method: JMethodID,
}

impl<'r> JavaDiagnostics<'r> {
    /// What this converter registers: its class, its constructor and its
    /// two adders.
    pub open spec fn registration(reg: Registration, env: JavaEnvView) -> Registration {
        reg.class(env, JAVA_CLS_NAME@).method(
            env,
            JAVA_CLS_NAME@,
            JAVA_CLS_CTOR@,
            JAVA_CLS_CTOR_SIG@,
        ).method(
            env,
            JAVA_CLS_NAME@,
            JAVA_METHOD_NAME_ADD_POLICY_ID@,
            JAVA_METHOD_SIG_ADD_POLICY_ID@,
        ).method(env, JAVA_CLS_NAME@, JAVA_METHOD_NAME_ADD_ERROR@, JAVA_METHOD_SIG_ADD_ERROR@)
    }

    /// Registers the class, its constructor and its two adders.
    pub fn jni_cache_init(env: &JavaEnv, cache: &mut JniCache) -> (res: Result<
        (),
        CedarlingBridgeError,
    >)
        ensures
            Self::registration(Registration::start(old(cache)@), env@).is_outcome(
                res,
                final(cache)@,
            ),
    {
        cache.add_class(env, JAVA_CLS_NAME)?;
        cache.add_instance_method(env, JAVA_CLS_NAME, JAVA_CLS_CTOR, JAVA_CLS_CTOR_SIG)?;
        cache.add_instance_method(
            env,
            JAVA_CLS_NAME,
            JAVA_METHOD_NAME_ADD_POLICY_ID,
            JAVA_METHOD_SIG_ADD_POLICY_ID,
        )?;
        cache.add_instance_method(
            env,
            JAVA_CLS_NAME,
            JAVA_METHOD_NAME_ADD_ERROR,
            JAVA_METHOD_SIG_ADD_ERROR,
        )
    }

    /// The handles as the cache gives them, or the report of the first that
    /// it does not hold.
    pub open spec fn handles(cache: JniCacheView) -> Result<
        DiagnosticsHandles,
        CedarlingBridgeErrorView,
    > {
        match cache.method(JAVA_CLS_NAME@, JAVA_CLS_CTOR@, JAVA_CLS_CTOR_SIG@) {
            Err(e) => Err(e),
            Ok(ctor_method) => match cache.method(
                JAVA_CLS_NAME@,
                JAVA_METHOD_NAME_ADD_POLICY_ID@,
                JAVA_METHOD_SIG_ADD_POLICY_ID@,
            ) {
                Err(e) => Err(e),
                Ok(add_policy_id_method) => match cache.method(
                    JAVA_CLS_NAME@,
                    JAVA_METHOD_NAME_ADD_ERROR@,
                    JAVA_METHOD_SIG_ADD_ERROR@,
                ) {
                    Err(e) => Err(e),
                    Ok(add_error_method) => Ok(
                        DiagnosticsHandles { ctor_method, add_policy_id_method, add_error_method },
                    ),
                },
            },
        }
    }

    /// The handles that this wrapper holds.
    pub open spec fn own_handles(self) -> DiagnosticsHandles {
        DiagnosticsHandles {
            ctor_method: self.ctor_method,
            add_policy_id_method: self.add_policy_id_method,
            add_error_method: self.add_error_method,
        }
    }

    /// Pairs diagnostics with the handles from the cache.
    pub fn new(cache: &JniCache, diagnostics: &'r Diagnostics) -> (res: Result<
        JavaDiagnostics<'r>,
        CedarlingBridgeError,
    >)
        ensures
            match res {
                Ok(wrapper) => Self::handles(cache@) == Ok::<
                    DiagnosticsHandles,
                    CedarlingBridgeErrorView,
                >(wrapper.own_handles()) && wrapper.diagnostics == diagnostics,
                Err(e) => Self::handles(cache@) == Err::<
                    DiagnosticsHandles,
                    CedarlingBridgeErrorView,
                >(e@),
            },
    {
        let ctor_key = (JAVA_CLS_NAME, JAVA_CLS_CTOR, JAVA_CLS_CTOR_SIG);
        let add_policy_id_key = (
            JAVA_CLS_NAME,
            JAVA_METHOD_NAME_ADD_POLICY_ID,
            JAVA_METHOD_SIG_ADD_POLICY_ID,
        );
        let add_error_key = (JAVA_CLS_NAME, JAVA_METHOD_NAME_ADD_ERROR, JAVA_METHOD_SIG_ADD_ERROR);
        Ok(
            JavaDiagnostics {
                diagnostics: diagnostics,
                ctor_method: cache.get_instance_method(&ctor_key)?,
                add_policy_id_method: cache.get_instance_method(&add_policy_id_key)?,
                add_error_method: cache.get_instance_method(&add_error_key)?,
            },
        )
    }

    /// What adding one policy identifier does: its foreign form is built
    /// and handed to the adder of the diagnostics object.
    pub open spec fn policy_id_added(
        env: JavaEnvView,
        cache: JniCacheView,
        handles: DiagnosticsHandles,
        diagnostics: JObject,
        policy_id: Seq<char>,
    ) -> Effect<()> {
        let built = JavaPolicyId::sent(env, cache, policy_id);
        match built.result {
            Err(e) => failed(built.env, e),
            Ok(pid_obj) => invoked(
                built.env,
                diagnostics,
                handles.add_policy_id_method,
                seq![JValue::Object(pid_obj)],
            ),
        }
    }

    /// What adding one error does: its foreign form is built and handed to
    /// the adder of the diagnostics object.
    pub open spec fn error_added(
        env: JavaEnvView,
        cache: JniCacheView,
        handles: DiagnosticsHandles,
        diagnostics: JObject,
        error: Seq<char>,
    ) -> Effect<()> {
        let built = JavaAuthzError::sent(env, cache, error);
        match built.result {
            Err(e) => failed(built.env, e),
            Ok(err_obj) => invoked(
                built.env,
                diagnostics,
                handles.add_error_method,
                seq![JValue::Object(err_obj)],
            ),
        }
    }

    /// The step that adds one policy identifier.
    pub open spec fn policy_id_adder(
        cache: JniCacheView,
        handles: DiagnosticsHandles,
        diagnostics: JObject,
    ) -> spec_fn(JavaEnvView, Seq<char>) -> Effect<()> {
        |env: JavaEnvView, policy_id: Seq<char>|
            Self::policy_id_added(env, cache, handles, diagnostics, policy_id)
    }

    /// The step that adds one error.
    pub open spec fn error_adder(
        cache: JniCacheView,
        handles: DiagnosticsHandles,
        diagnostics: JObject,
    ) -> spec_fn(JavaEnvView, Seq<char>) -> Effect<()> {
        |env: JavaEnvView, error: Seq<char>|
            Self::error_added(env, cache, handles, diagnostics, error)
    }

    /// What building the foreign form does: the class is looked up and the
    /// object is constructed; then each policy identifier is added, in the
    /// order of the native list, and then each error, in the order of the
    /// native list. The first failure ends the work; what was built before
    /// it stays in the runtime.
    pub open spec fn built(
        env: JavaEnvView,
        cache: JniCacheView,
        handles: DiagnosticsHandles,
        diagnostics: DiagnosticsView,
    ) -> Effect<JObject> {
        match cache.class(env, JAVA_CLS_NAME@) {
            Err(e) => failed(env, e),
            Ok(class) => {
                let made = constructed(env, class, handles.ctor_method, Seq::empty());
                match made.result {
                    Err(e) => failed(made.env, e),
                    Ok(obj) => {
                        let reasons = each_added(
                            made.env,
                            diagnostics.reason,
                            0,
                            Self::policy_id_adder(cache, handles, obj),
                        );
                        match reasons.result {
                            Err(e) => failed(reasons.env, e),
                            Ok(()) => {
                                let errors = each_added(
                                    reasons.env,
                                    diagnostics.errors,
                                    0,
                                    Self::error_adder(cache, handles, obj),
                                );
                                match errors.result {
                                    Err(e) => failed(errors.env, e),
                                    Ok(()) => Effect { env: errors.env, result: Ok(obj) },
                                }
                            },
                        }
                    },
                }
            },
        }
    }

    /// What looking up the handles and then building the foreign form does.
    pub open spec fn sent(
        env: JavaEnvView,
        cache: JniCacheView,
        diagnostics: DiagnosticsView,
    ) -> Effect<
        JObject,
    > {
        match Self::handles(cache) {
            Err(e) => failed(env, e),
            Ok(handles) => Self::built(env, cache, handles, diagnostics),
        }
    }

    /// Builds the foreign form of the diagnostics.
    #[verifier::loop_isolation(false)]
    pub fn as_java_object(&self, env: &mut JavaEnv, cache: &JniCache) -> (res: Result<
        JObject,
        CedarlingBridgeError,
    >)
        ensures
            is_effect(
                res,
                final(env)@,
                Self::built(old(env)@, cache@, self.own_handles(), self.diagnostics.deep_view()),
            ),
    {
        let class = cache.get_class(env, JAVA_CLS_NAME)?;
        let obj = call_jni_object_constructor(env, &class, &self.ctor_method, &no_args())?;
        let ghost made = env@;
        let ghost add_reason = Self::policy_id_adder(cache@, self.own_handles(), obj);
        let ghost add_error = Self::error_adder(cache@, self.own_handles(), obj);
        let mut i: usize = 0;
        while i < self.diagnostics.reason.len()
            invariant
                i <= self.diagnostics.reason.len(),
                each_added(made, self.diagnostics.reason.deep_view(), 0, add_reason) == each_added(
                    env@,
                    self.diagnostics.reason.deep_view(),
                    i as int,
                    add_reason,
                ),
            decreases self.diagnostics.reason.len() - i,
        {
            self.add_policy_id(env, cache, &obj, &self.diagnostics.reason[i])?;
            i += 1;
        }
        let ghost reasons = env@;
        let mut j: usize = 0;
        while j < self.diagnostics.errors.len()
            invariant
                j <= self.diagnostics.errors.len(),
                each_added(reasons, self.diagnostics.errors.deep_view(), 0, add_error)
                    == each_added(env@, self.diagnostics.errors.deep_view(), j as int, add_error),
            decreases self.diagnostics.errors.len() - j,
        {
            self.add_error(env, cache, &obj, &self.diagnostics.errors[j])?;
            j += 1;
        }
        Ok(obj)
    }

    /// Builds the foreign form of a policy identifier and adds it to the
    /// diagnostics object.
    pub fn add_policy_id(
        &self,
        env: &mut JavaEnv,
        cache: &JniCache,
        diagnostics: &JObject,
        policy_id: &String,
    ) -> (res: Result<(), CedarlingBridgeError>)
        ensures
            is_effect(
                res,
                final(env)@,
                Self::policy_id_added(
                    old(env)@,
                    cache@,
                    self.own_handles(),
                    *diagnostics,
                    policy_id@,
                ),
            ),
    {
        let pid_obj = JavaPolicyId::new(cache, policy_id)?.as_java_object(env, cache)?;
        let args = one_arg(JValue::Object(pid_obj));
        call_jni_void_method(env, diagnostics, &self.add_policy_id_method, &args)
    }

    /// Builds the foreign form of an error and adds it to the diagnostics
    /// object.
    pub fn add_error(
        &self,
        env: &mut JavaEnv,
        cache: &JniCache,
        diagnostics: &JObject,
        error: &String,
    ) -> (res: Result<(), CedarlingBridgeError>)
        ensures
            is_effect(
                res,
                final(env)@,
                Self::error_added(old(env)@, cache@, self.own_handles(), *diagnostics, error@),
            ),
    {
        let err_obj = JavaAuthzError::new(cache, error)?.as_java_object(env, cache)?;
        let args = one_arg(JValue::Object(err_obj));
        call_jni_void_method(env, diagnostics, &self.add_error_method, &args)
    }

    /// Whether the cache holds the class of this converter and every one of
    /// its handles.
    pub open spec fn is_registered(cache: JniCacheView) -> bool {
        &&& cache.classes.contains_key(JAVA_CLS_NAME@)
        &&& cache.methods.contains_key((JAVA_CLS_NAME@, JAVA_CLS_CTOR@, JAVA_CLS_CTOR_SIG@))
        &&& cache.methods.contains_key(
            (JAVA_CLS_NAME@, JAVA_METHOD_NAME_ADD_POLICY_ID@, JAVA_METHOD_SIG_ADD_POLICY_ID@),
        )
        &&& cache.methods.contains_key(
            (JAVA_CLS_NAME@, JAVA_METHOD_NAME_ADD_ERROR@, JAVA_METHOD_SIG_ADD_ERROR@),
        )
    }

    /// A run that has gone through the registration of this converter
    /// without a failure holds every one of its handles, and has dropped
    /// nothing that it held before.
    pub proof fn lemma_registration_holds(reg: Registration, env: JavaEnvView)
        ensures
            Self::registration(reg, env).continues(reg),
            Self::registration(reg, env).failure is None ==> Self::is_registered(
                Self::registration(reg, env).cache,
            ),
    {
        let r0 = reg.class(env, JAVA_CLS_NAME@);
        reg.lemma_class_is_held(env, JAVA_CLS_NAME@);
        let r1 = r0.method(env, JAVA_CLS_NAME@, JAVA_CLS_CTOR@, JAVA_CLS_CTOR_SIG@);
        r0.lemma_method_is_held(env, JAVA_CLS_NAME@, JAVA_CLS_CTOR@, JAVA_CLS_CTOR_SIG@);
        let r2 = r1.method(
            env,
            JAVA_CLS_NAME@,
            JAVA_METHOD_NAME_ADD_POLICY_ID@,
            JAVA_METHOD_SIG_ADD_POLICY_ID@,
        );
        r1.lemma_method_is_held(
            env,
            JAVA_CLS_NAME@,
            JAVA_METHOD_NAME_ADD_POLICY_ID@,
            JAVA_METHOD_SIG_ADD_POLICY_ID@,
        );
        let r3 = r2.method(
            env,
            JAVA_CLS_NAME@,
            JAVA_METHOD_NAME_ADD_ERROR@,
            JAVA_METHOD_SIG_ADD_ERROR@,
        );
        r2.lemma_method_is_held(
            env,
            JAVA_CLS_NAME@,
            JAVA_METHOD_NAME_ADD_ERROR@,
            JAVA_METHOD_SIG_ADD_ERROR@,
        );
    }

    /// What the cache holds for this converter stays when more is registered.
    pub proof fn lemma_registered_stays(earlier: JniCacheView, later: JniCacheView)
        requires
            Self::is_registered(earlier),
            later.extends(earlier),
        ensures
            Self::is_registered(later),
    {
    }

    /// With every handle in the cache, pairing a native value with them
    /// finds them all: it cannot miss.
    pub proof fn lemma_registered_pairs(cache: JniCacheView)
        requires
            Self::is_registered(cache),
        ensures
            Self::handles(cache) is Ok,
    {
    }

    /// With every handle of the bridge in the cache, building the foreign
    /// form never fails on a miss in the cache.
    pub proof fn lemma_builds_without_miss(
        env: JavaEnvView,
        cache: JniCacheView,
        diagnostics: DiagnosticsView,
    )
        requires
            crate::cedarling::is_registered(cache),
        ensures
            !misses(Self::sent(env, cache, diagnostics).result),
    {
        if let Ok(handles) = Self::handles(cache) {
            if let Ok(class) = cache.class(env, JAVA_CLS_NAME@) {
                let made = constructed(env, class, handles.ctor_method, Seq::empty());
                if let Ok(obj) = made.result {
                    let add_reason = Self::policy_id_adder(cache, handles, obj);
                    assert forall|before: JavaEnvView, item: Seq<char>| !misses(
                        #[trigger] add_reason(before, item).result,
                    ) by {
                        JavaPolicyId::lemma_builds_without_miss(before, cache, item);
                    }
                    lemma_each_added_never_misses(made.env, diagnostics.reason, 0, add_reason);
                    let reasons = each_added(made.env, diagnostics.reason, 0, add_reason);
                    let add_error = Self::error_adder(cache, handles, obj);
                    assert forall|before: JavaEnvView, item: Seq<char>| !misses(
                        #[trigger] add_error(before, item).result,
                    ) by {
                        JavaAuthzError::lemma_builds_without_miss(before, cache, item);
                    }
                    lemma_each_added_never_misses(reasons.env, diagnostics.errors, 0, add_error);
                }
            }
        }
    }
}

} // verus!
