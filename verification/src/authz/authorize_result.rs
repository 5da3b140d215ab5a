//! The converter of authorization results, in the output direction.

use crate::cedar_policy::policy_response::JavaPolicyResponse;
use crate::engine::response::{AuthorizeResult, AuthorizeResultView, PrincipalResponse};
use crate::engine::response::{PrincipalResponseView, Response, ResponseView};
use crate::error::{CedarlingBridgeError, CedarlingBridgeErrorView, misses};
use crate::jni::env::{JMethodID, JObject, JValue, JavaEnv, JavaEnvView};
use crate::jni::jni_cache::{JniCache, JniCacheView, Registration};
use crate::jni::util::{Effect, call_jni_object_constructor, call_jni_void_method, constructed};
use crate::jni::util::{each_added, failed, invoked, is_effect, no_args, one_arg, two_args};
use crate::jni::util::lemma_each_added_never_misses;
use vstd::prelude::*;

verus! {

pub const JAVA_CLS_NAME: &'static str = "io/jans/cedarling/bridge/authz/AuthorizeResult";

pub const JAVA_CLS_CTOR: &'static str = "<init>";

pub const JAVA_CLS_CTOR_SIG: &'static str = "()V";

pub const JAVA_METHOD_NAME_SET_WORKLOAD: &'static str = "setWorkload";

pub const JAVA_METHOD_SIG_SET_WORKLOAD: &'static str =
    "(Lio/jans/cedarling/bridge/cedar/policy/PolicyResponse;)V";

pub const JAVA_METHOD_NAME_SET_PERSON: &'static str = "setPerson";

pub const JAVA_METHOD_SIG_SET_PERSON: &'static str =
    "(Lio/jans/cedarling/bridge/cedar/policy/PolicyResponse;)V";

pub const JAVA_METHOD_NAME_ADD_PRINCIPAL: &'static str = "addPrincipal";

pub const JAVA_METHOD_SIG_ADD_PRINCIPAL: &'static str =
    "(Ljava/lang/String;Lio/jans/cedarling/bridge/cedar/policy/PolicyResponse;)V";

pub const JAVA_METHOD_NAME_SET_DECISION: &'static str = "setDecision";

pub const JAVA_METHOD_SIG_SET_DECISION: &'static str = "(Z)V";

pub const JAVA_METHOD_NAME_SET_REQUEST_ID: &'static str = "setRequestId";

pub const JAVA_METHOD_SIG_SET_REQUEST_ID: &'static str = "(Ljava/lang/String;)V";

/// The handles that build the foreign form of a result.
#[derive(Clone, Copy, Debug)]
pub struct ResultHandles {
    pub ctor_method: JMethodID,
    pub set_workload_method: JMethodID,
    pub set_person_method: JMethodID,
    pub add_principal_method: JMethodID,
    pub set_decision_method: JMethodID,
    pub set_request_id_method: JMethodID,
}

/// A native result with the handles that build its foreign form.
#[derive(Clone, Copy, Debug)]
pub struct JavaAuthorizeResult<'r> {
    pub authz_result: &'r AuthorizeResult,
    pub ctor_method: JMethodID,
    pub set_workload_method: JMethodID,
    pub set_person_method: JMethodID,
    pub add_principal_method: JMethodID,
    pub set_decision_method: JMethodID,
    pub set_request_id_method: JMethodID,
}

impl<'r> JavaAuthorizeResult<'r> {
    /// What this converter registers: its class, its constructor, its four
    /// setters and its adder.
    pub open spec fn registration(reg: Registration, env: JavaEnvView) -> Registration {
        reg.class(env, JAVA_CLS_NAME@).method(
            env,
            JAVA_CLS_NAME@,
            JAVA_CLS_CTOR@,
            JAVA_CLS_CTOR_SIG@,
        ).method(
            env,
            JAVA_CLS_NAME@,
            JAVA_METHOD_NAME_SET_WORKLOAD@,
            JAVA_METHOD_SIG_SET_WORKLOAD@,
        ).method(
            env,
            JAVA_CLS_NAME@,
            JAVA_METHOD_NAME_SET_PERSON@,
            JAVA_METHOD_SIG_SET_PERSON@,
        ).method(
            env,
            JAVA_CLS_NAME@,
            JAVA_METHOD_NAME_ADD_PRINCIPAL@,
            JAVA_METHOD_SIG_ADD_PRINCIPAL@,
        ).method(
            env,
            JAVA_CLS_NAME@,
            JAVA_METHOD_NAME_SET_DECISION@,
            JAVA_METHOD_SIG_SET_DECISION@,
        ).method(
            env,
            JAVA_CLS_NAME@,
            JAVA_METHOD_NAME_SET_REQUEST_ID@,
            JAVA_METHOD_SIG_SET_REQUEST_ID@,
        )
    }

    /// Registers the class, its constructor, its four setters and its adder.
    pub fn jni_cache_init(env: &JavaEnv, cache: &mut JniCache) -> (res: Result<
        (),
        CedarlingBridgeError,
    >)
        ensures
            Self::registration(Registration::start(old(cache)@), env@).is_outcome(
                res,
                final(cache)@,
            ),
    {
        cache.add_class(env, JAVA_CLS_NAME)?;
        cache.add_instance_method(env, JAVA_CLS_NAME, JAVA_CLS_CTOR, JAVA_CLS_CTOR_SIG)?;
        cache.add_instance_method(
            env,
            JAVA_CLS_NAME,
            JAVA_METHOD_NAME_SET_WORKLOAD,
            JAVA_METHOD_SIG_SET_WORKLOAD,
        )?;
        cache.add_instance_method(
            env,
            JAVA_CLS_NAME,
            JAVA_METHOD_NAME_SET_PERSON,
            JAVA_METHOD_SIG_SET_PERSON,
        )?;
        cache.add_instance_method(
            env,
            JAVA_CLS_NAME,
            JAVA_METHOD_NAME_ADD_PRINCIPAL,
            JAVA_METHOD_SIG_ADD_PRINCIPAL,
        )?;
        cache.add_instance_method(
            env,
            JAVA_CLS_NAME,
            JAVA_METHOD_NAME_SET_DECISION,
            JAVA_METHOD_SIG_SET_DECISION,
        )?;
        cache.add_instance_method(
            env,
            JAVA_CLS_NAME,
            JAVA_METHOD_NAME_SET_REQUEST_ID,
            JAVA_METHOD_SIG_SET_REQUEST_ID,
        )
    }

    /// The handles as the cache gives them, or the report of the first that
    /// it does not hold.
    pub open spec fn handles(
        cache: JniCacheView,
    ) -> Result<ResultHandles, CedarlingBridgeErrorView> {
        match cache.method(JAVA_CLS_NAME@, JAVA_CLS_CTOR@, JAVA_CLS_CTOR_SIG@) {
            Err(e) => Err(e),
            Ok(ctor_method) => match cache.method(
                JAVA_CLS_NAME@,
                JAVA_METHOD_NAME_SET_WORKLOAD@,
                JAVA_METHOD_SIG_SET_WORKLOAD@,
            ) {
                Err(e) => Err(e),
                Ok(set_workload_method) => match cache.method(
                    JAVA_CLS_NAME@,
                    JAVA_METHOD_NAME_SET_PERSON@,
                    JAVA_METHOD_SIG_SET_PERSON@,
                ) {
                    Err(e) => Err(e),
                    Ok(set_person_method) => match cache.method(
                        JAVA_CLS_NAME@,
                        JAVA_METHOD_NAME_ADD_PRINCIPAL@,
                        JAVA_METHOD_SIG_ADD_PRINCIPAL@,
                    ) {
                        Err(e) => Err(e),
                        Ok(add_principal_method) => match cache.method(
                            JAVA_CLS_NAME@,
                            JAVA_METHOD_NAME_SET_DECISION@,
                            JAVA_METHOD_SIG_SET_DECISION@,
                        ) {
                            Err(e) => Err(e),
                            Ok(set_decision_method) => match cache.method(
                                JAVA_CLS_NAME@,
                                JAVA_METHOD_NAME_SET_REQUEST_ID@,
                                JAVA_METHOD_SIG_SET_REQUEST_ID@,
                            ) {
                                Err(e) => Err(e),
                                Ok(set_request_id_method) => Ok(
                                    ResultHandles {
                                        ctor_method,
                                        set_workload_method,
                                        set_person_method,
                                        add_principal_method,
                                        set_decision_method,
                                        set_request_id_method,
                                    },
                                ),
                            },
                        },
                    },
                },
            },
        }
    }

    /// The handles that this wrapper holds.
    pub open spec fn own_handles(self) -> ResultHandles {
        ResultHandles {
            ctor_method: self.ctor_method,
            set_workload_method: self.set_workload_method,
            set_person_method: self.set_person_method,
            add_principal_method: self.add_principal_method,
            set_decision_method: self.set_decision_method,
            set_request_id_method: self.set_request_id_method,
        }
    }

    /// Pairs a result with the handles from the cache.
    pub fn new(cache: &JniCache, authz_result: &'r AuthorizeResult) -> (res: Result<
        JavaAuthorizeResult<'r>,
        CedarlingBridgeError,
    >)
        ensures
            match res {
                Ok(
                    wrapper,
                ) => Self::handles(cache@) == Ok::<ResultHandles, CedarlingBridgeErrorView>(
                    wrapper.own_handles(),
                ) && wrapper.authz_result == authz_result,
                Err(e) => Self::handles(cache@) == Err::<ResultHandles, CedarlingBridgeErrorView>(
                    e@,
                ),
            },
    {
        let ctor_key = (JAVA_CLS_NAME, JAVA_CLS_CTOR, JAVA_CLS_CTOR_SIG);
        let set_workload_key = (
            JAVA_CLS_NAME,
            JAVA_METHOD_NAME_SET_WORKLOAD,
            JAVA_METHOD_SIG_SET_WORKLOAD,
        );
        let set_person_key = (JAVA_CLS_NAME, JAVA_METHOD_NAME_SET_PERSON, JAVA_METHOD_SIG_SET_PERSON);
        let add_principal_key = (
            JAVA_CLS_NAME,
            JAVA_METHOD_NAME_ADD_PRINCIPAL,
            JAVA_METHOD_SIG_ADD_PRINCIPAL,
        );
        let set_decision_key = (
            JAVA_CLS_NAME,
            JAVA_METHOD_NAME_SET_DECISION,
            JAVA_METHOD_SIG_SET_DECISION,
        );
        let set_request_id_key = (
            JAVA_CLS_NAME,
            JAVA_METHOD_NAME_SET_REQUEST_ID,
            JAVA_METHOD_SIG_SET_REQUEST_ID,
        );
        Ok(
            JavaAuthorizeResult {
                authz_result: authz_result,
                ctor_method: cache.get_instance_method(&ctor_key)?,
                set_workload_method: cache.get_instance_method(&set_workload_key)?,
                set_person_method: cache.get_instance_method(&set_person_key)?,
                add_principal_method: cache.get_instance_method(&add_principal_key)?,
                set_decision_method: cache.get_instance_method(&set_decision_key)?,
                set_request_id_method: cache.get_instance_method(&set_request_id_key)?,
            },
        )
    }

    /// What building the foreign form of an optional decision does: the
    /// null reference for none, and nothing changes; else the decision is
    /// built.
    pub open spec fn optional_sent(
        env: JavaEnvView,
        cache: JniCacheView,
        response: Option<ResponseView>,
    ) -> Effect<JObject> {
        match response {
            None => Effect { env, result: Ok(JObject { slot: 0 }) },
            Some(val) => JavaPolicyResponse::sent(env, cache, val),
        }
    }

    /// What setting an optional decision through a setter does: its foreign
    /// form is built, the null reference for none, and handed to the setter.
    pub open spec fn optional_set(
        env: JavaEnvView,
        cache: JniCacheView,
        ar_obj: JObject,
        setter: JMethodID,
        response: Option<ResponseView>,
    ) -> Effect<()> {
        let built = Self::optional_sent(env, cache, response);
        match built.result {
            Err(e) => failed(built.env, e),
            Ok(response_obj) => invoked(
                built.env,
                ar_obj,
                setter,
                seq![JValue::Object(response_obj)],
            ),
        }
    }

    /// Builds the foreign form of an optional decision.
    pub fn send_optional(env: &mut JavaEnv, cache: &JniCache, response: &Option<Response>) -> (res:
        Result<JObject, CedarlingBridgeError>)
        ensures
            is_effect(
                res,
                final(env)@,
                Self::optional_sent(old(env)@, cache@, response.deep_view()),
            ),
    {
        match response {
            Some(val) => JavaPolicyResponse::new(cache, val)?.as_java_object(env, cache),
            None => Ok(JObject::null()),
        }
    }

    /// Sets the decision on the workload.
    pub fn set_workload(&self, env: &mut JavaEnv, cache: &JniCache, ar_obj: &JObject) -> (res:
        Result<(), CedarlingBridgeError>)
        ensures
            is_effect(
                res,
                final(env)@,
                Self::optional_set(
                    old(env)@,
                    cache@,
                    *ar_obj,
                    self.set_workload_method,
                    self.authz_result.workload.deep_view(),
                ),
            ),
    {
        let workload_obj = Self::send_optional(env, cache, &self.authz_result.workload)?;
        let args = one_arg(JValue::Object(workload_obj));
        call_jni_void_method(env, ar_obj, &self.set_workload_method, &args)
    }

    /// Sets the decision on the person.
    pub fn set_person(&self, env: &mut JavaEnv, cache: &JniCache, ar_obj: &JObject) -> (res: Result<
        (),
        CedarlingBridgeError,
    >)
        ensures
            is_effect(
                res,
                final(env)@,
                Self::optional_set(
                    old(env)@,
                    cache@,
                    *ar_obj,
                    self.set_person_method,
                    self.authz_result.person.deep_view(),
                ),
            ),
    {
        let person_obj = Self::send_optional(env, cache, &self.authz_result.person)?;
        let args = one_arg(JValue::Object(person_obj));
        call_jni_void_method(env, ar_obj, &self.set_person_method, &args)
    }

    /// What setting the request identifier does: a string with the
    /// identifier is made and handed to the setter.
    pub open spec fn request_id_set(
        env: JavaEnvView,
        ar_obj: JObject,
        setter: JMethodID,
        request_id: Seq<char>,
    ) -> Effect<()> {
        invoked(
            env.after_new_string(request_id),
            ar_obj,
            setter,
            seq![JValue::Object(env.next_object())],
        )
    }

    /// Sets the request identifier.
    pub fn set_request_id(&self, env: &mut JavaEnv, ar_obj: &JObject) -> (res: Result<
        (),
        CedarlingBridgeError,
    >)
        ensures
            is_effect(
                res,
                final(env)@,
                Self::request_id_set(
                    old(env)@,
                    *ar_obj,
                    self.set_request_id_method,
                    self.authz_result.request_id@,
                ),
            ),
    {
        let req_id_obj = env.new_string(self.authz_result.request_id.as_str());
        let args = one_arg(JValue::Object(req_id_obj));
        call_jni_void_method(env, ar_obj, &self.set_request_id_method, &args)
    }

    /// What adding one named principal does: a string with the name is
    /// made, the decision is built, and both are handed to the adder.
    pub open spec fn principal_added(
        env: JavaEnvView,
        cache: JniCacheView,
        ar_obj: JObject,
        adder: JMethodID,
        principal: PrincipalResponseView,
    ) -> Effect<()> {
        let key_obj = env.next_object();
        let built = JavaPolicyResponse::sent(
            env.after_new_string(principal.name),
            cache,
            principal.response,
        );
        match built.result {
            Err(e) => failed(built.env, e),
            Ok(response_obj) => invoked(
                built.env,
                ar_obj,
                adder,
                seq![JValue::Object(key_obj), JValue::Object(response_obj)],
            ),
        }
    }

    /// The step that adds one named principal.
    pub open spec fn principal_adder(
        cache: JniCacheView,
        ar_obj: JObject,
        adder: JMethodID,
    ) -> spec_fn(
        JavaEnvView,
        PrincipalResponseView,
    ) -> Effect<()> {
        |env: JavaEnvView, principal: PrincipalResponseView|
            Self::principal_added(env, cache, ar_obj, adder, principal)
    }

    /// What adding the named principals does: one by one, in the order of
    /// the native list.
    pub open spec fn principals_set(
        env: JavaEnvView,
        cache: JniCacheView,
        ar_obj: JObject,
        adder: JMethodID,
        principals: Seq<PrincipalResponseView>,
    ) -> Effect<()> {
        each_added(env, principals, 0, Self::principal_adder(cache, ar_obj, adder))
    }

    /// Builds the foreign form of one named principal and adds it.
    pub fn add_principal(
        &self,
        env: &mut JavaEnv,
        cache: &JniCache,
        ar_obj: &JObject,
        principal: &PrincipalResponse,
    ) -> (res: Result<(), CedarlingBridgeError>)
        ensures
            is_effect(
                res,
                final(env)@,
                Self::principal_added(
                    old(env)@,
                    cache@,
                    *ar_obj,
                    self.add_principal_method,
                    principal.deep_view(),
                ),
            ),
    {
        let key_obj = env.new_string(principal.name.as_str());
        let response_obj = JavaPolicyResponse::new(cache, &principal.response)?.as_java_object(
            env,
            cache,
        )?;
        let args = two_args(JValue::Object(key_obj), JValue::Object(response_obj));
        call_jni_void_method(env, ar_obj, &self.add_principal_method, &args)
    }

    /// Adds the named principals.
    #[verifier::loop_isolation(false)]
    pub fn set_principals(&self, env: &mut JavaEnv, cache: &JniCache, ar_obj: &JObject) -> (res:
        Result<(), CedarlingBridgeError>)
        ensures
            is_effect(
                res,
                final(env)@,
                Self::principals_set(
                    old(env)@,
                    cache@,
                    *ar_obj,
                    self.add_principal_method,
                    self.authz_result.principals.deep_view(),
                ),
            ),
    {
        let ghost hand_over = Self::principal_adder(cache@, *ar_obj, self.add_principal_method);
        let mut i: usize = 0;
        while i < self.authz_result.principals.len()
            invariant
                i <= self.authz_result.principals.len(),
                each_added(old(env)@, self.authz_result.principals.deep_view(), 0, hand_over)
                    == each_added(
                    env@,
                    self.authz_result.principals.deep_view(),
                    i as int,
                    hand_over,
                ),
            decreases self.authz_result.principals.len() - i,
        {
            self.add_principal(env, cache, ar_obj, &self.authz_result.principals[i])?;
            i += 1;
        }
        Ok(())
    }

    /// What setting the overall decision does: the flag is handed to the
    /// setter.
    pub open spec fn decision_set(
        env: JavaEnvView,
        ar_obj: JObject,
        setter: JMethodID,
        decision: bool,
    ) -> Effect<()> {
        invoked(env, ar_obj, setter, seq![JValue::Bool(decision)])
    }

    /// Sets the overall decision.
    pub fn set_decision(&self, env: &mut JavaEnv, ar_obj: &JObject) -> (res: Result<
        (),
        CedarlingBridgeError,
    >)
        ensures
            is_effect(
                res,
                final(env)@,
                Self::decision_set(
                    old(env)@,
                    *ar_obj,
                    self.set_decision_method,
                    self.authz_result.decision,
                ),
            ),
    {
        let args = one_arg(JValue::Bool(self.authz_result.decision));
        call_jni_void_method(env, ar_obj, &self.set_decision_method, &args)
    }

    /// What building the foreign form does: the class is looked up and the
    /// object is constructed; then person, workload, named principals,
    /// request identifier and overall decision are set, in this order, each
    /// part built before it is attached. The first failure ends the work;
    /// what was built before it stays in the runtime.
    pub open spec fn built(
        env: JavaEnvView,
        cache: JniCacheView,
        handles: ResultHandles,
        result: AuthorizeResultView,
    ) -> Effect<JObject> {
        match cache.class(env, JAVA_CLS_NAME@) {
            Err(e) => failed(env, e),
            Ok(class) => {
                let made = constructed(env, class, handles.ctor_method, Seq::empty());
                match made.result {
                    Err(e) => failed(made.env, e),
                    Ok(obj) => {
                        let person = Self::optional_set(
                            made.env,
                            cache,
                            obj,
                            handles.set_person_method,
                            result.person,
                        );
                        match person.result {
                            Err(e) => failed(person.env, e),
                            Ok(()) => {
                                let workload = Self::optional_set(
                                    person.env,
                                    cache,
                                    obj,
                                    handles.set_workload_method,
                                    result.workload,
                                );
                                match workload.result {
                                    Err(e) => failed(workload.env, e),
                                    Ok(()) => Self::built_rest(
                                        workload.env,
                                        cache,
                                        handles,
                                        result,
                                        obj,
                                    ),
                                }
                            },
                        }
                    },
                }
            },
        }
    }

    /// The second half of [`Self::built`]: what follows the decision on the
    /// workload.
    pub open spec fn built_rest(
        env: JavaEnvView,
        cache: JniCacheView,
        handles: ResultHandles,
        result: AuthorizeResultView,
        obj: JObject,
    ) -> Effect<JObject> {
        let principals = Self::principals_set(
            env,
            cache,
            obj,
            handles.add_principal_method,
            result.principals,
        );
        match principals.result {
            Err(e) => failed(principals.env, e),
            Ok(()) => {
                let request_id = Self::request_id_set(
                    principals.env,
                    obj,
                    handles.set_request_id_method,
                    result.request_id,
                );
                match request_id.result {
                    Err(e) => failed(request_id.env, e),
                    Ok(()) => {
                        let decision = Self::decision_set(
                            request_id.env,
                            obj,
                            handles.set_decision_method,
                            result.decision,
                        );
                        match decision.result {
                            Err(e) => failed(decision.env, e),
                            Ok(()) => Effect { env: decision.env, result: Ok(obj) },
                        }
                    },
                }
            },
        }
    }

    /// What looking up the handles and then building the foreign form does.
    pub open spec fn sent(
        env: JavaEnvView,
        cache: JniCacheView,
        result: AuthorizeResultView,
    ) -> Effect<
        JObject,
    > {
        match Self::handles(cache) {
            Err(e) => failed(env, e),
            Ok(handles) => Self::built(env, cache, handles, result),
        }
    }

    /// Builds the foreign form of the result.
    pub fn as_java_object(&self, env: &mut JavaEnv, cache: &JniCache) -> (res: Result<
        JObject,
        CedarlingBridgeError,
    >)
        ensures
            is_effect(
                res,
                final(env)@,
                Self::built(old(env)@, cache@, self.own_handles(), self.authz_result.deep_view()),
            ),
    {
        let class = cache.get_class(env, JAVA_CLS_NAME)?;
        let obj = call_jni_object_constructor(env, &class, &self.ctor_method, &no_args())?;
        self.set_person(env, cache, &obj)?;
        self.set_workload(env, cache, &obj)?;
        self.set_principals(env, cache, &obj)?;
        self.set_request_id(env, &obj)?;
        self.set_decision(env, &obj)?;
        Ok(obj)
    }

    /// Whether the cache holds the class of this converter and every one of
    /// its handles.
    pub open spec fn is_registered(cache: JniCacheView) -> bool {
        &&& cache.classes.contains_key(JAVA_CLS_NAME@)
        &&& cache.methods.contains_key((JAVA_CLS_NAME@, JAVA_CLS_CTOR@, JAVA_CLS_CTOR_SIG@))
        &&& cache.methods.contains_key(
            (JAVA_CLS_NAME@, JAVA_METHOD_NAME_SET_WORKLOAD@, JAVA_METHOD_SIG_SET_WORKLOAD@),
        )
        &&& cache.methods.contains_key(
            (JAVA_CLS_NAME@, JAVA_METHOD_NAME_SET_PERSON@, JAVA_METHOD_SIG_SET_PERSON@),
        )
        &&& cache.methods.contains_key(
            (JAVA_CLS_NAME@, JAVA_METHOD_NAME_ADD_PRINCIPAL@, JAVA_METHOD_SIG_ADD_PRINCIPAL@),
        )
        &&& cache.methods.contains_key(
            (JAVA_CLS_NAME@, JAVA_METHOD_NAME_SET_DECISION@, JAVA_METHOD_SIG_SET_DECISION@),
        )
        &&& cache.methods.contains_key(
            (JAVA_CLS_NAME@, JAVA_METHOD_NAME_SET_REQUEST_ID@, JAVA_METHOD_SIG_SET_REQUEST_ID@),
        )
    }

    /// A run that has gone through the registration of this converter
    /// without a failure holds every one of its handles, and has dropped
    /// nothing that it held before.
    pub proof fn lemma_registration_holds(reg: Registration, env: JavaEnvView)
        ensures
            Self::registration(reg, env).continues(reg),
            Self::registration(reg, env).failure is None ==> Self::is_registered(
                Self::registration(reg, env).cache,
            ),
    {
        let r0 = reg.class(env, JAVA_CLS_NAME@);
        reg.lemma_class_is_held(env, JAVA_CLS_NAME@);
        let r1 = r0.method(env, JAVA_CLS_NAME@, JAVA_CLS_CTOR@, JAVA_CLS_CTOR_SIG@);
        r0.lemma_method_is_held(env, JAVA_CLS_NAME@, JAVA_CLS_CTOR@, JAVA_CLS_CTOR_SIG@);
        let r2 = r1.method(
            env,
            JAVA_CLS_NAME@,
            JAVA_METHOD_NAME_SET_WORKLOAD@,
            JAVA_METHOD_SIG_SET_WORKLOAD@,
        );
        r1.lemma_method_is_held(
            env,
            JAVA_CLS_NAME@,
            JAVA_METHOD_NAME_SET_WORKLOAD@,
            JAVA_METHOD_SIG_SET_WORKLOAD@,
        );
        let r3 = r2.method(
            env,
            JAVA_CLS_NAME@,
            JAVA_METHOD_NAME_SET_PERSON@,
            JAVA_METHOD_SIG_SET_PERSON@,
        );
        r2.lemma_method_is_held(
            env,
            JAVA_CLS_NAME@,
            JAVA_METHOD_NAME_SET_PERSON@,
            JAVA_METHOD_SIG_SET_PERSON@,
        );
        let r4 = r3.method(
            env,
            JAVA_CLS_NAME@,
            JAVA_METHOD_NAME_ADD_PRINCIPAL@,
            JAVA_METHOD_SIG_ADD_PRINCIPAL@,
        );
        r3.lemma_method_is_held(
            env,
            JAVA_CLS_NAME@,
            JAVA_METHOD_NAME_ADD_PRINCIPAL@,
            JAVA_METHOD_SIG_ADD_PRINCIPAL@,
        );
        let r5 = r4.method(
            env,
            JAVA_CLS_NAME@,
            JAVA_METHOD_NAME_SET_DECISION@,
            JAVA_METHOD_SIG_SET_DECISION@,
        );
        r4.lemma_method_is_held(
            env,
            JAVA_CLS_NAME@,
            JAVA_METHOD_NAME_SET_DECISION@,
            JAVA_METHOD_SIG_SET_DECISION@,
        );
        let r6 = r5.method(
            env,
            JAVA_CLS_NAME@,
            JAVA_METHOD_NAME_SET_REQUEST_ID@,
            JAVA_METHOD_SIG_SET_REQUEST_ID@,
        );
        r5.lemma_method_is_held(
            env,
            JAVA_CLS_NAME@,
            JAVA_METHOD_NAME_SET_REQUEST_ID@,
            JAVA_METHOD_SIG_SET_REQUEST_ID@,
        );
    }

    /// What the cache holds for this converter stays when more is registered.
    pub proof fn lemma_registered_stays(earlier: JniCacheView, later: JniCacheView)
        requires
            Self::is_registered(earlier),
            later.extends(earlier),
        ensures
            Self::is_registered(later),
    {
    }

    /// With every handle in the cache, pairing a native value with them
    /// finds them all: it cannot miss.
    pub proof fn lemma_registered_pairs(cache: JniCacheView)
        requires
            Self::is_registered(cache),
        ensures
            Self::handles(cache) is Ok,
    {
    }

    /// With every handle of the bridge in the cache, building the foreign
    /// form never fails on a miss in the cache.
    pub proof fn lemma_builds_without_miss(
        env: JavaEnvView,
        cache: JniCacheView,
        result: AuthorizeResultView,
    )
        requires
            crate::cedarling::is_registered(cache),
        ensures
            !misses(Self::sent(env, cache, result).result),
    {
        if let Ok(handles) = Self::handles(cache) {
            if let Ok(class) = cache.class(env, JAVA_CLS_NAME@) {
                let made = constructed(env, class, handles.ctor_method, Seq::empty());
                if let Ok(obj) = made.result {
                    if let Some(person) = result.person {
                        JavaPolicyResponse::lemma_builds_without_miss(made.env, cache, person);
                    }
                    let person = Self::optional_set(
                        made.env,
                        cache,
                        obj,
                        handles.set_person_method,
                        result.person,
                    );
                    if let Some(workload) = result.workload {
                        JavaPolicyResponse::lemma_builds_without_miss(person.env, cache, workload);
                    }
                    let workload = Self::optional_set(
                        person.env,
                        cache,
                        obj,
                        handles.set_workload_method,
                        result.workload,
                    );
                    let hand_over = Self::principal_adder(cache, obj, handles.add_principal_method);
                    assert forall|before: JavaEnvView, item: PrincipalResponseView| !misses(
                        #[trigger] hand_over(before, item).result,
                    ) by {
                        JavaPolicyResponse::lemma_builds_without_miss(
                            before.after_new_string(item.name),
                            cache,
                            item.response,
                        );
                    }
                    lemma_each_added_never_misses(workload.env, result.principals, 0, hand_over);
                }
            }
        }
    }
}

} // verus!
