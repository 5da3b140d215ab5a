//! The converter of requests that list their principals as entities.

use crate::authz::context::JavaContext;
use crate::authz::entity_data::JavaEntityData;
use crate::engine::request::{EntityData, EntityDataView, RequestUnsigned, RequestUnsignedView};
use crate::error::{CedarlingBridgeError, CedarlingBridgeErrorView, is_result, is_result_of, misses};
use crate::jni::env::{JMethodID, JObject, JavaEnv, JavaEnvView};
use crate::jni::jni_cache::{JniCache, JniCacheView, Registration};
use crate::jni::list::JavaList;
use crate::jni::util::{call_jni_object_method, call_jni_string_method, lemma_reads_never_miss};
use crate::jni::util::{no_args, null_element, null_element_error, object_result, require_some};
use crate::jni::util::{required_of, string_result};
use vstd::prelude::*;

verus! {

pub const JAVA_CLS_NAME: &'static str = "io/jans/cedarling/bridge/authz/AuthorizeRequestUnsigned";

pub const JAVA_METHOD_NAME_GET_PRINCIPALS: &'static str = "getPrincipals";

pub const JAVA_METHOD_SIG_GET_PRINCIPALS: &'static str = "()Ljava/util/List;";

pub const JAVA_METHOD_NAME_GET_ACTION: &'static str = "getAction";

pub const JAVA_METHOD_SIG_GET_ACTION: &'static str = "()Ljava/lang/String;";

pub const JAVA_METHOD_NAME_GET_RESOURCE: &'static str = "getResource";

pub const JAVA_METHOD_SIG_GET_RESOURCE: &'static str =
    "()Lio/jans/cedarling/bridge/authz/EntityData;";

pub const JAVA_METHOD_NAME_GET_CONTEXT: &'static str = "getContext";

pub const JAVA_METHOD_SIG_GET_CONTEXT: &'static str = "()Lio/jans/cedarling/bridge/authz/Context;";

pub const PRINCIPALS_FIELD: &'static str = "principals";

pub const NULL_PRINCIPAL: &'static str = "null principal specified in unsigned authorization request";

/// A foreign unsigned request with the handles that read it.
#[derive(Clone, Copy, Debug)]
pub struct JavaAuthorizeRequestUnsigned {
    pub jobj: JObject,
    pub get_principals_method: JMethodID,
    pub get_action_method: JMethodID,
    pub get_resource_method: JMethodID,
    pub get_context_method: JMethodID,
}

impl JavaAuthorizeRequestUnsigned {
    /// What this converter registers: its class, then each of its methods.
    pub open spec fn registration(reg: Registration, env: JavaEnvView) -> Registration {
        reg.class(env, JAVA_CLS_NAME@)
            .method(
                env,
                JAVA_CLS_NAME@,
                JAVA_METHOD_NAME_GET_PRINCIPALS@,
                JAVA_METHOD_SIG_GET_PRINCIPALS@,
            )
            .method(
                env,
                JAVA_CLS_NAME@,
                JAVA_METHOD_NAME_GET_ACTION@,
                JAVA_METHOD_SIG_GET_ACTION@,
            )
            .method(
                env,
                JAVA_CLS_NAME@,
                JAVA_METHOD_NAME_GET_RESOURCE@,
                JAVA_METHOD_SIG_GET_RESOURCE@,
            )
            .method(
                env,
                JAVA_CLS_NAME@,
                JAVA_METHOD_NAME_GET_CONTEXT@,
                JAVA_METHOD_SIG_GET_CONTEXT@,
            )
    }

    /// Registers the class and its methods; stops at the first that the
    /// runtime cannot resolve.
    pub fn jni_cache_init(env: &JavaEnv, cache: &mut JniCache) -> (res: Result<
        (),
        CedarlingBridgeError,
    >)
        ensures
            Self::registration(Registration::start(old(cache)@), env@).is_outcome(
                res,
                final(cache)@,
            ),
    {
        cache.add_class(env, JAVA_CLS_NAME)?;
        cache.add_instance_method(
            env,
            JAVA_CLS_NAME,
            JAVA_METHOD_NAME_GET_PRINCIPALS,
            JAVA_METHOD_SIG_GET_PRINCIPALS,
        )?;
        cache.add_instance_method(
            env,
            JAVA_CLS_NAME,
            JAVA_METHOD_NAME_GET_ACTION,
            JAVA_METHOD_SIG_GET_ACTION,
        )?;
        cache.add_instance_method(
            env,
            JAVA_CLS_NAME,
            JAVA_METHOD_NAME_GET_RESOURCE,
            JAVA_METHOD_SIG_GET_RESOURCE,
        )?;
        cache.add_instance_method(
            env,
            JAVA_CLS_NAME,
            JAVA_METHOD_NAME_GET_CONTEXT,
            JAVA_METHOD_SIG_GET_CONTEXT,
        )
    }

    /// What wrapping a foreign object gives: nothing for the null reference,
    /// else the object with its handles from the cache, or the report of the
    /// first handle that the cache does not hold.
    pub open spec fn wrapped(cache: JniCacheView, jobj: JObject) -> Result<
        Option<JavaAuthorizeRequestUnsigned>,
        CedarlingBridgeErrorView,
    > {
        if jobj.is_null() {
            Ok(None)
        } else {
            match cache.method(
                JAVA_CLS_NAME@,
                JAVA_METHOD_NAME_GET_PRINCIPALS@,
                JAVA_METHOD_SIG_GET_PRINCIPALS@,
            ) {
                Err(e) => Err(e),
                Ok(get_principals_method) => match cache.method(
                    JAVA_CLS_NAME@,
                    JAVA_METHOD_NAME_GET_ACTION@,
                    JAVA_METHOD_SIG_GET_ACTION@,
                ) {
                    Err(e) => Err(e),
                    Ok(get_action_method) => match cache.method(
                        JAVA_CLS_NAME@,
                        JAVA_METHOD_NAME_GET_RESOURCE@,
                        JAVA_METHOD_SIG_GET_RESOURCE@,
                    ) {
                        Err(e) => Err(e),
                        Ok(get_resource_method) => match cache.method(
                            JAVA_CLS_NAME@,
                            JAVA_METHOD_NAME_GET_CONTEXT@,
                            JAVA_METHOD_SIG_GET_CONTEXT@,
                        ) {
                            Err(e) => Err(e),
                            Ok(get_context_method) => Ok(
                                Some(
                                    JavaAuthorizeRequestUnsigned {
                                        jobj,
                                        get_principals_method,
                                        get_action_method,
                                        get_resource_method,
                                        get_context_method,
                                    },
                                ),
                            ),
                        },
                    },
                },
            }
        }
    }

    /// Wraps a foreign object.
    pub fn new(cache: &JniCache, jobj: JObject) -> (res: Result<
        Option<JavaAuthorizeRequestUnsigned>,
        CedarlingBridgeError,
    >)
        ensures
            is_result(res, Self::wrapped(cache@, jobj)),
    {
        if jobj.is_null() {
            return Ok(None);
        }
        let get_principals_key = (
            JAVA_CLS_NAME,
            JAVA_METHOD_NAME_GET_PRINCIPALS,
            JAVA_METHOD_SIG_GET_PRINCIPALS,
        );
        let get_action_key = (
            JAVA_CLS_NAME,
            JAVA_METHOD_NAME_GET_ACTION,
            JAVA_METHOD_SIG_GET_ACTION,
        );
        let get_resource_key = (
            JAVA_CLS_NAME,
            JAVA_METHOD_NAME_GET_RESOURCE,
            JAVA_METHOD_SIG_GET_RESOURCE,
        );
        let get_context_key = (
            JAVA_CLS_NAME,
            JAVA_METHOD_NAME_GET_CONTEXT,
            JAVA_METHOD_SIG_GET_CONTEXT,
        );
        Ok(
            Some(
                JavaAuthorizeRequestUnsigned {
                    jobj: jobj,
                    get_principals_method: cache.get_instance_method(&get_principals_key)?,
                    get_action_method: cache.get_instance_method(&get_action_key)?,
                    get_resource_method: cache.get_instance_method(&get_resource_key)?,
                    get_context_method: cache.get_instance_method(&get_context_key)?,
                },
            ),
        )
    }

    /// What asking the object for `getPrincipals` gives: the object that
    /// comes back, wrapped.
    pub open spec fn spec_get_principals(self, env: JavaEnvView, cache: JniCacheView) -> Result<
        Option<JavaList>,
        CedarlingBridgeErrorView,
    > {
        match object_result(env, self.jobj, self.get_principals_method, Seq::empty()) {
            Err(e) => Err(e),
            Ok(obj) => JavaList::wrapped(cache, obj),
        }
    }

    /// Asks the object for `getPrincipals`.
    pub fn get_principals(&self, env: &JavaEnv, cache: &JniCache) -> (res: Result<
        Option<JavaList>,
        CedarlingBridgeError,
    >)
        ensures
            is_result(res, self.spec_get_principals(env@, cache@)),
    {
        let obj = call_jni_object_method(
            env,
            &self.jobj,
            &self.get_principals_method,
            &no_args(),
        )?;
        JavaList::new(cache, obj)
    }

    /// What asking the object for `getAction` gives.
    pub open spec fn spec_get_action(self, env: JavaEnvView) -> Result<
        Option<Seq<char>>,
        CedarlingBridgeErrorView,
    > {
        string_result(env, self.jobj, self.get_action_method, Seq::empty())
    }

    /// Asks the object for `getAction`.
    pub fn get_action(&self, env: &JavaEnv) -> (res: Result<
        Option<String>,
        CedarlingBridgeError,
    >)
        ensures
            is_result_of(res, self.spec_get_action(env@)),
    {
        call_jni_string_method(env, &self.jobj, &self.get_action_method, &no_args())
    }

    /// What asking the object for `getResource` gives: the object that
    /// comes back, wrapped.
    pub open spec fn spec_get_resource(self, env: JavaEnvView, cache: JniCacheView) -> Result<
        Option<JavaEntityData>,
        CedarlingBridgeErrorView,
    > {
        match object_result(env, self.jobj, self.get_resource_method, Seq::empty()) {
            Err(e) => Err(e),
            Ok(obj) => JavaEntityData::wrapped(cache, obj),
        }
    }

    /// Asks the object for `getResource`.
    pub fn get_resource(&self, env: &JavaEnv, cache: &JniCache) -> (res: Result<
        Option<JavaEntityData>,
        CedarlingBridgeError,
    >)
        ensures
            is_result(res, self.spec_get_resource(env@, cache@)),
    {
        let obj = call_jni_object_method(
            env,
            &self.jobj,
            &self.get_resource_method,
            &no_args(),
        )?;
        JavaEntityData::new(cache, obj)
    }

    /// What asking the object for `getContext` gives: the object that
    /// comes back, wrapped.
    pub open spec fn spec_get_context(self, env: JavaEnvView, cache: JniCacheView) -> Result<
        Option<JavaContext>,
        CedarlingBridgeErrorView,
    > {
        match object_result(env, self.jobj, self.get_context_method, Seq::empty()) {
            Err(e) => Err(e),
            Ok(obj) => JavaContext::wrapped(cache, obj),
        }
    }

    /// Asks the object for `getContext`.
    pub fn get_context(&self, env: &JavaEnv, cache: &JniCache) -> (res: Result<
        Option<JavaContext>,
        CedarlingBridgeError,
    >)
        ensures
            is_result(res, self.spec_get_context(env@, cache@)),
    {
        let obj = call_jni_object_method(
            env,
            &self.jobj,
            &self.get_context_method,
            &no_args(),
        )?;
        JavaContext::new(cache, obj)
    }


    /// The principal that an element of the list stands for: the element
    /// must not be null, and is converted as an entity.
    pub open spec fn principal_of(
        env: JavaEnvView,
        cache: JniCacheView,
        index: i32,
        principal_obj: JObject,
    ) -> Result<EntityDataView, CedarlingBridgeErrorView> {
        match JavaEntityData::wrapped(cache, principal_obj) {
            Err(e) => Err(e),
            Ok(None) => Err(null_element(NULL_PRINCIPAL@, PRINCIPALS_FIELD@, index)),
            Ok(Some(principal)) => principal.converted(env, cache),
        }
    }

    /// The conversion of one element of the list of principals.
    pub open spec fn principal_converter(env: JavaEnvView, cache: JniCacheView) -> spec_fn(
        i32,
        JObject,
    ) -> Result<EntityDataView, CedarlingBridgeErrorView> {
        |index: i32, principal_obj: JObject| Self::principal_of(env, cache, index, principal_obj)
    }

    /// The principals of the request: the list is required, and its
    /// elements are converted in the order of the list. One failure fails
    /// the whole.
    pub open spec fn principals_of(self, env: JavaEnvView, cache: JniCacheView) -> Result<
        Seq<EntityDataView>,
        CedarlingBridgeErrorView,
    > {
        match required_of(self.spec_get_principals(env, cache), JAVA_CLS_NAME@, PRINCIPALS_FIELD@) {
            Err(e) => Err(e),
            Ok(list) => list.collect(env, Self::principal_converter(env, cache)),
        }
    }

    /// Reads and converts the principals of the request.
    #[verifier::loop_isolation(false)]
    pub fn get_cedarling_principals(&self, env: &JavaEnv, cache: &JniCache) -> (res: Result<
        Vec<EntityData>,
        CedarlingBridgeError,
    >)
        ensures
            is_result_of(res, self.principals_of(env@, cache@)),
    {
        let principals_list = require_some(
            self.get_principals(env, cache)?,
            JAVA_CLS_NAME,
            PRINCIPALS_FIELD,
        )?;
        let principals_count = principals_list.size(env)?;
        let ghost convert = Self::principal_converter(env@, cache@);
        let mut ret: Vec<EntityData> = Vec::new();
        let mut i: i32 = 0;
        proof {
            principals_list.lemma_progress_start(env@, convert, principals_count);
        }
        while i < principals_count
            invariant
                0 <= i,
                principals_list.is_progress(
                    env@,
                    convert,
                    principals_count,
                    i as int,
                    ret.deep_view(),
                ),
            decreases principals_count - i,
        {
            let principal_obj = principals_list.get(env, i)?;
            let principal = match JavaEntityData::new(cache, principal_obj)? {
                Some(principal) => principal,
                None => {
                    return Err(null_element_error(NULL_PRINCIPAL, PRINCIPALS_FIELD, i));
                },
            };
            let entity = principal.as_cedarling_entity_data(env, cache)?;
            proof {
                principals_list.lemma_progress_step(
                    env@,
                    convert,
                    principals_count,
                    i as int,
                    ret.deep_view(),
                    principal_obj,
                    entity.deep_view(),
                );
            }
            let ghost before = ret.deep_view();
            ret.push(entity);
            assert(ret.deep_view() =~= before.push(entity.deep_view()));
            i += 1;
        }
        proof {
            principals_list.lemma_progress_end(
                env@,
                convert,
                principals_count,
                i as int,
                ret.deep_view(),
            );
        }
        Ok(ret)
    }

    /// The native request that the object stands for: its principals, then
    /// action, resource and context, each of which is required. The first
    /// failure is the result.
    pub open spec fn converted(self, env: JavaEnvView, cache: JniCacheView) -> Result<
        RequestUnsignedView,
        CedarlingBridgeErrorView,
    > {
        match self.principals_of(env, cache) {
            Err(e) => Err(e),
            Ok(principals) => match required_of(
                self.spec_get_action(env),
                JAVA_CLS_NAME@,
                "action"@,
            ) {
                Err(e) => Err(e),
                Ok(action) => match required_of(
                    self.spec_get_resource(env, cache),
                    JAVA_CLS_NAME@,
                    "resource"@,
                ) {
                    Err(e) => Err(e),
                    Ok(resource_obj) => match resource_obj.converted(env, cache) {
                        Err(e) => Err(e),
                        Ok(resource) => match required_of(
                            self.spec_get_context(env, cache),
                            JAVA_CLS_NAME@,
                            "context"@,
                        ) {
                            Err(e) => Err(e),
                            Ok(context_obj) => match context_obj.converted(env) {
                                Err(e) => Err(e),
                                Ok(context) => Ok(
                                    RequestUnsignedView { principals, action, resource, context },
                                ),
                            },
                        },
                    },
                },
            },
        }
    }

    /// Converts the request.
    pub fn as_cedarling_authz_request_unsigned(&self, env: &JavaEnv, cache: &JniCache) -> (res:
        Result<RequestUnsigned, CedarlingBridgeError>)
        ensures
            is_result_of(res, self.converted(env@, cache@)),
    {
        let principals = self.get_cedarling_principals(env, cache)?;
        let action = require_some(self.get_action(env)?, JAVA_CLS_NAME, "action")?;
        let resource = {
            let resource_obj = require_some(
                self.get_resource(env, cache)?,
                JAVA_CLS_NAME,
                "resource",
            )?;
            resource_obj.as_cedarling_entity_data(env, cache)?
        };
        let context = {
            let context_obj = require_some(
                self.get_context(env, cache)?,
                JAVA_CLS_NAME,
                "context",
            )?;
            context_obj.as_cedarling_context(env)?
        };
        Ok(
            RequestUnsigned {
                principals: principals,
                action: action,
                resource: resource,
                context: context,
            },
        )
    }

    /// Whether the cache holds the class of this converter and every one of
    /// its handles.
    pub open spec fn is_registered(cache: JniCacheView) -> bool {
        &&& cache.classes.contains_key(JAVA_CLS_NAME@)
        &&& cache.methods.contains_key(
            (JAVA_CLS_NAME@, JAVA_METHOD_NAME_GET_PRINCIPALS@, JAVA_METHOD_SIG_GET_PRINCIPALS@),
        )
        &&& cache.methods.contains_key(
            (JAVA_CLS_NAME@, JAVA_METHOD_NAME_GET_ACTION@, JAVA_METHOD_SIG_GET_ACTION@),
        )
        &&& cache.methods.contains_key(
            (JAVA_CLS_NAME@, JAVA_METHOD_NAME_GET_RESOURCE@, JAVA_METHOD_SIG_GET_RESOURCE@),
        )
        &&& cache.methods.contains_key(
            (JAVA_CLS_NAME@, JAVA_METHOD_NAME_GET_CONTEXT@, JAVA_METHOD_SIG_GET_CONTEXT@),
        )
    }

    /// A run that has gone through the registration of this converter
    /// without a failure holds every one of its handles, and has dropped
    /// nothing that it held before.
    pub proof fn lemma_registration_holds(reg: Registration, env: JavaEnvView)
        ensures
            Self::registration(reg, env).continues(reg),
            Self::registration(reg, env).failure is None ==> Self::is_registered(
                Self::registration(reg, env).cache,
            ),
    {
        let r0 = reg.class(env, JAVA_CLS_NAME@);
        reg.lemma_class_is_held(env, JAVA_CLS_NAME@);
        let r1 = r0.method(
            env,
            JAVA_CLS_NAME@,
            JAVA_METHOD_NAME_GET_PRINCIPALS@,
            JAVA_METHOD_SIG_GET_PRINCIPALS@,
        );
        r0.lemma_method_is_held(
            env,
            JAVA_CLS_NAME@,
            JAVA_METHOD_NAME_GET_PRINCIPALS@,
            JAVA_METHOD_SIG_GET_PRINCIPALS@,
        );
        let r2 = r1.method(
            env,
            JAVA_CLS_NAME@,
            JAVA_METHOD_NAME_GET_ACTION@,
            JAVA_METHOD_SIG_GET_ACTION@,
        );
        r1.lemma_method_is_held(
            env,
            JAVA_CLS_NAME@,
            JAVA_METHOD_NAME_GET_ACTION@,
            JAVA_METHOD_SIG_GET_ACTION@,
        );
        let r3 = r2.method(
            env,
            JAVA_CLS_NAME@,
            JAVA_METHOD_NAME_GET_RESOURCE@,
            JAVA_METHOD_SIG_GET_RESOURCE@,
        );
        r2.lemma_method_is_held(
            env,
            JAVA_CLS_NAME@,
            JAVA_METHOD_NAME_GET_RESOURCE@,
            JAVA_METHOD_SIG_GET_RESOURCE@,
        );
        let r4 = r3.method(
            env,
            JAVA_CLS_NAME@,
            JAVA_METHOD_NAME_GET_CONTEXT@,
            JAVA_METHOD_SIG_GET_CONTEXT@,
        );
        r3.lemma_method_is_held(
            env,
            JAVA_CLS_NAME@,
            JAVA_METHOD_NAME_GET_CONTEXT@,
            JAVA_METHOD_SIG_GET_CONTEXT@,
        );
    }

    /// What the cache holds for this converter stays when more is registered.
    pub proof fn lemma_registered_stays(earlier: JniCacheView, later: JniCacheView)
        requires
            Self::is_registered(earlier),
            later.extends(earlier),
        ensures
            Self::is_registered(later),
    {
    }

    /// With every handle in the cache, wrapping an object finds them all:
    /// it cannot miss.
    pub proof fn lemma_registered_wraps(cache: JniCacheView, jobj: JObject)
        requires
            Self::is_registered(cache),
        ensures
            Self::wrapped(cache, jobj) is Ok,
            !jobj.is_null() ==> Self::wrapped(cache, jobj)->Ok_0 is Some,
    {
    }

    /// With every handle of the bridge in the cache, the conversion fails
    /// only on what the foreign object holds or on a foreign call that
    /// fails, and never on a miss in the cache.
    pub proof fn lemma_converts_without_miss(self, env: JavaEnvView, cache: JniCacheView)
        requires
            crate::cedarling::is_registered(cache),
        ensures
            !misses(self.converted(env, cache)),
    {
        lemma_reads_never_miss(env, self.jobj, self.get_principals_method, Seq::empty());
        if let Ok(value) = object_result(env, self.jobj, self.get_principals_method, Seq::empty()) {
            JavaList::lemma_registered_wraps(cache, value);
        }
        lemma_reads_never_miss(env, self.jobj, self.get_action_method, Seq::empty());
        lemma_reads_never_miss(env, self.jobj, self.get_resource_method, Seq::empty());
        if let Ok(value) = object_result(env, self.jobj, self.get_resource_method, Seq::empty()) {
            JavaEntityData::lemma_registered_wraps(cache, value);
        }
        lemma_reads_never_miss(env, self.jobj, self.get_context_method, Seq::empty());
        if let Ok(value) = object_result(env, self.jobj, self.get_context_method, Seq::empty()) {
            JavaContext::lemma_registered_wraps(cache, value);
        }
        if let Ok(Some(list)) = self.spec_get_principals(env, cache) {
            let convert = Self::principal_converter(env, cache);
            assert forall|index: i32, element: JObject| !misses(
                #[trigger] convert(index, element),
            ) by {
                JavaEntityData::lemma_registered_wraps(cache, element);
                if let Ok(Some(principal)) = JavaEntityData::wrapped(cache, element) {
                    principal.lemma_converts_without_miss(env, cache);
                }
            }
            list.lemma_collect_never_misses(env, convert);
        }
        if let Ok(Some(part)) = self.spec_get_resource(env, cache) {
            part.lemma_converts_without_miss(env, cache);
        }
        if let Ok(Some(part)) = self.spec_get_context(env, cache) {
            part.lemma_converts_without_miss(env);
        }
    }
}

} // verus!
