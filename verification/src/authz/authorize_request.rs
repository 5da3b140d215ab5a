//! The converter of requests that name their principals by signed tokens.

use crate::authz::context::JavaContext;
use crate::authz::entity_data::JavaEntityData;
use crate::engine::request::{Request, RequestView, TokenMap};
use crate::error::{CedarlingBridgeError, CedarlingBridgeErrorView, is_result, is_result_of, misses};
use crate::jni::env::JValue;
use crate::jni::env::{JMethodID, JObject, JavaEnv, JavaEnvView};
use crate::jni::jni_cache::{JniCache, JniCacheView, Registration};
use crate::jni::list::JavaList;
use crate::jni::util::{call_jni_object_method, call_jni_string_method};
use crate::jni::util::{java_string_to_native_string, lemma_reads_never_miss, native_string};
use crate::jni::util::{no_args, null_element, null_element_error, object_result, one_arg};
use crate::jni::util::{require_some, required_of, string_result};
use vstd::prelude::*;

verus! {

pub const JAVA_CLS_NAME: &'static str = "io/jans/cedarling/bridge/authz/AuthorizeRequest";

pub const JAVA_METHOD_NAME_GET_TOKEN: &'static str = "getToken";

pub const JAVA_METHOD_SIG_GET_TOKEN: &'static str = "(Ljava/lang/String;)Ljava/lang/String;";

pub const JAVA_METHOD_NAME_GET_TOKEN_NAMES: &'static str = "getTokenNames";

pub const JAVA_METHOD_SIG_GET_TOKEN_NAMES: &'static str = "()Ljava/util/List;";

pub const JAVA_METHOD_NAME_GET_ACTION: &'static str = "getAction";

pub const JAVA_METHOD_SIG_GET_ACTION: &'static str = "()Ljava/lang/String;";

pub const JAVA_METHOD_NAME_GET_RESOURCE: &'static str = "getResource";

pub const JAVA_METHOD_SIG_GET_RESOURCE: &'static str =
    "()Lio/jans/cedarling/bridge/authz/EntityData;";

pub const JAVA_METHOD_NAME_GET_CONTEXT: &'static str = "getContext";

pub const JAVA_METHOD_SIG_GET_CONTEXT: &'static str = "()Lio/jans/cedarling/bridge/authz/Context;";

pub const TOKENS_FIELD: &'static str = "tokens";

pub const NULL_TOKEN_NAME: &'static str = "null token name in authorization request";

/// A foreign signed request with the handles that read it.
#[derive(Clone, Copy, Debug)]
pub struct JavaAuthorizeRequest {
    pub jobj: JObject,
    pub get_token_method: JMethodID,
    pub get_token_names_method: JMethodID,
    pub get_action_method: JMethodID,
    pub get_resource_method: JMethodID,
    pub get_context_method: JMethodID,
}

impl JavaAuthorizeRequest {
    /// What this converter registers: its class, then each of its methods.
    pub open spec fn registration(reg: Registration, env: JavaEnvView) -> Registration {
        reg.class(env, JAVA_CLS_NAME@)
            .method(
                env,
                JAVA_CLS_NAME@,
                JAVA_METHOD_NAME_GET_TOKEN@,
                JAVA_METHOD_SIG_GET_TOKEN@,
            )
            .method(
                env,
                JAVA_CLS_NAME@,
                JAVA_METHOD_NAME_GET_TOKEN_NAMES@,
                JAVA_METHOD_SIG_GET_TOKEN_NAMES@,
            )
            .method(
                env,
                JAVA_CLS_NAME@,
                JAVA_METHOD_NAME_GET_ACTION@,
                JAVA_METHOD_SIG_GET_ACTION@,
            )
            .method(
                env,
                JAVA_CLS_NAME@,
                JAVA_METHOD_NAME_GET_RESOURCE@,
                JAVA_METHOD_SIG_GET_RESOURCE@,
            )
            .method(
                env,
                JAVA_CLS_NAME@,
                JAVA_METHOD_NAME_GET_CONTEXT@,
                JAVA_METHOD_SIG_GET_CONTEXT@,
            )
    }

    /// Registers the class and its methods; stops at the first that the
    /// runtime cannot resolve.
    pub fn jni_cache_init(env: &JavaEnv, cache: &mut JniCache) -> (res: Result<
        (),
        CedarlingBridgeError,
    >)
        ensures
            Self::registration(Registration::start(old(cache)@), env@).is_outcome(
                res,
                final(cache)@,
            ),
    {
        cache.add_class(env, JAVA_CLS_NAME)?;
        cache.add_instance_method(
            env,
            JAVA_CLS_NAME,
            JAVA_METHOD_NAME_GET_TOKEN,
            JAVA_METHOD_SIG_GET_TOKEN,
        )?;
        cache.add_instance_method(
            env,
            JAVA_CLS_NAME,
            JAVA_METHOD_NAME_GET_TOKEN_NAMES,
            JAVA_METHOD_SIG_GET_TOKEN_NAMES,
        )?;
        cache.add_instance_method(
            env,
            JAVA_CLS_NAME,
            JAVA_METHOD_NAME_GET_ACTION,
            JAVA_METHOD_SIG_GET_ACTION,
        )?;
        cache.add_instance_method(
            env,
            JAVA_CLS_NAME,
            JAVA_METHOD_NAME_GET_RESOURCE,
            JAVA_METHOD_SIG_GET_RESOURCE,
        )?;
        cache.add_instance_method(
            env,
            JAVA_CLS_NAME,
            JAVA_METHOD_NAME_GET_CONTEXT,
            JAVA_METHOD_SIG_GET_CONTEXT,
        )
    }

    /// What wrapping a foreign object gives: nothing for the null reference,
    /// else the object with its handles from the cache, or the report of the
    /// first handle that the cache does not hold.
    pub open spec fn wrapped(cache: JniCacheView, jobj: JObject) -> Result<
        Option<JavaAuthorizeRequest>,
        CedarlingBridgeErrorView,
    > {
        if jobj.is_null() {
            Ok(None)
        } else {
            match cache.method(
                JAVA_CLS_NAME@,
                JAVA_METHOD_NAME_GET_TOKEN@,
                JAVA_METHOD_SIG_GET_TOKEN@,
            ) {
                Err(e) => Err(e),
                Ok(get_token_method) => match cache.method(
                    JAVA_CLS_NAME@,
                    JAVA_METHOD_NAME_GET_TOKEN_NAMES@,
                    JAVA_METHOD_SIG_GET_TOKEN_NAMES@,
                ) {
                    Err(e) => Err(e),
                    Ok(get_token_names_method) => match cache.method(
                        JAVA_CLS_NAME@,
                        JAVA_METHOD_NAME_GET_ACTION@,
                        JAVA_METHOD_SIG_GET_ACTION@,
                    ) {
                        Err(e) => Err(e),
                        Ok(get_action_method) => match cache.method(
                            JAVA_CLS_NAME@,
                            JAVA_METHOD_NAME_GET_RESOURCE@,
                            JAVA_METHOD_SIG_GET_RESOURCE@,
                        ) {
                            Err(e) => Err(e),
                            Ok(get_resource_method) => match cache.method(
                                JAVA_CLS_NAME@,
                                JAVA_METHOD_NAME_GET_CONTEXT@,
                                JAVA_METHOD_SIG_GET_CONTEXT@,
                            ) {
                                Err(e) => Err(e),
                                Ok(get_context_method) => Ok(
                                    Some(
                                        JavaAuthorizeRequest {
                                            jobj,
                                            get_token_method,
                                            get_token_names_method,
                                            get_action_method,
                                            get_resource_method,
                                            get_context_method,
                                        },
                                    ),
                                ),
                            },
                        },
                    },
                },
            }
        }
    }

    /// Wraps a foreign object.
    pub fn new(cache: &JniCache, jobj: JObject) -> (res: Result<
        Option<JavaAuthorizeRequest>,
        CedarlingBridgeError,
    >)
        ensures
            is_result(res, Self::wrapped(cache@, jobj)),
    {
        if jobj.is_null() {
            return Ok(None);
        }
        let get_token_key = (
            JAVA_CLS_NAME,
            JAVA_METHOD_NAME_GET_TOKEN,
            JAVA_METHOD_SIG_GET_TOKEN,
        );
        let get_token_names_key = (
            JAVA_CLS_NAME,
            JAVA_METHOD_NAME_GET_TOKEN_NAMES,
            JAVA_METHOD_SIG_GET_TOKEN_NAMES,
        );
        let get_action_key = (
            JAVA_CLS_NAME,
            JAVA_METHOD_NAME_GET_ACTION,
            JAVA_METHOD_SIG_GET_ACTION,
        );
        let get_resource_key = (
            JAVA_CLS_NAME,
            JAVA_METHOD_NAME_GET_RESOURCE,
            JAVA_METHOD_SIG_GET_RESOURCE,
        );
        let get_context_key = (
            JAVA_CLS_NAME,
            JAVA_METHOD_NAME_GET_CONTEXT,
            JAVA_METHOD_SIG_GET_CONTEXT,
        );
        Ok(
            Some(
                JavaAuthorizeRequest {
                    jobj: jobj,
                    get_token_method: cache.get_instance_method(&get_token_key)?,
                    get_token_names_method: cache.get_instance_method(&get_token_names_key)?,
                    get_action_method: cache.get_instance_method(&get_action_key)?,
                    get_resource_method: cache.get_instance_method(&get_resource_key)?,
                    get_context_method: cache.get_instance_method(&get_context_key)?,
                },
            ),
        )
    }

    /// What asking the object for `getTokenNames` gives: the object that
    /// comes back, wrapped.
    pub open spec fn spec_get_token_names(self, env: JavaEnvView, cache: JniCacheView) -> Result<
        Option<JavaList>,
        CedarlingBridgeErrorView,
    > {
        match object_result(env, self.jobj, self.get_token_names_method, Seq::empty()) {
            Err(e) => Err(e),
            Ok(obj) => JavaList::wrapped(cache, obj),
        }
    }

    /// Asks the object for `getTokenNames`.
    pub fn get_token_names(&self, env: &JavaEnv, cache: &JniCache) -> (res: Result<
        Option<JavaList>,
        CedarlingBridgeError,
    >)
        ensures
            is_result(res, self.spec_get_token_names(env@, cache@)),
    {
        let obj = call_jni_object_method(
            env,
            &self.jobj,
            &self.get_token_names_method,
            &no_args(),
        )?;
        JavaList::new(cache, obj)
    }

    /// What asking the object for `getAction` gives.
    pub open spec fn spec_get_action(self, env: JavaEnvView) -> Result<
        Option<Seq<char>>,
        CedarlingBridgeErrorView,
    > {
        string_result(env, self.jobj, self.get_action_method, Seq::empty())
    }

    /// Asks the object for `getAction`.
    pub fn get_action(&self, env: &JavaEnv) -> (res: Result<
        Option<String>,
        CedarlingBridgeError,
    >)
        ensures
            is_result_of(res, self.spec_get_action(env@)),
    {
        call_jni_string_method(env, &self.jobj, &self.get_action_method, &no_args())
    }

    /// What asking the object for `getResource` gives: the object that
    /// comes back, wrapped.
    pub open spec fn spec_get_resource(self, env: JavaEnvView, cache: JniCacheView) -> Result<
        Option<JavaEntityData>,
        CedarlingBridgeErrorView,
    > {
        match object_result(env, self.jobj, self.get_resource_method, Seq::empty()) {
            Err(e) => Err(e),
            Ok(obj) => JavaEntityData::wrapped(cache, obj),
        }
    }

    /// Asks the object for `getResource`.
    pub fn get_resource(&self, env: &JavaEnv, cache: &JniCache) -> (res: Result<
        Option<JavaEntityData>,
        CedarlingBridgeError,
    >)
        ensures
            is_result(res, self.spec_get_resource(env@, cache@)),
    {
        let obj = call_jni_object_method(
            env,
            &self.jobj,
            &self.get_resource_method,
            &no_args(),
        )?;
        JavaEntityData::new(cache, obj)
    }

    /// What asking the object for `getContext` gives: the object that
    /// comes back, wrapped.
    pub open spec fn spec_get_context(self, env: JavaEnvView, cache: JniCacheView) -> Result<
        Option<JavaContext>,
        CedarlingBridgeErrorView,
    > {
        match object_result(env, self.jobj, self.get_context_method, Seq::empty()) {
            Err(e) => Err(e),
            Ok(obj) => JavaContext::wrapped(cache, obj),
        }
    }

    /// Asks the object for `getContext`.
    pub fn get_context(&self, env: &JavaEnv, cache: &JniCache) -> (res: Result<
        Option<JavaContext>,
        CedarlingBridgeError,
    >)
        ensures
            is_result(res, self.spec_get_context(env@, cache@)),
    {
        let obj = call_jni_object_method(
            env,
            &self.jobj,
            &self.get_context_method,
            &no_args(),
        )?;
        JavaContext::new(cache, obj)
    }


    /// What asking the request for the token of a name gives.
    pub open spec fn spec_get_token(self, env: JavaEnvView, name_obj: JObject) -> Result<
        Option<Seq<char>>,
        CedarlingBridgeErrorView,
    > {
        string_result(env, self.jobj, self.get_token_method, seq![JValue::Object(name_obj)])
    }

    /// Asks the request for the token of a name.
    pub fn get_token(&self, env: &JavaEnv, name_obj: &JObject) -> (res: Result<
        Option<String>,
        CedarlingBridgeError,
    >)
        ensures
            is_result_of(res, self.spec_get_token(env@, *name_obj)),
    {
        let args = one_arg(JValue::Object(*name_obj));
        call_jni_string_method(env, &self.jobj, &self.get_token_method, &args)
    }

    /// The text of the error for a token that has a name and no value.
    pub open spec fn null_token_value_text(name: Seq<char>) -> Seq<char> {
        "null value for token`"@ + name + "` in authorization request"@
    }

    /// The named token that an element of the list of token names stands
    /// for: the name must not be null, and the request must hold a value
    /// under it.
    pub open spec fn token_of(self, env: JavaEnvView, index: i32, name_obj: JObject) -> Result<
        (Seq<char>, Seq<char>),
        CedarlingBridgeErrorView,
    > {
        match native_string(env, name_obj) {
            Err(e) => Err(e),
            Ok(None) => Err(null_element(NULL_TOKEN_NAME@, TOKENS_FIELD@, index)),
            Ok(Some(name)) => match self.spec_get_token(env, name_obj) {
                Err(e) => Err(e),
                Ok(None) => Err(
                    CedarlingBridgeErrorView::GenericError(Self::null_token_value_text(name)),
                ),
                Ok(Some(value)) => Ok((name, value)),
            },
        }
    }

    /// The conversion of one element of the list of token names.
    pub open spec fn token_converter(self, env: JavaEnvView) -> spec_fn(i32, JObject) -> Result<
        (Seq<char>, Seq<char>),
        CedarlingBridgeErrorView,
    > {
        |index: i32, name_obj: JObject| self.token_of(env, index, name_obj)
    }

    /// The map that a list of named tokens stands for: where a name occurs
    /// more than once, the value that comes last holds.
    pub open spec fn named_tokens(pairs: Seq<(Seq<char>, Seq<char>)>) -> Map<Seq<char>, Seq<char>>
        decreases pairs.len(),
    {
        if pairs.len() == 0 {
            Map::empty()
        } else {
            Self::named_tokens(pairs.drop_last()).insert(pairs.last().0, pairs.last().1)
        }
    }

    /// The tokens of the request: the list of names is required, and each
    /// name is looked up in the order of the list.
    pub open spec fn tokens_of(self, env: JavaEnvView, cache: JniCacheView) -> Result<
        Map<Seq<char>, Seq<char>>,
        CedarlingBridgeErrorView,
    > {
        match required_of(self.spec_get_token_names(env, cache), JAVA_CLS_NAME@, TOKENS_FIELD@) {
            Err(e) => Err(e),
            Ok(list) => match list.collect(env, self.token_converter(env)) {
                Err(e) => Err(e),
                Ok(pairs) => Ok(Self::named_tokens(pairs)),
            },
        }
    }

    /// Reads the tokens of the request.
    #[verifier::loop_isolation(false)]
    pub fn get_tokens(&self, env: &JavaEnv, cache: &JniCache) -> (res: Result<
        TokenMap,
        CedarlingBridgeError,
    >)
        ensures
            is_result_of(res, self.tokens_of(env@, cache@)),
    {
        let token_names_obj = require_some(
            self.get_token_names(env, cache)?,
            JAVA_CLS_NAME,
            TOKENS_FIELD,
        )?;
        let token_count = token_names_obj.size(env)?;
        let ghost convert = self.token_converter(env@);
        let ghost mut done: Seq<(Seq<char>, Seq<char>)> = Seq::empty();
        let mut tokens = TokenMap::new();
        let mut i: i32 = 0;
        proof {
            token_names_obj.lemma_progress_start(env@, convert, token_count);
        }
        while i < token_count
            invariant
                0 <= i,
                token_names_obj.is_progress(env@, convert, token_count, i as int, done),
                tokens.deep_view() == Self::named_tokens(done),
            decreases token_count - i,
        {
            let token_name_obj = token_names_obj.get(env, i)?;
            let token_name = match java_string_to_native_string(env, &token_name_obj)? {
                Some(name) => name,
                None => {
                    return Err(null_element_error(NULL_TOKEN_NAME, TOKENS_FIELD, i));
                },
            };
            let token_value = match self.get_token(env, &token_name_obj)? {
                Some(value) => value,
                None => {
                    let mut text = String::from_str("null value for token`");
                    text.append(token_name.as_str());
                    text.append("` in authorization request");
                    return Err(CedarlingBridgeError::GenericError(text));
                },
            };
            proof {
                token_names_obj.lemma_progress_step(
                    env@,
                    convert,
                    token_count,
                    i as int,
                    done,
                    token_name_obj,
                    (token_name@, token_value@),
                );
                assert(done.push((token_name@, token_value@)).drop_last() =~= done);
                done = done.push((token_name@, token_value@));
            }
            tokens.insert(token_name, token_value);
            i += 1;
        }
        proof {
            token_names_obj.lemma_progress_end(env@, convert, token_count, i as int, done);
        }
        Ok(tokens)
    }

    /// The native request that the object stands for: its tokens, then
    /// action, resource and context, each of which is required. The first
    /// failure is the result.
    pub open spec fn converted(self, env: JavaEnvView, cache: JniCacheView) -> Result<
        RequestView,
        CedarlingBridgeErrorView,
    > {
        match self.tokens_of(env, cache) {
            Err(e) => Err(e),
            Ok(tokens) => match required_of(self.spec_get_action(env), JAVA_CLS_NAME@, "action"@) {
                Err(e) => Err(e),
                Ok(action) => match required_of(
                    self.spec_get_resource(env, cache),
                    JAVA_CLS_NAME@,
                    "resource"@,
                ) {
                    Err(e) => Err(e),
                    Ok(resource_obj) => match resource_obj.converted(env, cache) {
                        Err(e) => Err(e),
                        Ok(resource) => match required_of(
                            self.spec_get_context(env, cache),
                            JAVA_CLS_NAME@,
                            "context"@,
                        ) {
                            Err(e) => Err(e),
                            Ok(context_obj) => match context_obj.converted(env) {
                                Err(e) => Err(e),
                                Ok(
                                    context,
                                ) => Ok(RequestView { tokens, action, resource, context }),
                            },
                        },
                    },
                },
            },
        }
    }

    /// Converts the request.
    pub fn as_cedarling_authz_request(&self, env: &JavaEnv, cache: &JniCache) -> (res: Result<
        Request,
        CedarlingBridgeError,
    >)
        ensures
            is_result_of(res, self.converted(env@, cache@)),
    {
        let tokens = self.get_tokens(env, cache)?;
        let action = require_some(self.get_action(env)?, JAVA_CLS_NAME, "action")?;
        let resource = {
            let resource_obj = require_some(
                self.get_resource(env, cache)?,
                JAVA_CLS_NAME,
                "resource",
            )?;
            resource_obj.as_cedarling_entity_data(env, cache)?
        };
        let context = {
            let context_obj = require_some(
                self.get_context(env, cache)?,
                JAVA_CLS_NAME,
                "context",
            )?;
            context_obj.as_cedarling_context(env)?
        };
        Ok(Request { tokens: tokens, action: action, resource: resource, context: context })
    }

    /// Whether the cache holds the class of this converter and every one of
    /// its handles.
    pub open spec fn is_registered(cache: JniCacheView) -> bool {
        &&& cache.classes.contains_key(JAVA_CLS_NAME@)
        &&& cache.methods.contains_key(
            (JAVA_CLS_NAME@, JAVA_METHOD_NAME_GET_TOKEN@, JAVA_METHOD_SIG_GET_TOKEN@),
        )
        &&& cache.methods.contains_key(
            (JAVA_CLS_NAME@, JAVA_METHOD_NAME_GET_TOKEN_NAMES@, JAVA_METHOD_SIG_GET_TOKEN_NAMES@),
        )
        &&& cache.methods.contains_key(
            (JAVA_CLS_NAME@, JAVA_METHOD_NAME_GET_ACTION@, JAVA_METHOD_SIG_GET_ACTION@),
        )
        &&& cache.methods.contains_key(
            (JAVA_CLS_NAME@, JAVA_METHOD_NAME_GET_RESOURCE@, JAVA_METHOD_SIG_GET_RESOURCE@),
        )
        &&& cache.methods.contains_key(
            (JAVA_CLS_NAME@, JAVA_METHOD_NAME_GET_CONTEXT@, JAVA_METHOD_SIG_GET_CONTEXT@),
        )
    }

    /// A run that has gone through the registration of this converter
    /// without a failure holds every one of its handles, and has dropped
    /// nothing that it held before.
    pub proof fn lemma_registration_holds(reg: Registration, env: JavaEnvView)
        ensures
            Self::registration(reg, env).continues(reg),
            Self::registration(reg, env).failure is None ==> Self::is_registered(
                Self::registration(reg, env).cache,
            ),
    {
        let r0 = reg.class(env, JAVA_CLS_NAME@);
        reg.lemma_class_is_held(env, JAVA_CLS_NAME@);
        let r1 = r0.method(
            env,
            JAVA_CLS_NAME@,
            JAVA_METHOD_NAME_GET_TOKEN@,
            JAVA_METHOD_SIG_GET_TOKEN@,
        );
        r0.lemma_method_is_held(
            env,
            JAVA_CLS_NAME@,
            JAVA_METHOD_NAME_GET_TOKEN@,
            JAVA_METHOD_SIG_GET_TOKEN@,
        );
        let r2 = r1.method(
            env,
            JAVA_CLS_NAME@,
            JAVA_METHOD_NAME_GET_TOKEN_NAMES@,
            JAVA_METHOD_SIG_GET_TOKEN_NAMES@,
        );
        r1.lemma_method_is_held(
            env,
            JAVA_CLS_NAME@,
            JAVA_METHOD_NAME_GET_TOKEN_NAMES@,
            JAVA_METHOD_SIG_GET_TOKEN_NAMES@,
        );
        let r3 = r2.method(
            env,
            JAVA_CLS_NAME@,
            JAVA_METHOD_NAME_GET_ACTION@,
            JAVA_METHOD_SIG_GET_ACTION@,
        );
        r2.lemma_method_is_held(
            env,
            JAVA_CLS_NAME@,
            JAVA_METHOD_NAME_GET_ACTION@,
            JAVA_METHOD_SIG_GET_ACTION@,
        );
        let r4 = r3.method(
            env,
            JAVA_CLS_NAME@,
            JAVA_METHOD_NAME_GET_RESOURCE@,
            JAVA_METHOD_SIG_GET_RESOURCE@,
        );
        r3.lemma_method_is_held(
            env,
            JAVA_CLS_NAME@,
            JAVA_METHOD_NAME_GET_RESOURCE@,
            JAVA_METHOD_SIG_GET_RESOURCE@,
        );
        let r5 = r4.method(
            env,
            JAVA_CLS_NAME@,
            JAVA_METHOD_NAME_GET_CONTEXT@,
            JAVA_METHOD_SIG_GET_CONTEXT@,
        );
        r4.lemma_method_is_held(
            env,
            JAVA_CLS_NAME@,
            JAVA_METHOD_NAME_GET_CONTEXT@,
            JAVA_METHOD_SIG_GET_CONTEXT@,
        );
    }

    /// What the cache holds for this converter stays when more is registered.
    pub proof fn lemma_registered_stays(earlier: JniCacheView, later: JniCacheView)
        requires
            Self::is_registered(earlier),
            later.extends(earlier),
        ensures
            Self::is_registered(later),
    {
    }

    /// With every handle in the cache, wrapping an object finds them all:
    /// it cannot miss.
    pub proof fn lemma_registered_wraps(cache: JniCacheView, jobj: JObject)
        requires
            Self::is_registered(cache),
        ensures
            Self::wrapped(cache, jobj) is Ok,
            !jobj.is_null() ==> Self::wrapped(cache, jobj)->Ok_0 is Some,
    {
    }

    /// With every handle of the bridge in the cache, the conversion fails
    /// only on what the foreign object holds or on a foreign call that
    /// fails, and never on a miss in the cache.
    pub proof fn lemma_converts_without_miss(self, env: JavaEnvView, cache: JniCacheView)
        requires
            crate::cedarling::is_registered(cache),
        ensures
            !misses(self.converted(env, cache)),
    {
        lemma_reads_never_miss(env, self.jobj, self.get_token_names_method, Seq::empty());
        if let Ok(
            value,
        ) = object_result(env, self.jobj, self.get_token_names_method, Seq::empty()) {
            JavaList::lemma_registered_wraps(cache, value);
        }
        lemma_reads_never_miss(env, self.jobj, self.get_action_method, Seq::empty());
        lemma_reads_never_miss(env, self.jobj, self.get_resource_method, Seq::empty());
        if let Ok(value) = object_result(env, self.jobj, self.get_resource_method, Seq::empty()) {
            JavaEntityData::lemma_registered_wraps(cache, value);
        }
        lemma_reads_never_miss(env, self.jobj, self.get_context_method, Seq::empty());
        if let Ok(value) = object_result(env, self.jobj, self.get_context_method, Seq::empty()) {
            JavaContext::lemma_registered_wraps(cache, value);
        }
        if let Ok(Some(list)) = self.spec_get_token_names(env, cache) {
            let convert = self.token_converter(env);
            assert forall|index: i32, element: JObject| !misses(
                #[trigger] convert(index, element),
            ) by {
                lemma_reads_never_miss(
                    env,
                    element,
                    self.get_action_method,
                    Seq::empty(),
                );
                lemma_reads_never_miss(
                    env,
                    self.jobj,
                    self.get_token_method,
                    seq![JValue::Object(element)],
                );
            }
            list.lemma_collect_never_misses(env, convert);
        }
        if let Ok(Some(part)) = self.spec_get_resource(env, cache) {
            part.lemma_converts_without_miss(env, cache);
        }
        if let Ok(Some(part)) = self.spec_get_context(env, cache) {
            part.lemma_converts_without_miss(env);
        }
    }
}

} // verus!
