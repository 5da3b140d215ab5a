//! The decisions of the boundary entry points.
//!
//! An entry point converts its input, has the engine work, converts what
//! the engine gave, and returns; a failure at any step is reported as one
//! foreign exception, and the entry point then returns the null reference.
//! The engine itself is not called from here: what it gave comes in as a
//! value.

use crate::authz::authorize_request::JavaAuthorizeRequest;
use crate::authz::authorize_request_unsigned::JavaAuthorizeRequestUnsigned;
use crate::authz::authorize_result::JavaAuthorizeResult;
use crate::config::bootstrap_config::JavaBootstrapConfig;
use crate::engine::config::{BootstrapConfig, BootstrapConfigView};
use crate::engine::request::{Request, RequestUnsigned, RequestUnsignedView, RequestView};
use crate::engine::response::{AuthorizeResult, AuthorizeResultView};
use crate::error::{CedarlingBridgeError, CedarlingBridgeErrorView, is_result_of, misses};
use crate::jni::env::{JObject, JavaEnv, JavaEnvView, JavaThrownView};
use crate::jni::jni_cache::{JniCache, JniCacheView, Registration};
use crate::jni::util::{CEDARLING_AUTHORIZATION_ERROR_CLSNAME, CEDARLING_CONFIGURATION_ERROR_CLSNAME};
use crate::jni::util::{CEDARLING_ERROR_CLSNAME, Effect, failed, is_effect};
use crate::jni::util::{throw_cedarling_authorization_error, throw_cedarling_configuration_error};
use crate::jni::util::throw_cedarling_error;
use vstd::prelude::*;

verus! {

pub const NULL_CONFIGURATION: &'static str = "Java BootstrapConfiguration cannot be null";

pub const NULL_REQUEST: &'static str = "Java authz request cannot be null";

pub const NULL_UNSIGNED_REQUEST: &'static str = "Java unsigned authz request cannot be null";

pub const CREATION_FAILED: &'static str = "Could not create rust cedarling instance. ";

pub const AUTHORIZATION_FAILED: &'static str = "Cedarling authorization failed. ";

pub const UNSIGNED_AUTHORIZATION_FAILED: &'static str = "Cedarling unsigned authorization failed. ";

pub const CLEANUP_FAILED: &'static str = "Could not release cedarling rust resources. ";

/// What the whole bridge registers, part by part.
pub open spec fn registration(reg: Registration, env: JavaEnvView) -> Registration {
    crate::cedar_policy::registration(
        crate::authz::registration(
            crate::config::registration(crate::jni::registration(reg, env), env),
            env,
        ),
        env,
    )
}

/// Registers every handle that the bridge uses: those of the primitives,
/// of the configuration, of the requests and results, and of the decisions,
/// in that order; stops at the first failure. After a success the cache
/// holds every handle that any converter looks up.
pub fn init_cache(env: &JavaEnv, cache: &mut JniCache) -> (res: Result<(), CedarlingBridgeError>)
    ensures
        registration(Registration::start(old(cache)@), env@).is_outcome(res, final(cache)@),
        res is Ok ==> is_registered(final(cache)@),
{
    proof {
        lemma_registration_holds(Registration::start(cache@), env@);
    }
    crate::jni::jni_cache_init(env, cache)?;
    crate::config::jni_cache_init(env, cache)?;
    crate::authz::jni_cache_init(env, cache)?;
    crate::cedar_policy::jni_cache_init(env, cache)
}

/// The native configuration for a foreign one: the object must not be null.
pub open spec fn configuration_of(
    env: JavaEnvView,
    cache: JniCacheView,
    config_obj: JObject,
) -> Result<
    BootstrapConfigView,
    CedarlingBridgeErrorView,
> {
    match JavaBootstrapConfig::wrapped(cache, config_obj) {
        Err(e) => Err(e),
        Ok(None) => Err(CedarlingBridgeErrorView::GenericError(NULL_CONFIGURATION@)),
        Ok(Some(wrapper)) => wrapper.converted(env, cache),
    }
}

/// Converts the configuration that an engine is to be created with.
pub fn creation_input(env: &JavaEnv, cache: &JniCache, config_obj: JObject) -> (res: Result<
    BootstrapConfig,
    CedarlingBridgeError,
>)
    ensures
        is_result_of(res, configuration_of(env@, cache@, config_obj)),
        res matches Ok(config) ==> config.deep_view().wf(),
{
    match JavaBootstrapConfig::new(cache, config_obj)? {
        Some(wrapper) => wrapper.as_cedarling_boostrap_config(env, cache),
        None => Err(CedarlingBridgeError::GenericError(String::from_str(NULL_CONFIGURATION))),
    }
}

/// The native request for a foreign signed one: the object must not be null.
pub open spec fn request_of(env: JavaEnvView, cache: JniCacheView, request_obj: JObject) -> Result<
    RequestView,
    CedarlingBridgeErrorView,
> {
    match JavaAuthorizeRequest::wrapped(cache, request_obj) {
        Err(e) => Err(e),
        Ok(None) => Err(CedarlingBridgeErrorView::GenericError(NULL_REQUEST@)),
        Ok(Some(wrapper)) => wrapper.converted(env, cache),
    }
}

/// Converts the request of an authorization.
pub fn authorization_input(env: &JavaEnv, cache: &JniCache, request_obj: JObject) -> (res: Result<
    Request,
    CedarlingBridgeError,
>)
    ensures
        is_result_of(res, request_of(env@, cache@, request_obj)),
{
    match JavaAuthorizeRequest::new(cache, request_obj)? {
        Some(wrapper) => wrapper.as_cedarling_authz_request(env, cache),
        None => Err(CedarlingBridgeError::GenericError(String::from_str(NULL_REQUEST))),
    }
}

/// The native request for a foreign unsigned one: the object must not be null.
pub open spec fn unsigned_request_of(
    env: JavaEnvView,
    cache: JniCacheView,
    request_obj: JObject,
) -> Result<RequestUnsignedView, CedarlingBridgeErrorView> {
    match JavaAuthorizeRequestUnsigned::wrapped(cache, request_obj) {
        Err(e) => Err(e),
        Ok(None) => Err(CedarlingBridgeErrorView::GenericError(NULL_UNSIGNED_REQUEST@)),
        Ok(Some(wrapper)) => wrapper.converted(env, cache),
    }
}

/// Converts the request of an unsigned authorization.
pub fn unsigned_authorization_input(env: &JavaEnv, cache: &JniCache, request_obj: JObject) -> (res:
    Result<RequestUnsigned, CedarlingBridgeError>)
    ensures
        is_result_of(res, unsigned_request_of(env@, cache@, request_obj)),
{
    match JavaAuthorizeRequestUnsigned::new(cache, request_obj)? {
        Some(wrapper) => wrapper.as_cedarling_authz_request_unsigned(env, cache),
        None => Err(CedarlingBridgeError::GenericError(String::from_str(NULL_UNSIGNED_REQUEST))),
    }
}

/// Converts what the engine gave for an authorization.
pub fn authorization_output(
    env: &mut JavaEnv,
    cache: &JniCache,
    authz_result: &AuthorizeResult,
) -> (res:
    Result<JObject, CedarlingBridgeError>)
    ensures
        is_effect(
            res,
            final(env)@,
            JavaAuthorizeResult::sent(old(env)@, cache@, authz_result.deep_view()),
        ),
{
    JavaAuthorizeResult::new(cache, authz_result)?.as_java_object(env, cache)
}

/// The runtime after a failure was reported: one more exception of the
/// named class is raised, with the message; where the runtime does not know
/// the class, nothing is raised.
pub open spec fn reported(env: JavaEnvView, class: Seq<char>, message: Seq<char>) -> JavaEnvView {
    if env.class_named(class) is Some {
        env.with_thrown(JavaThrownView { class, message })
    } else {
        env
    }
}

/// What an outcome says, with its error taken by its view.
pub open spec fn outcome_view<T>(outcome: Result<T, CedarlingBridgeError>) -> Result<
    T,
    CedarlingBridgeErrorView,
> {
    match outcome {
        Ok(v) => Ok(v),
        Err(e) => Err(e@),
    }
}

/// How an entry point that returns nothing ends: on success nothing
/// changes; on failure the failure is reported under the given class, with
/// the given words before the text of the error.
pub open spec fn ended(
    env: JavaEnvView,
    outcome: Result<(), CedarlingBridgeErrorView>,
    class: Seq<char>,
    words: Seq<char>,
) -> JavaEnvView {
    match outcome {
        Ok(()) => env,
        Err(e) => reported(env, class, words + e.message()),
    }
}

/// Ends the creation of an engine: a failure is reported as a
/// configuration error.
pub fn creation_return(env: &mut JavaEnv, outcome: Result<(), CedarlingBridgeError>)
    ensures
        final(env)@ == ended(
            old(env)@,
            outcome_view(outcome),
            CEDARLING_CONFIGURATION_ERROR_CLSNAME@,
            CREATION_FAILED@,
        ),
{
    match outcome {
        Ok(()) => {},
        Err(err) => {
            let mut errmsg = String::from_str(CREATION_FAILED);
            let cause = err.message();
            errmsg.append(cause.as_str());
            let _ = throw_cedarling_configuration_error(env, errmsg.as_str());
        },
    }
}

/// Ends the release of an engine: a failure is reported as a general error
/// of the bridge.
pub fn cleanup_return(env: &mut JavaEnv, outcome: Result<(), CedarlingBridgeError>)
    ensures
        final(env)@ == ended(
            old(env)@,
            outcome_view(outcome),
            CEDARLING_ERROR_CLSNAME@,
            CLEANUP_FAILED@,
        ),
{
    match outcome {
        Ok(()) => {},
        Err(err) => {
            let mut errstr = String::from_str(CLEANUP_FAILED);
            let cause = err.message();
            errstr.append(cause.as_str());
            let _ = throw_cedarling_error(env, errstr.as_str());
        },
    }
}

/// What an entry point that returns an object leaves behind.
pub struct Returned {
    pub env: JavaEnvView,
    pub value: JObject,
}

/// How an authorization ends. Where the engine gave a result, the result is
/// converted. Where all went well, the foreign result is returned and no
/// exception is raised. Where the input, the engine or the conversion of
/// the result failed, the failure is reported as an authorization error,
/// with the given words before the text of the error, and the null
/// reference is returned.
pub open spec fn returned(
    env: JavaEnvView,
    cache: JniCacheView,
    outcome: Result<AuthorizeResultView, CedarlingBridgeErrorView>,
    words: Seq<char>,
) -> Returned {
    let converted: Effect<JObject> = match outcome {
        Err(e) => failed(env, e),
        Ok(result) => JavaAuthorizeResult::sent(env, cache, result),
    };
    match converted.result {
        Ok(obj) => Returned { env: converted.env, value: obj },
        Err(e) => Returned {
            env: reported(
                converted.env,
                CEDARLING_AUTHORIZATION_ERROR_CLSNAME@,
                words + e.message(),
            ),
            value: JObject { slot: 0 },
        },
    }
}

/// What the outcome of the engine says, result and error taken by their views.
pub open spec fn engine_outcome(outcome: Result<AuthorizeResult, CedarlingBridgeError>) -> Result<
    AuthorizeResultView,
    CedarlingBridgeErrorView,
> {
    match outcome {
        Ok(result) => Ok(result.deep_view()),
        Err(e) => Err(e@),
    }
}

/// Ends an authorization, with the words that introduce its failure.
fn finish(
    env: &mut JavaEnv,
    cache: &JniCache,
    outcome: Result<AuthorizeResult, CedarlingBridgeError>,
    words: &'static str,
) -> (ret: JObject)
    ensures
        final(env)@ == returned(old(env)@, cache@, engine_outcome(outcome), words@).env,
        ret == returned(old(env)@, cache@, engine_outcome(outcome), words@).value,
{
    let converted = match outcome {
        Ok(result) => authorization_output(env, cache, &result),
        Err(e) => Err(e),
    };
    match converted {
        Ok(ret) => ret,
        Err(err) => {
            let mut errmsg = String::from_str(words);
            let cause = err.message();
            errmsg.append(cause.as_str());
            let _ = throw_cedarling_authorization_error(env, errmsg.as_str());
            JObject::null()
        },
    }
}

/// Ends an authorization: converts what the engine gave and returns it, or
/// reports the failure and returns the null reference.
pub fn authorization_return(
    env: &mut JavaEnv,
    cache: &JniCache,
    outcome: Result<AuthorizeResult, CedarlingBridgeError>,
) -> (ret: JObject)
    ensures
        final(env)@ == returned(
            old(env)@,
            cache@,
            engine_outcome(outcome),
            AUTHORIZATION_FAILED@,
        ).env,
        ret == returned(old(env)@, cache@, engine_outcome(outcome), AUTHORIZATION_FAILED@).value,
{
    finish(env, cache, outcome, AUTHORIZATION_FAILED)
}

/// Ends an unsigned authorization: converts what the engine gave and
/// returns it, or reports the failure and returns the null reference.
pub fn unsigned_authorization_return(
    env: &mut JavaEnv,
    cache: &JniCache,
    outcome: Result<AuthorizeResult, CedarlingBridgeError>,
) -> (ret: JObject)
    ensures
        final(env)@ == returned(
            old(env)@,
            cache@,
            engine_outcome(outcome),
            UNSIGNED_AUTHORIZATION_FAILED@,
        ).env,
        ret == returned(
            old(env)@,
            cache@,
            engine_outcome(outcome),
            UNSIGNED_AUTHORIZATION_FAILED@,
        ).value,
{
    finish(env, cache, outcome, UNSIGNED_AUTHORIZATION_FAILED)
}

/// An authorization that fails returns the null reference and raises at
/// most one exception, and only raises; an authorization that succeeds
/// raises none.
pub proof fn lemma_failure_returns_null(
    env: JavaEnvView,
    cache: JniCacheView,
    outcome: Result<AuthorizeResultView, CedarlingBridgeErrorView>,
    words: Seq<char>,
)
    ensures
        ({
            let converted: Effect<JObject> = match outcome {
                Err(e) => failed(env, e),
                Ok(result) => JavaAuthorizeResult::sent(env, cache, result),
            };
            let end = returned(env, cache, outcome, words);
            &&& converted.result is Ok ==> end.env == converted.env && end.value
                == converted.result->Ok_0
            &&& converted.result is Err ==> end.value.is_null() && (end.env.thrown
                == converted.env.thrown || end.env.thrown == converted.env.thrown.push(
                JavaThrownView {
                    class: CEDARLING_AUTHORIZATION_ERROR_CLSNAME@,
                    message: words + converted.result->Err_0.message(),
                },
            )) && end.env.objects == converted.env.objects && end.env.calls == converted.env.calls
        }),
{
}

/// Whether the cache holds every handle of the bridge.
pub open spec fn is_registered(cache: JniCacheView) -> bool {
    &&& crate::jni::is_registered(cache)
    &&& crate::config::is_registered(cache)
    &&& crate::authz::is_registered(cache)
    &&& crate::cedar_policy::is_registered(cache)
}

/// A run that has gone through the registration of the bridge
/// without a failure holds every handle of it, and has dropped nothing
/// that it held before.
pub proof fn lemma_registration_holds(reg: Registration, env: JavaEnvView)
    ensures
        registration(reg, env).continues(reg),
        registration(reg, env).failure is None ==> is_registered(registration(reg, env).cache),
{
    let r1 = crate::jni::registration(reg, env);
    crate::jni::lemma_registration_holds(reg, env);
    let r2 = crate::config::registration(r1, env);
    crate::config::lemma_registration_holds(r1, env);
    let r3 = crate::authz::registration(r2, env);
    crate::authz::lemma_registration_holds(r2, env);
    let r4 = crate::cedar_policy::registration(r3, env);
    crate::cedar_policy::lemma_registration_holds(r3, env);
    assert(r4 == registration(reg, env));
    r4.lemma_continues_on(r4, r3);
    r4.lemma_continues_on(r3, r2);
    r4.lemma_continues_on(r2, r1);
    r4.lemma_continues_on(r1, reg);
    if r4.failure is None {
        crate::jni::lemma_registered_stays(r1.cache, r4.cache);
        crate::config::lemma_registered_stays(r2.cache, r4.cache);
        crate::authz::lemma_registered_stays(r3.cache, r4.cache);
    }
}

/// What the cache holds for the bridge stays when more is
/// registered.
pub proof fn lemma_registered_stays(earlier: JniCacheView, later: JniCacheView)
    requires
        is_registered(earlier),
        later.extends(earlier),
    ensures
        is_registered(later),
{
    crate::jni::lemma_registered_stays(earlier, later);
    crate::config::lemma_registered_stays(earlier, later);
    crate::authz::lemma_registered_stays(earlier, later);
    crate::cedar_policy::lemma_registered_stays(earlier, later);
}

/// Once the bridge has registered without a failure, starting from any
/// cache, every class, method and static field that any of its converters
/// looks up is in the cache.
pub proof fn lemma_initialised_cache_holds_every_handle(cache: JniCacheView, env: JavaEnvView)
    requires
        registration(Registration::start(cache), env).failure is None,
    ensures
        is_registered(registration(Registration::start(cache), env).cache),
{
    lemma_registration_holds(Registration::start(cache), env);
}

/// Once every handle of the bridge is in the cache, no conversion at any
/// entry point fails on a miss in the cache: what fails then is the foreign
/// object, the foreign call or the engine, never the order of initialisation.
pub proof fn lemma_registered_bridge_never_misses(
    env: JavaEnvView,
    cache: JniCacheView,
    input: JObject,
    result: AuthorizeResultView,
)
    requires
        is_registered(cache),
    ensures
        !misses(configuration_of(env, cache, input)),
        !misses(request_of(env, cache, input)),
        !misses(unsigned_request_of(env, cache, input)),
        !misses(JavaAuthorizeResult::sent(env, cache, result).result),
{
    JavaBootstrapConfig::lemma_registered_wraps(cache, input);
    if let Ok(Some(wrapper)) = JavaBootstrapConfig::wrapped(cache, input) {
        wrapper.lemma_converts_without_miss(env, cache);
    }
    JavaAuthorizeRequest::lemma_registered_wraps(cache, input);
    if let Ok(Some(wrapper)) = JavaAuthorizeRequest::wrapped(cache, input) {
        wrapper.lemma_converts_without_miss(env, cache);
    }
    JavaAuthorizeRequestUnsigned::lemma_registered_wraps(cache, input);
    if let Ok(Some(wrapper)) = JavaAuthorizeRequestUnsigned::wrapped(cache, input) {
        wrapper.lemma_converts_without_miss(env, cache);
    }
    JavaAuthorizeResult::lemma_builds_without_miss(env, cache, result);
}

} // verus!
