//! The converters of requests, in the input direction, and of results, in
//! the output direction.

pub mod authorize_request;
pub mod authorize_request_unsigned;
pub mod authorize_result;
pub mod cedar_entity_mapping;
pub mod context;
pub mod entity_data;

use crate::authz::authorize_request::JavaAuthorizeRequest;
use crate::authz::authorize_request_unsigned::JavaAuthorizeRequestUnsigned;
use crate::authz::authorize_result::JavaAuthorizeResult;
use crate::authz::cedar_entity_mapping::JavaCedarEntityMapping;
use crate::authz::context::JavaContext;
use crate::authz::entity_data::JavaEntityData;
use crate::error::CedarlingBridgeError;
use crate::jni::env::{JavaEnv, JavaEnvView};
use crate::jni::jni_cache::{JniCache, JniCacheView, Registration};
use vstd::prelude::*;

verus! {

/// What this part of the bridge registers, converter by converter.
pub open spec fn registration(reg: Registration, env: JavaEnvView) -> Registration {
    JavaContext::registration(
        JavaEntityData::registration(
            JavaCedarEntityMapping::registration(
                JavaAuthorizeResult::registration(
                    JavaAuthorizeRequestUnsigned::registration(
                        JavaAuthorizeRequest::registration(reg, env),
                        env,
                    ),
                    env,
                ),
                env,
            ),
            env,
        ),
        env,
    )
}

/// Registers the handles of the two kinds of request, of the result, of
/// the entity mapping, of the entity and of the context, in that order;
/// stops at the first failure.
pub fn jni_cache_init(env: &JavaEnv, cache: &mut JniCache) -> (res: Result<
    (),
    CedarlingBridgeError,
>)
    ensures
        registration(Registration::start(old(cache)@), env@).is_outcome(res, final(cache)@),
{
    JavaAuthorizeRequest::jni_cache_init(env, cache)?;
    JavaAuthorizeRequestUnsigned::jni_cache_init(env, cache)?;
    JavaAuthorizeResult::jni_cache_init(env, cache)?;
    JavaCedarEntityMapping::jni_cache_init(env, cache)?;
    JavaEntityData::jni_cache_init(env, cache)?;
    JavaContext::jni_cache_init(env, cache)
}

/// Whether the cache holds every handle of this part of the bridge.
pub open spec fn is_registered(cache: JniCacheView) -> bool {
    &&& JavaAuthorizeRequest::is_registered(cache)
    &&& JavaAuthorizeRequestUnsigned::is_registered(cache)
    &&& JavaAuthorizeResult::is_registered(cache)
    &&& JavaCedarEntityMapping::is_registered(cache)
    &&& JavaEntityData::is_registered(cache)
    &&& JavaContext::is_registered(cache)
}

/// A run that has gone through the registration of this part of the bridge
/// without a failure holds every handle of it, and has dropped nothing
/// that it held before.
pub proof fn lemma_registration_holds(reg: Registration, env: JavaEnvView)
    ensures
        registration(reg, env).continues(reg),
        registration(reg, env).failure is None ==> is_registered(registration(reg, env).cache),
{
    let r1 = JavaAuthorizeRequest::registration(reg, env);
    JavaAuthorizeRequest::lemma_registration_holds(reg, env);
    let r2 = JavaAuthorizeRequestUnsigned::registration(r1, env);
    JavaAuthorizeRequestUnsigned::lemma_registration_holds(r1, env);
    let r3 = JavaAuthorizeResult::registration(r2, env);
    JavaAuthorizeResult::lemma_registration_holds(r2, env);
    let r4 = JavaCedarEntityMapping::registration(r3, env);
    JavaCedarEntityMapping::lemma_registration_holds(r3, env);
    let r5 = JavaEntityData::registration(r4, env);
    JavaEntityData::lemma_registration_holds(r4, env);
    let r6 = JavaContext::registration(r5, env);
    JavaContext::lemma_registration_holds(r5, env);
    assert(r6 == registration(reg, env));
    r6.lemma_continues_on(r6, r5);
    r6.lemma_continues_on(r5, r4);
    r6.lemma_continues_on(r4, r3);
    r6.lemma_continues_on(r3, r2);
    r6.lemma_continues_on(r2, r1);
    r6.lemma_continues_on(r1, reg);
    if r6.failure is None {
        JavaAuthorizeRequest::lemma_registered_stays(r1.cache, r6.cache);
        JavaAuthorizeRequestUnsigned::lemma_registered_stays(r2.cache, r6.cache);
        JavaAuthorizeResult::lemma_registered_stays(r3.cache, r6.cache);
        JavaCedarEntityMapping::lemma_registered_stays(r4.cache, r6.cache);
        JavaEntityData::lemma_registered_stays(r5.cache, r6.cache);
    }
}

/// What the cache holds for this part of the bridge stays when more is
/// registered.
pub proof fn lemma_registered_stays(earlier: JniCacheView, later: JniCacheView)
    requires
        is_registered(earlier),
        later.extends(earlier),
    ensures
        is_registered(later),
{
    JavaAuthorizeRequest::lemma_registered_stays(earlier, later);
    JavaAuthorizeRequestUnsigned::lemma_registered_stays(earlier, later);
    JavaAuthorizeResult::lemma_registered_stays(earlier, later);
    JavaCedarEntityMapping::lemma_registered_stays(earlier, later);
    JavaEntityData::lemma_registered_stays(earlier, later);
    JavaContext::lemma_registered_stays(earlier, later);
}

} // verus!
