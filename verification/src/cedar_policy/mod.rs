//! The converters of decisions and their diagnostics, in the output direction.

pub mod authz_decision;
pub mod authz_error;
pub mod diagnostics;
pub mod policy_id;
pub mod policy_response;

use crate::cedar_policy::authz_decision::JavaAuthzDecision;
use crate::cedar_policy::authz_error::JavaAuthzError;
use crate::cedar_policy::diagnostics::JavaDiagnostics;
use crate::cedar_policy::policy_id::JavaPolicyId;
use crate::cedar_policy::policy_response::JavaPolicyResponse;
use crate::error::CedarlingBridgeError;
use crate::jni::env::{JavaEnv, JavaEnvView};
use crate::jni::jni_cache::{JniCache, JniCacheView, Registration};
use vstd::prelude::*;

verus! {

/// What this part of the bridge registers, converter by converter.
pub open spec fn registration(reg: Registration, env: JavaEnvView) -> Registration {
    JavaPolicyResponse::registration(
        JavaPolicyId::registration(
            JavaDiagnostics::registration(
                JavaAuthzError::registration(JavaAuthzDecision::registration(reg, env), env),
                env,
            ),
            env,
        ),
        env,
    )
}

/// Registers the handles of the decisions, errors, diagnostics, policy
/// identifiers and policy responses, in that order; stops at the first
/// failure.
pub fn jni_cache_init(env: &JavaEnv, cache: &mut JniCache) -> (res: Result<
    (),
    CedarlingBridgeError,
>)
    ensures
        registration(Registration::start(old(cache)@), env@).is_outcome(res, final(cache)@),
{
    JavaAuthzDecision::jni_cache_init(env, cache)?;
    JavaAuthzError::jni_cache_init(env, cache)?;
    JavaDiagnostics::jni_cache_init(env, cache)?;
    JavaPolicyId::jni_cache_init(env, cache)?;
    JavaPolicyResponse::jni_cache_init(env, cache)
}

/// Whether the cache holds every handle of this part of the bridge.
pub open spec fn is_registered(cache: JniCacheView) -> bool {
    &&& JavaAuthzDecision::is_registered(cache)
    &&& JavaAuthzError::is_registered(cache)
    &&& JavaDiagnostics::is_registered(cache)
    &&& JavaPolicyId::is_registered(cache)
    &&& JavaPolicyResponse::is_registered(cache)
}

/// A run that has gone through the registration of this part of the bridge
/// without a failure holds every handle of it, and has dropped nothing
/// that it held before.
pub proof fn lemma_registration_holds(reg: Registration, env: JavaEnvView)
    ensures
        registration(reg, env).continues(reg),
        registration(reg, env).failure is None ==> is_registered(registration(reg, env).cache),
{
    let r1 = JavaAuthzDecision::registration(reg, env);
    JavaAuthzDecision::lemma_registration_holds(reg, env);
    let r2 = JavaAuthzError::registration(r1, env);
    JavaAuthzError::lemma_registration_holds(r1, env);
    let r3 = JavaDiagnostics::registration(r2, env);
    JavaDiagnostics::lemma_registration_holds(r2, env);
    let r4 = JavaPolicyId::registration(r3, env);
    JavaPolicyId::lemma_registration_holds(r3, env);
    let r5 = JavaPolicyResponse::registration(r4, env);
    JavaPolicyResponse::lemma_registration_holds(r4, env);
    assert(r5 == registration(reg, env));
    r5.lemma_continues_on(r5, r4);
    r5.lemma_continues_on(r4, r3);
    r5.lemma_continues_on(r3, r2);
    r5.lemma_continues_on(r2, r1);
    r5.lemma_continues_on(r1, reg);
    if r5.failure is None {
        JavaAuthzDecision::lemma_registered_stays(r1.cache, r5.cache);
        JavaAuthzError::lemma_registered_stays(r2.cache, r5.cache);
        JavaDiagnostics::lemma_registered_stays(r3.cache, r5.cache);
        JavaPolicyId::lemma_registered_stays(r4.cache, r5.cache);
    }
}

/// What the cache holds for this part of the bridge stays when more is
/// registered.
pub proof fn lemma_registered_stays(earlier: JniCacheView, later: JniCacheView)
    requires
        is_registered(earlier),
        later.extends(earlier),
    ensures
        is_registered(later),
{
    JavaAuthzDecision::lemma_registered_stays(earlier, later);
    JavaAuthzError::lemma_registered_stays(earlier, later);
    JavaDiagnostics::lemma_registered_stays(earlier, later);
    JavaPolicyId::lemma_registered_stays(earlier, later);
    JavaPolicyResponse::lemma_registered_stays(earlier, later);
}

} // verus!
