//! The converters of the configuration sections.

pub mod authorization_config;
pub mod bootstrap_config;
pub mod entity_builder_config;
pub mod entity_names;
pub mod id_token_trust_mode;
pub mod json_rule;
pub mod jwt_algorithm;
pub mod jwt_config;
pub mod lock_service_config;
pub mod log_config;
pub mod log_level;
pub mod log_type;
pub mod memory_log_config;
pub mod policy_store_config;
pub mod policy_store_source;
pub mod unsigned_role_id_src;

use crate::config::authorization_config::JavaAuthorizationConfig;
use crate::config::bootstrap_config::JavaBootstrapConfig;
use crate::config::entity_builder_config::JavaEntityBuilderConfig;
use crate::config::entity_names::JavaEntityNames;
use crate::config::json_rule::JavaJsonRule;
use crate::config::jwt_config::JavaJwtConfig;
use crate::config::lock_service_config::JavaLockServiceConfig;
use crate::config::log_config::JavaLogConfig;
use crate::config::memory_log_config::JavaMemoryLogConfig;
use crate::config::policy_store_config::JavaPolicyStoreConfig;
use crate::error::CedarlingBridgeError;
use crate::jni::env::{JavaEnv, JavaEnvView};
use crate::jni::jni_cache::{JniCache, JniCacheView, Registration};
use vstd::prelude::*;

verus! {

/// What the first five converters of this part register.
pub open spec fn registration_front(reg: Registration, env: JavaEnvView) -> Registration {
    JavaJsonRule::registration(
        JavaEntityNames::registration(
            JavaEntityBuilderConfig::registration(
                JavaBootstrapConfig::registration(
                    JavaAuthorizationConfig::registration(reg, env),
                    env,
                ),
                env,
            ),
            env,
        ),
        env,
    )
}

/// What this part of the bridge registers, converter by converter.
pub open spec fn registration(reg: Registration, env: JavaEnvView) -> Registration {
    JavaPolicyStoreConfig::registration(
        JavaMemoryLogConfig::registration(
            JavaLogConfig::registration(
                JavaLockServiceConfig::registration(
                    JavaJwtConfig::registration(registration_front(reg, env), env),
                    env,
                ),
                env,
            ),
            env,
        ),
        env,
    )
}

/// Registers the handles of the configuration sections: authorization,
/// whole configuration, entity builder, entity names, rule, token
/// validation, lock service, logging, memory log and policy store, in that
/// order; stops at the first failure.
pub fn jni_cache_init(env: &JavaEnv, cache: &mut JniCache) -> (res: Result<
    (),
    CedarlingBridgeError,
>)
    ensures
        registration(Registration::start(old(cache)@), env@).is_outcome(res, final(cache)@),
{
    JavaAuthorizationConfig::jni_cache_init(env, cache)?;
    JavaBootstrapConfig::jni_cache_init(env, cache)?;
    JavaEntityBuilderConfig::jni_cache_init(env, cache)?;
    JavaEntityNames::jni_cache_init(env, cache)?;
    JavaJsonRule::jni_cache_init(env, cache)?;
    JavaJwtConfig::jni_cache_init(env, cache)?;
    JavaLockServiceConfig::jni_cache_init(env, cache)?;
    JavaLogConfig::jni_cache_init(env, cache)?;
    JavaMemoryLogConfig::jni_cache_init(env, cache)?;
    JavaPolicyStoreConfig::jni_cache_init(env, cache)
}

/// Whether the cache holds every handle of this part of the bridge.
pub open spec fn is_registered(cache: JniCacheView) -> bool {
    &&& JavaAuthorizationConfig::is_registered(cache)
    &&& JavaBootstrapConfig::is_registered(cache)
    &&& JavaEntityBuilderConfig::is_registered(cache)
    &&& JavaEntityNames::is_registered(cache)
    &&& JavaJsonRule::is_registered(cache)
    &&& JavaJwtConfig::is_registered(cache)
    &&& JavaLockServiceConfig::is_registered(cache)
    &&& JavaLogConfig::is_registered(cache)
    &&& JavaMemoryLogConfig::is_registered(cache)
    &&& JavaPolicyStoreConfig::is_registered(cache)
}

/// A run that has gone through the registration of this part of the bridge
/// without a failure holds every handle of it, and has dropped nothing
/// that it held before.
pub proof fn lemma_registration_holds(reg: Registration, env: JavaEnvView)
    ensures
        registration(reg, env).continues(reg),
        registration(reg, env).failure is None ==> is_registered(registration(reg, env).cache),
{
    let r1 = JavaAuthorizationConfig::registration(reg, env);
    JavaAuthorizationConfig::lemma_registration_holds(reg, env);
    let r2 = JavaBootstrapConfig::registration(r1, env);
    JavaBootstrapConfig::lemma_registration_holds(r1, env);
    let r3 = JavaEntityBuilderConfig::registration(r2, env);
    JavaEntityBuilderConfig::lemma_registration_holds(r2, env);
    let r4 = JavaEntityNames::registration(r3, env);
    JavaEntityNames::lemma_registration_holds(r3, env);
    let r5 = JavaJsonRule::registration(r4, env);
    JavaJsonRule::lemma_registration_holds(r4, env);
    let r6 = JavaJwtConfig::registration(r5, env);
    JavaJwtConfig::lemma_registration_holds(r5, env);
    let r7 = JavaLockServiceConfig::registration(r6, env);
    JavaLockServiceConfig::lemma_registration_holds(r6, env);
    let r8 = JavaLogConfig::registration(r7, env);
    JavaLogConfig::lemma_registration_holds(r7, env);
    let r9 = JavaMemoryLogConfig::registration(r8, env);
    JavaMemoryLogConfig::lemma_registration_holds(r8, env);
    let r10 = JavaPolicyStoreConfig::registration(r9, env);
    JavaPolicyStoreConfig::lemma_registration_holds(r9, env);
    assert(r10 == registration(reg, env));
    r10.lemma_continues_on(r10, r9);
    r10.lemma_continues_on(r9, r8);
    r10.lemma_continues_on(r8, r7);
    r10.lemma_continues_on(r7, r6);
    r10.lemma_continues_on(r6, r5);
    r10.lemma_continues_on(r5, r4);
    r10.lemma_continues_on(r4, r3);
    r10.lemma_continues_on(r3, r2);
    r10.lemma_continues_on(r2, r1);
    r10.lemma_continues_on(r1, reg);
    if r10.failure is None {
        JavaAuthorizationConfig::lemma_registered_stays(r1.cache, r10.cache);
        JavaBootstrapConfig::lemma_registered_stays(r2.cache, r10.cache);
        JavaEntityBuilderConfig::lemma_registered_stays(r3.cache, r10.cache);
        JavaEntityNames::lemma_registered_stays(r4.cache, r10.cache);
        JavaJsonRule::lemma_registered_stays(r5.cache, r10.cache);
        JavaJwtConfig::lemma_registered_stays(r6.cache, r10.cache);
        JavaLockServiceConfig::lemma_registered_stays(r7.cache, r10.cache);
        JavaLogConfig::lemma_registered_stays(r8.cache, r10.cache);
        JavaMemoryLogConfig::lemma_registered_stays(r9.cache, r10.cache);
    }
}

/// What the cache holds for this part of the bridge stays when more is
/// registered.
pub proof fn lemma_registered_stays(earlier: JniCacheView, later: JniCacheView)
    requires
        is_registered(earlier),
        later.extends(earlier),
    ensures
        is_registered(later),
{
    JavaAuthorizationConfig::lemma_registered_stays(earlier, later);
    JavaBootstrapConfig::lemma_registered_stays(earlier, later);
    JavaEntityBuilderConfig::lemma_registered_stays(earlier, later);
    JavaEntityNames::lemma_registered_stays(earlier, later);
    JavaJsonRule::lemma_registered_stays(earlier, later);
    JavaJwtConfig::lemma_registered_stays(earlier, later);
    JavaLockServiceConfig::lemma_registered_stays(earlier, later);
    JavaLogConfig::lemma_registered_stays(earlier, later);
    JavaMemoryLogConfig::lemma_registered_stays(earlier, later);
    JavaPolicyStoreConfig::lemma_registered_stays(earlier, later);
}

} // verus!
