//! The foreign runtime, the cache of its handles and the primitives that
//! read foreign values.

pub mod env;
pub mod jni_cache;
pub mod util;
pub mod list;
pub mod signature;
pub mod uri;
pub mod duration;
pub mod file;

use crate::error::CedarlingBridgeError;
use crate::jni::duration::JavaDuration;
use crate::jni::env::{JavaEnv, JavaEnvView};
use crate::jni::file::JavaFile;
use crate::jni::jni_cache::{JniCache, JniCacheView, Registration};
use crate::jni::list::JavaList;
use crate::jni::uri::JavaURI;
use vstd::prelude::*;

verus! {

/// What this part of the bridge registers, converter by converter.
pub open spec fn registration(reg: Registration, env: JavaEnvView) -> Registration {
    crate::jni::util::registration(
        JavaURI::registration(
            JavaList::registration(
                JavaFile::registration(JavaDuration::registration(reg, env), env),
                env,
            ),
            env,
        ),
        env,
    )
}

/// Registers the handles of the durations, files, lists and URIs and of the
/// primitives themselves, in that order; stops at the first failure.
pub fn jni_cache_init(env: &JavaEnv, cache: &mut JniCache) -> (res: Result<
    (),
    CedarlingBridgeError,
>)
    ensures
        registration(Registration::start(old(cache)@), env@).is_outcome(res, final(cache)@),
{
    JavaDuration::jni_cache_init(env, cache)?;
    JavaFile::jni_cache_init(env, cache)?;
    JavaList::jni_cache_init(env, cache)?;
    JavaURI::jni_cache_init(env, cache)?;
    crate::jni::util::jni_cache_init(env, cache)
}

/// Whether the cache holds every handle of this part of the bridge.
pub open spec fn is_registered(cache: JniCacheView) -> bool {
    &&& JavaDuration::is_registered(cache)
    &&& JavaFile::is_registered(cache)
    &&& JavaList::is_registered(cache)
    &&& JavaURI::is_registered(cache)
    &&& crate::jni::util::is_registered(cache)
}

/// A run that has gone through the registration of this part of the bridge
/// without a failure holds every handle of it, and has dropped nothing
/// that it held before.
pub proof fn lemma_registration_holds(reg: Registration, env: JavaEnvView)
    ensures
        registration(reg, env).continues(reg),
        registration(reg, env).failure is None ==> is_registered(registration(reg, env).cache),
{
    let r1 = JavaDuration::registration(reg, env);
    JavaDuration::lemma_registration_holds(reg, env);
    let r2 = JavaFile::registration(r1, env);
    JavaFile::lemma_registration_holds(r1, env);
    let r3 = JavaList::registration(r2, env);
    JavaList::lemma_registration_holds(r2, env);
    let r4 = JavaURI::registration(r3, env);
    JavaURI::lemma_registration_holds(r3, env);
    let r5 = crate::jni::util::registration(r4, env);
    crate::jni::util::lemma_registration_holds(r4, env);
    assert(r5 == registration(reg, env));
    r5.lemma_continues_on(r5, r4);
    r5.lemma_continues_on(r4, r3);
    r5.lemma_continues_on(r3, r2);
    r5.lemma_continues_on(r2, r1);
    r5.lemma_continues_on(r1, reg);
    if r5.failure is None {
        JavaDuration::lemma_registered_stays(r1.cache, r5.cache);
        JavaFile::lemma_registered_stays(r2.cache, r5.cache);
        JavaList::lemma_registered_stays(r3.cache, r5.cache);
        JavaURI::lemma_registered_stays(r4.cache, r5.cache);
    }
}

/// What the cache holds for this part of the bridge stays when more is
/// registered.
pub proof fn lemma_registered_stays(earlier: JniCacheView, later: JniCacheView)
    requires
        is_registered(earlier),
        later.extends(earlier),
    ensures
        is_registered(later),
{
    JavaDuration::lemma_registered_stays(earlier, later);
    JavaFile::lemma_registered_stays(earlier, later);
    JavaList::lemma_registered_stays(earlier, later);
    JavaURI::lemma_registered_stays(earlier, later);
    crate::jni::util::lemma_registered_stays(earlier, later);
}

} // verus!
