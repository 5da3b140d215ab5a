//! Foreign durations, read as a count of nanoseconds.

use crate::error::{CedarlingBridgeError, CedarlingBridgeErrorView, is_result, misses};
use crate::jni::env::{JMethodID, JObject, JavaEnv, JavaEnvView};
use crate::jni::jni_cache::{JniCache, JniCacheView, Registration};
use crate::jni::util::{call_jni_long_method, lemma_reads_never_miss, long_result, no_args};
use crate::outside::{duration_from_nanos, duration_of_nanos};
use std::time::Duration;
use vstd::prelude::*;

verus! {

pub const JAVA_CLS_NAME: &'static str = "java/time/Duration";

pub const JAVA_METHOD_NAME_TO_NANOS: &'static str = "toNanos";

pub const JAVA_METHOD_SIG_TO_NANOS: &'static str = "()J";

/// A foreign duration with the handle that reads it.
#[derive(Clone, Copy, Debug)]
pub struct JavaDuration {
    pub jobj: JObject,
    pub to_nanos_method: JMethodID,
}

impl JavaDuration {
    /// What the duration converter registers.
    pub open spec fn registration(reg: Registration, env: JavaEnvView) -> Registration {
        reg.class(env, JAVA_CLS_NAME@).method(
            env,
            JAVA_CLS_NAME@,
            JAVA_METHOD_NAME_TO_NANOS@,
            JAVA_METHOD_SIG_TO_NANOS@,
        )
    }

    /// Registers the duration class and its accessor.
    pub fn jni_cache_init(env: &JavaEnv, cache: &mut JniCache) -> (res: Result<
        (),
        CedarlingBridgeError,
    >)
        ensures
            Self::registration(Registration::start(old(cache)@), env@).is_outcome(
                res,
                final(cache)@,
            ),
    {
        cache.add_class(env, JAVA_CLS_NAME)?;
        cache.add_instance_method(
            env,
            JAVA_CLS_NAME,
            JAVA_METHOD_NAME_TO_NANOS,
            JAVA_METHOD_SIG_TO_NANOS,
        )
    }

    /// What wrapping a foreign duration gives: nothing for the null
    /// reference, else the duration with its handle from the cache.
    pub open spec fn wrapped(cache: JniCacheView, jobj: JObject) -> Result<
        Option<JavaDuration>,
        CedarlingBridgeErrorView,
    > {
        if jobj.is_null() {
            Ok(None)
        } else {
            match cache.method(
                JAVA_CLS_NAME@,
                JAVA_METHOD_NAME_TO_NANOS@,
                JAVA_METHOD_SIG_TO_NANOS@,
            ) {
                Err(e) => Err(e),
                Ok(to_nanos_method) => Ok(Some(JavaDuration { jobj, to_nanos_method })),
            }
        }
    }

    /// Wraps a foreign duration.
    pub fn new(cache: &JniCache, jobj: JObject) -> (res: Result<
        Option<JavaDuration>,
        CedarlingBridgeError,
    >)
        ensures
            is_result(res, Self::wrapped(cache@, jobj)),
    {
        if jobj.is_null() {
            return Ok(None);
        }
        let to_nanos_key = (JAVA_CLS_NAME, JAVA_METHOD_NAME_TO_NANOS, JAVA_METHOD_SIG_TO_NANOS);
        Ok(
            Some(
                JavaDuration {
                    jobj: jobj,
                    to_nanos_method: cache.get_instance_method(&to_nanos_key)?,
                },
            ),
        )
    }

    /// The native span of a count of nanoseconds. The count is taken as
    /// unsigned: a negative one stands for the value with the same 64 bits.
    pub open spec fn span_of(nanos: i64) -> Duration {
        duration_of_nanos(nanos as u64)
    }

    /// Turns a count of nanoseconds into a native span.
    pub fn from_nanos(nanos: i64) -> (span: Duration)
        ensures
            span == Self::span_of(nanos),
    {
        duration_from_nanos(#[verifier::truncate] (nanos as u64))
    }

    /// The native span that the duration stands for.
    pub open spec fn spec_duration(self, env: JavaEnvView) -> Result<
        Duration,
        CedarlingBridgeErrorView,
    > {
        match long_result(env, self.jobj, self.to_nanos_method, Seq::empty()) {
            Err(e) => Err(e),
            Ok(nanos) => Ok(Self::span_of(nanos)),
        }
    }

    /// Converts the duration into a native span.
    pub fn to_duration(&self, env: &JavaEnv) -> (res: Result<Duration, CedarlingBridgeError>)
        ensures
            is_result(res, self.spec_duration(env@)),
    {
        let duration_nanos = call_jni_long_method(
            env,
            &self.jobj,
            &self.to_nanos_method,
            &no_args(),
        )?;
        Ok(Self::from_nanos(duration_nanos))
    }

    /// Whether the cache holds the class of this converter and every one of
    /// its handles.
    pub open spec fn is_registered(cache: JniCacheView) -> bool {
        &&& cache.classes.contains_key(JAVA_CLS_NAME@)
        &&& cache.methods.contains_key(
            (JAVA_CLS_NAME@, JAVA_METHOD_NAME_TO_NANOS@, JAVA_METHOD_SIG_TO_NANOS@),
        )
    }

    /// A run that has gone through the registration of this converter
    /// without a failure holds every one of its handles, and has dropped
    /// nothing that it held before.
    pub proof fn lemma_registration_holds(reg: Registration, env: JavaEnvView)
        ensures
            Self::registration(reg, env).continues(reg),
            Self::registration(reg, env).failure is None ==> Self::is_registered(
                Self::registration(reg, env).cache,
            ),
    {
        let r0 = reg.class(env, JAVA_CLS_NAME@);
        reg.lemma_class_is_held(env, JAVA_CLS_NAME@);
        let r1 = r0.method(
            env,
            JAVA_CLS_NAME@,
            JAVA_METHOD_NAME_TO_NANOS@,
            JAVA_METHOD_SIG_TO_NANOS@,
        );
        r0.lemma_method_is_held(
            env,
            JAVA_CLS_NAME@,
            JAVA_METHOD_NAME_TO_NANOS@,
            JAVA_METHOD_SIG_TO_NANOS@,
        );
    }

    /// What the cache holds for this converter stays when more is registered.
    pub proof fn lemma_registered_stays(earlier: JniCacheView, later: JniCacheView)
        requires
            Self::is_registered(earlier),
            later.extends(earlier),
        ensures
            Self::is_registered(later),
    {
    }

    /// With every handle in the cache, wrapping an object finds them all:
    /// it cannot miss.
    pub proof fn lemma_registered_wraps(cache: JniCacheView, jobj: JObject)
        requires
            Self::is_registered(cache),
        ensures
            Self::wrapped(cache, jobj) is Ok,
            !jobj.is_null() ==> Self::wrapped(cache, jobj)->Ok_0 is Some,
    {
    }

    /// Reading a duration never fails on a miss in the cache.
    pub proof fn lemma_converts_without_miss(self, env: JavaEnvView)
        ensures
            !misses(self.spec_duration(env)),
    {
        lemma_reads_never_miss(env, self.jobj, self.to_nanos_method, Seq::empty());
    }
}

} // verus!
