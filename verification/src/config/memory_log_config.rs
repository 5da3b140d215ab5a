//! The converter of the memory log section.

use crate::engine::config::MemoryLogConfig;
use crate::error::{CedarlingBridgeError, CedarlingBridgeErrorView, is_result, misses};
use crate::jni::env::{JMethodID, JObject, JavaEnv, JavaEnvView};
use crate::jni::jni_cache::{JniCache, JniCacheView, Registration};
use crate::jni::util::{call_jni_long_method, call_jni_opt_long_method, lemma_reads_never_miss};
use crate::jni::util::{lemma_registered_never_misses, long_result, no_args, opt_long_result};
use vstd::prelude::*;

verus! {

pub const JAVA_CLS_NAME: &'static str = "io/jans/cedarling/bridge/config/MemoryLogConfiguration";

pub const JAVA_METHOD_NAME_GET_LOG_TTL: &'static str = "getLogTtl";

pub const JAVA_METHOD_SIG_GET_LOG_TTL: &'static str = "()J";

pub const JAVA_METHOD_NAME_GET_MAX_ITEMS: &'static str = "getMaxItems";

pub const JAVA_METHOD_SIG_GET_MAX_ITEMS: &'static str = "()Ljava/lang/Long;";

pub const JAVA_METHOD_NAME_GET_MAX_ITEM_SIZE: &'static str = "getMaxItemSize";

pub const JAVA_METHOD_SIG_GET_MAX_ITEM_SIZE: &'static str = "()Ljava/lang/Long;";

/// A foreign memory log section with the handles that read it.
#[derive(Clone, Copy, Debug)]
pub struct JavaMemoryLogConfig {
    pub jobj: JObject,
    pub get_log_ttl_method: JMethodID,
    pub get_max_items_method: JMethodID,
    pub get_max_item_size_method: JMethodID,
}

impl JavaMemoryLogConfig {
    /// What this converter registers: its class, then each of its methods.
    pub open spec fn registration(reg: Registration, env: JavaEnvView) -> Registration {
        reg.class(env, JAVA_CLS_NAME@)
            .method(
                env,
                JAVA_CLS_NAME@,
                JAVA_METHOD_NAME_GET_LOG_TTL@,
                JAVA_METHOD_SIG_GET_LOG_TTL@,
            )
            .method(
                env,
                JAVA_CLS_NAME@,
                JAVA_METHOD_NAME_GET_MAX_ITEMS@,
                JAVA_METHOD_SIG_GET_MAX_ITEMS@,
            )
            .method(
                env,
                JAVA_CLS_NAME@,
                JAVA_METHOD_NAME_GET_MAX_ITEM_SIZE@,
                JAVA_METHOD_SIG_GET_MAX_ITEM_SIZE@,
            )
    }

    /// Registers the class and its methods; stops at the first that the
    /// runtime cannot resolve.
    pub fn jni_cache_init(env: &JavaEnv, cache: &mut JniCache) -> (res: Result<
        (),
        CedarlingBridgeError,
    >)
        ensures
            Self::registration(Registration::start(old(cache)@), env@).is_outcome(
                res,
                final(cache)@,
            ),
    {
        cache.add_class(env, JAVA_CLS_NAME)?;
        cache.add_instance_method(
            env,
            JAVA_CLS_NAME,
            JAVA_METHOD_NAME_GET_LOG_TTL,
            JAVA_METHOD_SIG_GET_LOG_TTL,
        )?;
        cache.add_instance_method(
            env,
            JAVA_CLS_NAME,
            JAVA_METHOD_NAME_GET_MAX_ITEMS,
            JAVA_METHOD_SIG_GET_MAX_ITEMS,
        )?;
        cache.add_instance_method(
            env,
            JAVA_CLS_NAME,
            JAVA_METHOD_NAME_GET_MAX_ITEM_SIZE,
            JAVA_METHOD_SIG_GET_MAX_ITEM_SIZE,
        )
    }

    /// What wrapping a foreign object gives: nothing for the null reference,
    /// else the object with its handles from the cache, or the report of the
    /// first handle that the cache does not hold.
    pub open spec fn wrapped(cache: JniCacheView, jobj: JObject) -> Result<
        Option<JavaMemoryLogConfig>,
        CedarlingBridgeErrorView,
    > {
        if jobj.is_null() {
            Ok(None)
        } else {
            match cache.method(
                JAVA_CLS_NAME@,
                JAVA_METHOD_NAME_GET_LOG_TTL@,
                JAVA_METHOD_SIG_GET_LOG_TTL@,
            ) {
                Err(e) => Err(e),
                Ok(get_log_ttl_method) => match cache.method(
                    JAVA_CLS_NAME@,
                    JAVA_METHOD_NAME_GET_MAX_ITEMS@,
                    JAVA_METHOD_SIG_GET_MAX_ITEMS@,
                ) {
                    Err(e) => Err(e),
                    Ok(get_max_items_method) => match cache.method(
                        JAVA_CLS_NAME@,
                        JAVA_METHOD_NAME_GET_MAX_ITEM_SIZE@,
                        JAVA_METHOD_SIG_GET_MAX_ITEM_SIZE@,
                    ) {
                        Err(e) => Err(e),
                        Ok(get_max_item_size_method) => Ok(
                            Some(
                                JavaMemoryLogConfig {
                                    jobj,
                                    get_log_ttl_method,
                                    get_max_items_method,
                                    get_max_item_size_method,
                                },
                            ),
                        ),
                    },
                },
            }
        }
    }

    /// Wraps a foreign object.
    pub fn new(cache: &JniCache, jobj: JObject) -> (res: Result<
        Option<JavaMemoryLogConfig>,
        CedarlingBridgeError,
    >)
        ensures
            is_result(res, Self::wrapped(cache@, jobj)),
    {
        if jobj.is_null() {
            return Ok(None);
        }
        let get_log_ttl_key = (
            JAVA_CLS_NAME,
            JAVA_METHOD_NAME_GET_LOG_TTL,
            JAVA_METHOD_SIG_GET_LOG_TTL,
        );
        let get_max_items_key = (
            JAVA_CLS_NAME,
            JAVA_METHOD_NAME_GET_MAX_ITEMS,
            JAVA_METHOD_SIG_GET_MAX_ITEMS,
        );
        let get_max_item_size_key = (
            JAVA_CLS_NAME,
            JAVA_METHOD_NAME_GET_MAX_ITEM_SIZE,
            JAVA_METHOD_SIG_GET_MAX_ITEM_SIZE,
        );
        Ok(
            Some(
                JavaMemoryLogConfig {
                    jobj: jobj,
                    get_log_ttl_method: cache.get_instance_method(&get_log_ttl_key)?,
                    get_max_items_method: cache.get_instance_method(&get_max_items_key)?,
                    get_max_item_size_method: cache.get_instance_method(&get_max_item_size_key)?,
                },
            ),
        )
    }

    /// What asking the object for `getLogTtl` gives.
    pub open spec fn spec_get_log_ttl(self, env: JavaEnvView) -> Result<
        i64,
        CedarlingBridgeErrorView,
    > {
        long_result(env, self.jobj, self.get_log_ttl_method, Seq::empty())
    }

    /// Asks the object for `getLogTtl`.
    pub fn get_log_ttl(&self, env: &JavaEnv) -> (res: Result<
        i64,
        CedarlingBridgeError,
    >)
        ensures
            is_result(res, self.spec_get_log_ttl(env@)),
    {
        call_jni_long_method(env, &self.jobj, &self.get_log_ttl_method, &no_args())
    }

    /// What asking the object for `getMaxItems` gives.
    pub open spec fn spec_get_max_items(self, env: JavaEnvView, cache: JniCacheView) -> Result<
        Option<i64>,
        CedarlingBridgeErrorView,
    > {
        opt_long_result(env, cache, self.jobj, self.get_max_items_method, Seq::empty())
    }

    /// Asks the object for `getMaxItems`.
    pub fn get_max_items(&self, env: &JavaEnv, cache: &JniCache) -> (res: Result<
        Option<i64>,
        CedarlingBridgeError,
    >)
        ensures
            is_result(res, self.spec_get_max_items(env@, cache@)),
    {
        call_jni_opt_long_method(
            env,
            cache,
            &self.jobj,
            &self.get_max_items_method,
            &no_args(),
        )
    }

    /// What asking the object for `getMaxItemSize` gives.
    pub open spec fn spec_get_max_item_size(self, env: JavaEnvView, cache: JniCacheView) -> Result<
        Option<i64>,
        CedarlingBridgeErrorView,
    > {
        opt_long_result(env, cache, self.jobj, self.get_max_item_size_method, Seq::empty())
    }

    /// Asks the object for `getMaxItemSize`.
    pub fn get_max_item_size(&self, env: &JavaEnv, cache: &JniCache) -> (res: Result<
        Option<i64>,
        CedarlingBridgeError,
    >)
        ensures
            is_result(res, self.spec_get_max_item_size(env@, cache@)),
    {
        call_jni_opt_long_method(
            env,
            cache,
            &self.jobj,
            &self.get_max_item_size_method,
            &no_args(),
        )
    }


    /// A foreign count as a native size: the bits of the number, taken as
    /// unsigned and cut to the width of a size.
    pub open spec fn size_of(count: Option<i64>) -> Option<usize> {
        match count {
            Some(v) => Some(v as usize),
            None => None,
        }
    }

    /// Turns an optional foreign count into a native size.
    pub fn to_size(count: Option<i64>) -> (size: Option<usize>)
        ensures
            size == Self::size_of(count),
    {
        match count {
            Some(v) => Some(#[verifier::truncate] (v as usize)),
            None => None,
        }
    }

    /// The native memory log section that the object stands for: the time
    /// to live, taken as unsigned, and the two bounds, which may be absent.
    pub open spec fn converted(self, env: JavaEnvView, cache: JniCacheView) -> Result<
        MemoryLogConfig,
        CedarlingBridgeErrorView,
    > {
        match self.spec_get_log_ttl(env) {
            Err(e) => Err(e),
            Ok(log_ttl) => match self.spec_get_max_items(env, cache) {
                Err(e) => Err(e),
                Ok(max_items) => match self.spec_get_max_item_size(env, cache) {
                    Err(e) => Err(e),
                    Ok(max_item_size) => Ok(
                        MemoryLogConfig {
                            log_ttl: log_ttl as u64,
                            max_items: Self::size_of(max_items),
                            max_item_size: Self::size_of(max_item_size),
                        },
                    ),
                },
            },
        }
    }

    /// Converts the memory log section.
    pub fn as_cedarling_memory_log_config(&self, env: &JavaEnv, cache: &JniCache) -> (res: Result<
        MemoryLogConfig,
        CedarlingBridgeError,
    >)
        ensures
            is_result(res, self.converted(env@, cache@)),
    {
        let log_ttl = #[verifier::truncate] (self.get_log_ttl(env)? as u64);
        let max_items: Option<usize> = Self::to_size(self.get_max_items(env, cache)?);
        let max_item_size: Option<usize> = Self::to_size(self.get_max_item_size(env, cache)?);
        Ok(MemoryLogConfig { log_ttl: log_ttl, max_items: max_items, max_item_size: max_item_size })
    }

    /// Whether the cache holds the class of this converter and every one of
    /// its handles.
    pub open spec fn is_registered(cache: JniCacheView) -> bool {
        &&& cache.classes.contains_key(JAVA_CLS_NAME@)
        &&& cache.methods.contains_key(
            (JAVA_CLS_NAME@, JAVA_METHOD_NAME_GET_LOG_TTL@, JAVA_METHOD_SIG_GET_LOG_TTL@),
        )
        &&& cache.methods.contains_key(
            (JAVA_CLS_NAME@, JAVA_METHOD_NAME_GET_MAX_ITEMS@, JAVA_METHOD_SIG_GET_MAX_ITEMS@),
        )
        &&& cache.methods.contains_key(
            (JAVA_CLS_NAME@, JAVA_METHOD_NAME_GET_MAX_ITEM_SIZE@, JAVA_METHOD_SIG_GET_MAX_ITEM_SIZE@),
        )
    }

    /// A run that has gone through the registration of this converter
    /// without a failure holds every one of its handles, and has dropped
    /// nothing that it held before.
    pub proof fn lemma_registration_holds(reg: Registration, env: JavaEnvView)
        ensures
            Self::registration(reg, env).continues(reg),
            Self::registration(reg, env).failure is None ==> Self::is_registered(
                Self::registration(reg, env).cache,
            ),
    {
        let r0 = reg.class(env, JAVA_CLS_NAME@);
        reg.lemma_class_is_held(env, JAVA_CLS_NAME@);
        let r1 = r0.method(
            env,
            JAVA_CLS_NAME@,
            JAVA_METHOD_NAME_GET_LOG_TTL@,
            JAVA_METHOD_SIG_GET_LOG_TTL@,
        );
        r0.lemma_method_is_held(
            env,
            JAVA_CLS_NAME@,
            JAVA_METHOD_NAME_GET_LOG_TTL@,
            JAVA_METHOD_SIG_GET_LOG_TTL@,
        );
        let r2 = r1.method(
            env,
            JAVA_CLS_NAME@,
            JAVA_METHOD_NAME_GET_MAX_ITEMS@,
            JAVA_METHOD_SIG_GET_MAX_ITEMS@,
        );
        r1.lemma_method_is_held(
            env,
            JAVA_CLS_NAME@,
            JAVA_METHOD_NAME_GET_MAX_ITEMS@,
            JAVA_METHOD_SIG_GET_MAX_ITEMS@,
        );
        let r3 = r2.method(
            env,
            JAVA_CLS_NAME@,
            JAVA_METHOD_NAME_GET_MAX_ITEM_SIZE@,
            JAVA_METHOD_SIG_GET_MAX_ITEM_SIZE@,
        );
        r2.lemma_method_is_held(
            env,
            JAVA_CLS_NAME@,
            JAVA_METHOD_NAME_GET_MAX_ITEM_SIZE@,
            JAVA_METHOD_SIG_GET_MAX_ITEM_SIZE@,
        );
    }

    /// What the cache holds for this converter stays when more is registered.
    pub proof fn lemma_registered_stays(earlier: JniCacheView, later: JniCacheView)
        requires
            Self::is_registered(earlier),
            later.extends(earlier),
        ensures
            Self::is_registered(later),
    {
    }

    /// With every handle in the cache, wrapping an object finds them all:
    /// it cannot miss.
    pub proof fn lemma_registered_wraps(cache: JniCacheView, jobj: JObject)
        requires
            Self::is_registered(cache),
        ensures
            Self::wrapped(cache, jobj) is Ok,
            !jobj.is_null() ==> Self::wrapped(cache, jobj)->Ok_0 is Some,
    {
    }

    /// With every handle of the bridge in the cache, the conversion fails
    /// only on what the foreign object holds or on a foreign call that
    /// fails, and never on a miss in the cache.
    pub proof fn lemma_converts_without_miss(self, env: JavaEnvView, cache: JniCacheView)
        requires
            crate::cedarling::is_registered(cache),
        ensures
            !misses(self.converted(env, cache)),
    {
        lemma_reads_never_miss(env, self.jobj, self.get_log_ttl_method, Seq::empty());
        lemma_reads_never_miss(env, self.jobj, self.get_max_items_method, Seq::empty());
        lemma_registered_never_misses(
            env,
            cache,
            self.jobj,
            self.get_max_items_method,
            Seq::empty(),
        );
        lemma_reads_never_miss(env, self.jobj, self.get_max_item_size_method, Seq::empty());
        lemma_registered_never_misses(
            env,
            cache,
            self.jobj,
            self.get_max_item_size_method,
            Seq::empty(),
        );
    }
}

} // verus!
