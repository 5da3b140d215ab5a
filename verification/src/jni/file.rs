//! Foreign files, read as their absolute path.

use crate::error::{CedarlingBridgeError, CedarlingBridgeErrorView, is_result, is_result_of, misses};
use crate::jni::env::{JMethodID, JObject, JavaEnv, JavaEnvView};
use crate::jni::jni_cache::{JniCache, JniCacheView, Registration};
use crate::jni::util::{call_jni_string_method, lemma_reads_never_miss, no_args, string_result};
use vstd::prelude::*;

verus! {

pub const JAVA_CLS_NAME: &'static str = "java/io/File";

pub const JAVA_METHOD_NAME_GET_ABSOLUTE_PATH: &'static str = "getAbsolutePath";

pub const JAVA_METHOD_SIG_GET_ABSOLUTE_PATH: &'static str = "()Ljava/lang/String;";

/// A foreign file with the handle that reads its path.
#[derive(Clone, Copy, Debug)]
pub struct JavaFile {
    pub jobj: JObject,
    pub get_absolute_path_method: JMethodID,
}

impl JavaFile {
    /// What the file converter registers.
    pub open spec fn registration(reg: Registration, env: JavaEnvView) -> Registration {
        reg.class(env, JAVA_CLS_NAME@).method(
            env,
            JAVA_CLS_NAME@,
            JAVA_METHOD_NAME_GET_ABSOLUTE_PATH@,
            JAVA_METHOD_SIG_GET_ABSOLUTE_PATH@,
        )
    }

    /// Registers the file class and its accessor.
    pub fn jni_cache_init(env: &JavaEnv, cache: &mut JniCache) -> (res: Result<
        (),
        CedarlingBridgeError,
    >)
        ensures
            Self::registration(Registration::start(old(cache)@), env@).is_outcome(
                res,
                final(cache)@,
            ),
    {
        cache.add_class(env, JAVA_CLS_NAME)?;
        cache.add_instance_method(
            env,
            JAVA_CLS_NAME,
            JAVA_METHOD_NAME_GET_ABSOLUTE_PATH,
            JAVA_METHOD_SIG_GET_ABSOLUTE_PATH,
        )
    }

    /// What wrapping a foreign file gives: nothing for the null reference,
    /// else the file with its handle from the cache.
    pub open spec fn wrapped(cache: JniCacheView, jobj: JObject) -> Result<
        Option<JavaFile>,
        CedarlingBridgeErrorView,
    > {
        if jobj.is_null() {
            Ok(None)
        } else {
            match cache.method(
                JAVA_CLS_NAME@,
                JAVA_METHOD_NAME_GET_ABSOLUTE_PATH@,
                JAVA_METHOD_SIG_GET_ABSOLUTE_PATH@,
            ) {
                Err(e) => Err(e),
                Ok(get_absolute_path_method) => Ok(
                    Some(JavaFile { jobj, get_absolute_path_method }),
                ),
            }
        }
    }

    /// Wraps a foreign file.
    pub fn new(cache: &JniCache, jobj: JObject) -> (res: Result<
        Option<JavaFile>,
        CedarlingBridgeError,
    >)
        ensures
            is_result(res, Self::wrapped(cache@, jobj)),
    {
        if jobj.is_null() {
            return Ok(None);
        }
        let get_absolute_path_key = (
            JAVA_CLS_NAME,
            JAVA_METHOD_NAME_GET_ABSOLUTE_PATH,
            JAVA_METHOD_SIG_GET_ABSOLUTE_PATH,
        );
        Ok(
            Some(
                JavaFile {
                    jobj: jobj,
                    get_absolute_path_method: cache.get_instance_method(&get_absolute_path_key)?,
                },
            ),
        )
    }

    /// What asking the file for its absolute path gives.
    pub open spec fn spec_absolute_path(self, env: JavaEnvView) -> Result<
        Option<Seq<char>>,
        CedarlingBridgeErrorView,
    > {
        string_result(env, self.jobj, self.get_absolute_path_method, Seq::empty())
    }

    /// Asks the file for its absolute path.
    pub fn get_absolute_path(&self, env: &JavaEnv) -> (res: Result<
        Option<String>,
        CedarlingBridgeError,
    >)
        ensures
            is_result_of(res, self.spec_absolute_path(env@)),
    {
        call_jni_string_method(env, &self.jobj, &self.get_absolute_path_method, &no_args())
    }

    /// Whether the cache holds the class of this converter and every one of
    /// its handles.
    pub open spec fn is_registered(cache: JniCacheView) -> bool {
        &&& cache.classes.contains_key(JAVA_CLS_NAME@)
        &&& cache.methods.contains_key(
            (JAVA_CLS_NAME@, JAVA_METHOD_NAME_GET_ABSOLUTE_PATH@, JAVA_METHOD_SIG_GET_ABSOLUTE_PATH@),
        )
    }

    /// A run that has gone through the registration of this converter
    /// without a failure holds every one of its handles, and has dropped
    /// nothing that it held before.
    pub proof fn lemma_registration_holds(reg: Registration, env: JavaEnvView)
        ensures
            Self::registration(reg, env).continues(reg),
            Self::registration(reg, env).failure is None ==> Self::is_registered(
                Self::registration(reg, env).cache,
            ),
    {
        let r0 = reg.class(env, JAVA_CLS_NAME@);
        reg.lemma_class_is_held(env, JAVA_CLS_NAME@);
        let r1 = r0.method(
            env,
            JAVA_CLS_NAME@,
            JAVA_METHOD_NAME_GET_ABSOLUTE_PATH@,
            JAVA_METHOD_SIG_GET_ABSOLUTE_PATH@,
        );
        r0.lemma_method_is_held(
            env,
            JAVA_CLS_NAME@,
            JAVA_METHOD_NAME_GET_ABSOLUTE_PATH@,
            JAVA_METHOD_SIG_GET_ABSOLUTE_PATH@,
        );
    }

    /// What the cache holds for this converter stays when more is registered.
    pub proof fn lemma_registered_stays(earlier: JniCacheView, later: JniCacheView)
        requires
            Self::is_registered(earlier),
            later.extends(earlier),
        ensures
            Self::is_registered(later),
    {
    }

    /// With every handle in the cache, wrapping an object finds them all:
    /// it cannot miss.
    pub proof fn lemma_registered_wraps(cache: JniCacheView, jobj: JObject)
        requires
            Self::is_registered(cache),
        ensures
            Self::wrapped(cache, jobj) is Ok,
            !jobj.is_null() ==> Self::wrapped(cache, jobj)->Ok_0 is Some,
    {
    }

    /// Reading the path of a file never fails on a miss in the cache.
    pub proof fn lemma_converts_without_miss(self, env: JavaEnvView)
        ensures
            !misses(self.spec_absolute_path(env)),
    {
        lemma_reads_never_miss(env, self.jobj, self.get_absolute_path_method, Seq::empty());
    }
}

} // verus!
