//! The converter of the entity builder section.

use crate::config::entity_names::JavaEntityNames;
use crate::engine::config::{EntityBuilderConfig, EntityBuilderConfigView, EntityNames};
use crate::error::{CedarlingBridgeError, CedarlingBridgeErrorView, is_result, is_result_of, misses};
use crate::jni::env::{JMethodID, JObject, JavaEnv, JavaEnvView};
use crate::jni::jni_cache::{JniCache, JniCacheView, Registration};
use crate::jni::util::{bool_result, call_jni_bool_method, call_jni_object_method};
use crate::jni::util::{lemma_reads_never_miss, no_args, object_result, require_some, required_of};
use vstd::prelude::*;

verus! {

pub const JAVA_CLS_NAME: &'static str =
    "io/jans/cedarling/bridge/config/EntityBuilderConfiguration";

pub const JAVA_METHOD_NAME_GET_BUILD_WORKLOAD: &'static str = "getBuildWorkload";

pub const JAVA_METHOD_SIG_GET_BUILD_WORKLOAD: &'static str = "()Z";

pub const JAVA_METHOD_NAME_GET_BUILD_USER: &'static str = "getBuildUser";

pub const JAVA_METHOD_SIG_GET_BUILD_USER: &'static str = "()Z";

pub const JAVA_METHOD_NAME_GET_ENTITY_NAMES: &'static str = "getEntityNames";

pub const JAVA_METHOD_SIG_GET_ENTITY_NAMES: &'static str =
    "()Lio/jans/cedarling/bridge/config/EntityNames;";

/// A foreign entity builder section with the handles that read it.
#[derive(Clone, Copy, Debug)]
pub struct JavaEntityBuilderConfig {
    pub jobj: JObject,
    pub get_build_workload_method: JMethodID,
    pub get_build_user_method: JMethodID,
    pub get_entity_names_method: JMethodID,
}

impl JavaEntityBuilderConfig {
    /// What this converter registers: its class, then each of its methods.
    pub open spec fn registration(reg: Registration, env: JavaEnvView) -> Registration {
        reg.class(env, JAVA_CLS_NAME@)
            .method(
                env,
                JAVA_CLS_NAME@,
                JAVA_METHOD_NAME_GET_BUILD_WORKLOAD@,
                JAVA_METHOD_SIG_GET_BUILD_WORKLOAD@,
            )
            .method(
                env,
                JAVA_CLS_NAME@,
                JAVA_METHOD_NAME_GET_BUILD_USER@,
                JAVA_METHOD_SIG_GET_BUILD_USER@,
            )
            .method(
                env,
                JAVA_CLS_NAME@,
                JAVA_METHOD_NAME_GET_ENTITY_NAMES@,
                JAVA_METHOD_SIG_GET_ENTITY_NAMES@,
            )
    }

    /// Registers the class and its methods; stops at the first that the
    /// runtime cannot resolve.
    pub fn jni_cache_init(env: &JavaEnv, cache: &mut JniCache) -> (res: Result<
        (),
        CedarlingBridgeError,
    >)
        ensures
            Self::registration(Registration::start(old(cache)@), env@).is_outcome(
                res,
                final(cache)@,
            ),
    {
        cache.add_class(env, JAVA_CLS_NAME)?;
        cache.add_instance_method(
            env,
            JAVA_CLS_NAME,
            JAVA_METHOD_NAME_GET_BUILD_WORKLOAD,
            JAVA_METHOD_SIG_GET_BUILD_WORKLOAD,
        )?;
        cache.add_instance_method(
            env,
            JAVA_CLS_NAME,
            JAVA_METHOD_NAME_GET_BUILD_USER,
            JAVA_METHOD_SIG_GET_BUILD_USER,
        )?;
        cache.add_instance_method(
            env,
            JAVA_CLS_NAME,
            JAVA_METHOD_NAME_GET_ENTITY_NAMES,
            JAVA_METHOD_SIG_GET_ENTITY_NAMES,
        )
    }

    /// What wrapping a foreign object gives: nothing for the null reference,
    /// else the object with its handles from the cache, or the report of the
    /// first handle that the cache does not hold.
    pub open spec fn wrapped(cache: JniCacheView, jobj: JObject) -> Result<
        Option<JavaEntityBuilderConfig>,
        CedarlingBridgeErrorView,
    > {
        if jobj.is_null() {
            Ok(None)
        } else {
            match cache.method(
                JAVA_CLS_NAME@,
                JAVA_METHOD_NAME_GET_BUILD_WORKLOAD@,
                JAVA_METHOD_SIG_GET_BUILD_WORKLOAD@,
            ) {
                Err(e) => Err(e),
                Ok(get_build_workload_method) => match cache.method(
                    JAVA_CLS_NAME@,
                    JAVA_METHOD_NAME_GET_BUILD_USER@,
                    JAVA_METHOD_SIG_GET_BUILD_USER@,
                ) {
                    Err(e) => Err(e),
                    Ok(get_build_user_method) => match cache.method(
                        JAVA_CLS_NAME@,
                        JAVA_METHOD_NAME_GET_ENTITY_NAMES@,
                        JAVA_METHOD_SIG_GET_ENTITY_NAMES@,
                    ) {
                        Err(e) => Err(e),
                        Ok(get_entity_names_method) => Ok(
                            Some(
                                JavaEntityBuilderConfig {
                                    jobj,
                                    get_build_workload_method,
                                    get_build_user_method,
                                    get_entity_names_method,
                                },
                            ),
                        ),
                    },
                },
            }
        }
    }

    /// Wraps a foreign object.
    pub fn new(cache: &JniCache, jobj: JObject) -> (res: Result<
        Option<JavaEntityBuilderConfig>,
        CedarlingBridgeError,
    >)
        ensures
            is_result(res, Self::wrapped(cache@, jobj)),
    {
        if jobj.is_null() {
            return Ok(None);
        }
        let get_build_workload_key = (
            JAVA_CLS_NAME,
            JAVA_METHOD_NAME_GET_BUILD_WORKLOAD,
            JAVA_METHOD_SIG_GET_BUILD_WORKLOAD,
        );
        let get_build_user_key = (
            JAVA_CLS_NAME,
            JAVA_METHOD_NAME_GET_BUILD_USER,
            JAVA_METHOD_SIG_GET_BUILD_USER,
        );
        let get_entity_names_key = (
            JAVA_CLS_NAME,
            JAVA_METHOD_NAME_GET_ENTITY_NAMES,
            JAVA_METHOD_SIG_GET_ENTITY_NAMES,
        );
        Ok(
            Some(
                JavaEntityBuilderConfig {
                    jobj: jobj,
                    get_build_workload_method: cache.get_instance_method(&get_build_workload_key)?,
                    get_build_user_method: cache.get_instance_method(&get_build_user_key)?,
                    get_entity_names_method: cache.get_instance_method(&get_entity_names_key)?,
                },
            ),
        )
    }

    /// What asking the object for `getBuildWorkload` gives.
    pub open spec fn spec_get_build_workload(self, env: JavaEnvView) -> Result<
        bool,
        CedarlingBridgeErrorView,
    > {
        bool_result(env, self.jobj, self.get_build_workload_method, Seq::empty())
    }

    /// Asks the object for `getBuildWorkload`.
    pub fn get_build_workload(&self, env: &JavaEnv) -> (res: Result<
        bool,
        CedarlingBridgeError,
    >)
        ensures
            is_result(res, self.spec_get_build_workload(env@)),
    {
        call_jni_bool_method(env, &self.jobj, &self.get_build_workload_method, &no_args())
    }

    /// What asking the object for `getBuildUser` gives.
    pub open spec fn spec_get_build_user(self, env: JavaEnvView) -> Result<
        bool,
        CedarlingBridgeErrorView,
    > {
        bool_result(env, self.jobj, self.get_build_user_method, Seq::empty())
    }

    /// Asks the object for `getBuildUser`.
    pub fn get_build_user(&self, env: &JavaEnv) -> (res: Result<
        bool,
        CedarlingBridgeError,
    >)
        ensures
            is_result(res, self.spec_get_build_user(env@)),
    {
        call_jni_bool_method(env, &self.jobj, &self.get_build_user_method, &no_args())
    }

    /// What asking the object for `getEntityNames` gives: the object that
    /// comes back, wrapped.
    pub open spec fn spec_get_entity_names(self, env: JavaEnvView, cache: JniCacheView) -> Result<
        Option<JavaEntityNames>,
        CedarlingBridgeErrorView,
    > {
        match object_result(env, self.jobj, self.get_entity_names_method, Seq::empty()) {
            Err(e) => Err(e),
            Ok(obj) => JavaEntityNames::wrapped(cache, obj),
        }
    }

    /// Asks the object for `getEntityNames`.
    pub fn get_entity_names(&self, env: &JavaEnv, cache: &JniCache) -> (res: Result<
        Option<JavaEntityNames>,
        CedarlingBridgeError,
    >)
        ensures
            is_result(res, self.spec_get_entity_names(env@, cache@)),
    {
        let obj = call_jni_object_method(
            env,
            &self.jobj,
            &self.get_entity_names_method,
            &no_args(),
        )?;
        JavaEntityNames::new(cache, obj)
    }


    /// The native entity builder section that the object stands for: the two
    /// flags, then the entity names, which are required.
    pub open spec fn converted(self, env: JavaEnvView, cache: JniCacheView) -> Result<
        EntityBuilderConfigView,
        CedarlingBridgeErrorView,
    > {
        match self.spec_get_build_workload(env) {
            Err(e) => Err(e),
            Ok(build_workload) => match self.spec_get_build_user(env) {
                Err(e) => Err(e),
                Ok(build_user) => match required_of(
                    self.spec_get_entity_names(env, cache),
                    JAVA_CLS_NAME@,
                    "entityNames"@,
                ) {
                    Err(e) => Err(e),
                    Ok(names) => match names.converted(env) {
                        Err(e) => Err(e),
                        Ok(entity_names) => Ok(
                            EntityBuilderConfigView { build_workload, build_user, entity_names },
                        ),
                    },
                },
            },
        }
    }

    /// Converts the entity builder section.
    pub fn as_cedarling_entity_builder_config(&self, env: &JavaEnv, cache: &JniCache) -> (res:
        Result<EntityBuilderConfig, CedarlingBridgeError>)
        ensures
            is_result_of(res, self.converted(env@, cache@)),
    {
        let build_workload: bool = self.get_build_workload(env)?;
        let build_user: bool = self.get_build_user(env)?;
        let entity_names: EntityNames = {
            let entity_names_obj = require_some(
                self.get_entity_names(env, cache)?,
                JAVA_CLS_NAME,
                "entityNames",
            )?;
            entity_names_obj.as_cedarling_entity_names(env)?
        };
        Ok(
            EntityBuilderConfig {
                build_workload: build_workload,
                build_user: build_user,
                entity_names: entity_names,
            },
        )
    }

    /// Whether the cache holds the class of this converter and every one of
    /// its handles.
    pub open spec fn is_registered(cache: JniCacheView) -> bool {
        &&& cache.classes.contains_key(JAVA_CLS_NAME@)
        &&& cache.methods.contains_key(
            (JAVA_CLS_NAME@, JAVA_METHOD_NAME_GET_BUILD_WORKLOAD@, JAVA_METHOD_SIG_GET_BUILD_WORKLOAD@),
        )
        &&& cache.methods.contains_key(
            (JAVA_CLS_NAME@, JAVA_METHOD_NAME_GET_BUILD_USER@, JAVA_METHOD_SIG_GET_BUILD_USER@),
        )
        &&& cache.methods.contains_key(
            (JAVA_CLS_NAME@, JAVA_METHOD_NAME_GET_ENTITY_NAMES@, JAVA_METHOD_SIG_GET_ENTITY_NAMES@),
        )
    }

    /// A run that has gone through the registration of this converter
    /// without a failure holds every one of its handles, and has dropped
    /// nothing that it held before.
    pub proof fn lemma_registration_holds(reg: Registration, env: JavaEnvView)
        ensures
            Self::registration(reg, env).continues(reg),
            Self::registration(reg, env).failure is None ==> Self::is_registered(
                Self::registration(reg, env).cache,
            ),
    {
        let r0 = reg.class(env, JAVA_CLS_NAME@);
        reg.lemma_class_is_held(env, JAVA_CLS_NAME@);
        let r1 = r0.method(
            env,
            JAVA_CLS_NAME@,
            JAVA_METHOD_NAME_GET_BUILD_WORKLOAD@,
            JAVA_METHOD_SIG_GET_BUILD_WORKLOAD@,
        );
        r0.lemma_method_is_held(
            env,
            JAVA_CLS_NAME@,
            JAVA_METHOD_NAME_GET_BUILD_WORKLOAD@,
            JAVA_METHOD_SIG_GET_BUILD_WORKLOAD@,
        );
        let r2 = r1.method(
            env,
            JAVA_CLS_NAME@,
            JAVA_METHOD_NAME_GET_BUILD_USER@,
            JAVA_METHOD_SIG_GET_BUILD_USER@,
        );
        r1.lemma_method_is_held(
            env,
            JAVA_CLS_NAME@,
            JAVA_METHOD_NAME_GET_BUILD_USER@,
            JAVA_METHOD_SIG_GET_BUILD_USER@,
        );
        let r3 = r2.method(
            env,
            JAVA_CLS_NAME@,
            JAVA_METHOD_NAME_GET_ENTITY_NAMES@,
            JAVA_METHOD_SIG_GET_ENTITY_NAMES@,
        );
        r2.lemma_method_is_held(
            env,
            JAVA_CLS_NAME@,
            JAVA_METHOD_NAME_GET_ENTITY_NAMES@,
            JAVA_METHOD_SIG_GET_ENTITY_NAMES@,
        );
    }

    /// What the cache holds for this converter stays when more is registered.
    pub proof fn lemma_registered_stays(earlier: JniCacheView, later: JniCacheView)
        requires
            Self::is_registered(earlier),
            later.extends(earlier),
        ensures
            Self::is_registered(later),
    {
    }

    /// With every handle in the cache, wrapping an object finds them all:
    /// it cannot miss.
    pub proof fn lemma_registered_wraps(cache: JniCacheView, jobj: JObject)
        requires
            Self::is_registered(cache),
        ensures
            Self::wrapped(cache, jobj) is Ok,
            !jobj.is_null() ==> Self::wrapped(cache, jobj)->Ok_0 is Some,
    {
    }

    /// With every handle of the bridge in the cache, the conversion fails
    /// only on what the foreign object holds or on a foreign call that
    /// fails, and never on a miss in the cache.
    pub proof fn lemma_converts_without_miss(self, env: JavaEnvView, cache: JniCacheView)
        requires
            crate::cedarling::is_registered(cache),
        ensures
            !misses(self.converted(env, cache)),
    {
        lemma_reads_never_miss(env, self.jobj, self.get_build_workload_method, Seq::empty());
        lemma_reads_never_miss(env, self.jobj, self.get_build_user_method, Seq::empty());
        lemma_reads_never_miss(env, self.jobj, self.get_entity_names_method, Seq::empty());
        if let Ok(
            value,
        ) = object_result(env, self.jobj, self.get_entity_names_method, Seq::empty()) {
            JavaEntityNames::lemma_registered_wraps(cache, value);
        }
        if let Ok(Some(part)) = self.spec_get_entity_names(env, cache) {
            part.lemma_converts_without_miss(env);
        }
    }
}

} // verus!
