//! The converter of the entity names.

use crate::engine::config::{EntityNames, EntityNamesView};
use crate::error::{CedarlingBridgeError, CedarlingBridgeErrorView, is_result, is_result_of, misses};
use crate::jni::env::{JMethodID, JObject, JavaEnv, JavaEnvView};
use crate::jni::jni_cache::{JniCache, JniCacheView, Registration};
use crate::jni::util::{call_jni_string_method, lemma_reads_never_miss, no_args, require_some};
use crate::jni::util::{required_of, string_result};
use vstd::prelude::*;

verus! {

pub const JAVA_CLS_NAME: &'static str = "io/jans/cedarling/bridge/config/EntityNames";

pub const JAVA_METHOD_NAME_GET_USER: &'static str = "getUser";

pub const JAVA_METHOD_SIG_GET_USER: &'static str = "()Ljava/lang/String;";

pub const JAVA_METHOD_NAME_GET_WORKLOAD: &'static str = "getWorkload";

pub const JAVA_METHOD_SIG_GET_WORKLOAD: &'static str = "()Ljava/lang/String;";

pub const JAVA_METHOD_NAME_GET_ROLE: &'static str = "getRole";

pub const JAVA_METHOD_SIG_GET_ROLE: &'static str = "()Ljava/lang/String;";

pub const JAVA_METHOD_NAME_GET_ISS: &'static str = "getIss";

pub const JAVA_METHOD_SIG_GET_ISS: &'static str = "()Ljava/lang/String;";

/// A foreign set of entity names with the handles that read it.
#[derive(Clone, Copy, Debug)]
pub struct JavaEntityNames {
    pub jobj: JObject,
    pub get_user_method: JMethodID,
    pub get_workload_method: JMethodID,
    pub get_role_method: JMethodID,
    pub get_iss_method: JMethodID,
}

impl JavaEntityNames {
    /// What this converter registers: its class, then each of its methods.
    pub open spec fn registration(reg: Registration, env: JavaEnvView) -> Registration {
        reg.class(env, JAVA_CLS_NAME@)
            .method(
                env,
                JAVA_CLS_NAME@,
                JAVA_METHOD_NAME_GET_USER@,
                JAVA_METHOD_SIG_GET_USER@,
            )
            .method(
                env,
                JAVA_CLS_NAME@,
                JAVA_METHOD_NAME_GET_WORKLOAD@,
                JAVA_METHOD_SIG_GET_WORKLOAD@,
            )
            .method(
                env,
                JAVA_CLS_NAME@,
                JAVA_METHOD_NAME_GET_ROLE@,
                JAVA_METHOD_SIG_GET_ROLE@,
            )
            .method(
                env,
                JAVA_CLS_NAME@,
                JAVA_METHOD_NAME_GET_ISS@,
                JAVA_METHOD_SIG_GET_ISS@,
            )
    }

    /// Registers the class and its methods; stops at the first that the
    /// runtime cannot resolve.
    pub fn jni_cache_init(env: &JavaEnv, cache: &mut JniCache) -> (res: Result<
        (),
        CedarlingBridgeError,
    >)
        ensures
            Self::registration(Registration::start(old(cache)@), env@).is_outcome(
                res,
                final(cache)@,
            ),
    {
        cache.add_class(env, JAVA_CLS_NAME)?;
        cache.add_instance_method(
            env,
            JAVA_CLS_NAME,
            JAVA_METHOD_NAME_GET_USER,
            JAVA_METHOD_SIG_GET_USER,
        )?;
        cache.add_instance_method(
            env,
            JAVA_CLS_NAME,
            JAVA_METHOD_NAME_GET_WORKLOAD,
            JAVA_METHOD_SIG_GET_WORKLOAD,
        )?;
        cache.add_instance_method(
            env,
            JAVA_CLS_NAME,
            JAVA_METHOD_NAME_GET_ROLE,
            JAVA_METHOD_SIG_GET_ROLE,
        )?;
        cache.add_instance_method(
            env,
            JAVA_CLS_NAME,
            JAVA_METHOD_NAME_GET_ISS,
            JAVA_METHOD_SIG_GET_ISS,
        )
    }

    /// What wrapping a foreign object gives: nothing for the null reference,
    /// else the object with its handles from the cache, or the report of the
    /// first handle that the cache does not hold.
    pub open spec fn wrapped(cache: JniCacheView, jobj: JObject) -> Result<
        Option<JavaEntityNames>,
        CedarlingBridgeErrorView,
    > {
        if jobj.is_null() {
            Ok(None)
        } else {
            match cache.method(
                JAVA_CLS_NAME@,
                JAVA_METHOD_NAME_GET_USER@,
                JAVA_METHOD_SIG_GET_USER@,
            ) {
                Err(e) => Err(e),
                Ok(get_user_method) => match cache.method(
                    JAVA_CLS_NAME@,
                    JAVA_METHOD_NAME_GET_WORKLOAD@,
                    JAVA_METHOD_SIG_GET_WORKLOAD@,
                ) {
                    Err(e) => Err(e),
                    Ok(get_workload_method) => match cache.method(
                        JAVA_CLS_NAME@,
                        JAVA_METHOD_NAME_GET_ROLE@,
                        JAVA_METHOD_SIG_GET_ROLE@,
                    ) {
                        Err(e) => Err(e),
                        Ok(get_role_method) => match cache.method(
                            JAVA_CLS_NAME@,
                            JAVA_METHOD_NAME_GET_ISS@,
                            JAVA_METHOD_SIG_GET_ISS@,
                        ) {
                            Err(e) => Err(e),
                            Ok(get_iss_method) => Ok(
                                Some(
                                    JavaEntityNames {
                                        jobj,
                                        get_user_method,
                                        get_workload_method,
                                        get_role_method,
                                        get_iss_method,
                                    },
                                ),
                            ),
                        },
                    },
                },
            }
        }
    }

    /// Wraps a foreign object.
    pub fn new(cache: &JniCache, jobj: JObject) -> (res: Result<
        Option<JavaEntityNames>,
        CedarlingBridgeError,
    >)
        ensures
            is_result(res, Self::wrapped(cache@, jobj)),
    {
        if jobj.is_null() {
            return Ok(None);
        }
        let get_user_key = (
            JAVA_CLS_NAME,
            JAVA_METHOD_NAME_GET_USER,
            JAVA_METHOD_SIG_GET_USER,
        );
        let get_workload_key = (
            JAVA_CLS_NAME,
            JAVA_METHOD_NAME_GET_WORKLOAD,
            JAVA_METHOD_SIG_GET_WORKLOAD,
        );
        let get_role_key = (
            JAVA_CLS_NAME,
            JAVA_METHOD_NAME_GET_ROLE,
            JAVA_METHOD_SIG_GET_ROLE,
        );
        let get_iss_key = (
            JAVA_CLS_NAME,
            JAVA_METHOD_NAME_GET_ISS,
            JAVA_METHOD_SIG_GET_ISS,
        );
        Ok(
            Some(
                JavaEntityNames {
                    jobj: jobj,
                    get_user_method: cache.get_instance_method(&get_user_key)?,
                    get_workload_method: cache.get_instance_method(&get_workload_key)?,
                    get_role_method: cache.get_instance_method(&get_role_key)?,
                    get_iss_method: cache.get_instance_method(&get_iss_key)?,
                },
            ),
        )
    }

    /// What asking the object for `getUser` gives.
    pub open spec fn spec_get_user(self, env: JavaEnvView) -> Result<
        Option<Seq<char>>,
        CedarlingBridgeErrorView,
    > {
        string_result(env, self.jobj, self.get_user_method, Seq::empty())
    }

    /// Asks the object for `getUser`.
    pub fn get_user(&self, env: &JavaEnv) -> (res: Result<
        Option<String>,
        CedarlingBridgeError,
    >)
        ensures
            is_result_of(res, self.spec_get_user(env@)),
    {
        call_jni_string_method(env, &self.jobj, &self.get_user_method, &no_args())
    }

    /// What asking the object for `getWorkload` gives.
    pub open spec fn spec_get_workload(self, env: JavaEnvView) -> Result<
        Option<Seq<char>>,
        CedarlingBridgeErrorView,
    > {
        string_result(env, self.jobj, self.get_workload_method, Seq::empty())
    }

    /// Asks the object for `getWorkload`.
    pub fn get_workload(&self, env: &JavaEnv) -> (res: Result<
        Option<String>,
        CedarlingBridgeError,
    >)
        ensures
            is_result_of(res, self.spec_get_workload(env@)),
    {
        call_jni_string_method(env, &self.jobj, &self.get_workload_method, &no_args())
    }

    /// What asking the object for `getRole` gives.
    pub open spec fn spec_get_role(self, env: JavaEnvView) -> Result<
        Option<Seq<char>>,
        CedarlingBridgeErrorView,
    > {
        string_result(env, self.jobj, self.get_role_method, Seq::empty())
    }

    /// Asks the object for `getRole`.
    pub fn get_role(&self, env: &JavaEnv) -> (res: Result<
        Option<String>,
        CedarlingBridgeError,
    >)
        ensures
            is_result_of(res, self.spec_get_role(env@)),
    {
        call_jni_string_method(env, &self.jobj, &self.get_role_method, &no_args())
    }

    /// What asking the object for `getIss` gives.
    pub open spec fn spec_get_iss(self, env: JavaEnvView) -> Result<
        Option<Seq<char>>,
        CedarlingBridgeErrorView,
    > {
        string_result(env, self.jobj, self.get_iss_method, Seq::empty())
    }

    /// Asks the object for `getIss`.
    pub fn get_iss(&self, env: &JavaEnv) -> (res: Result<
        Option<String>,
        CedarlingBridgeError,
    >)
        ensures
            is_result_of(res, self.spec_get_iss(env@)),
    {
        call_jni_string_method(env, &self.jobj, &self.get_iss_method, &no_args())
    }


    /// The native entity names that the object stands for: each of the four
    /// is required, and the first that is missing is the result.
    pub open spec fn converted(self, env: JavaEnvView) -> Result<
        EntityNamesView,
        CedarlingBridgeErrorView,
    > {
        match required_of(self.spec_get_user(env), JAVA_CLS_NAME@, "user"@) {
            Err(e) => Err(e),
            Ok(
                user,
            ) => match required_of(self.spec_get_workload(env), JAVA_CLS_NAME@, "workload"@) {
                Err(e) => Err(e),
                Ok(
                    workload,
                ) => match required_of(self.spec_get_role(env), JAVA_CLS_NAME@, "role"@) {
                    Err(e) => Err(e),
                    Ok(role) => match required_of(self.spec_get_iss(env), JAVA_CLS_NAME@, "iss"@) {
                        Err(e) => Err(e),
                        Ok(iss) => Ok(EntityNamesView { user, workload, role, iss }),
                    },
                },
            },
        }
    }

    /// Converts the entity names.
    pub fn as_cedarling_entity_names(&self, env: &JavaEnv) -> (res: Result<
        EntityNames,
        CedarlingBridgeError,
    >)
        ensures
            is_result_of(res, self.converted(env@)),
    {
        let user = require_some(self.get_user(env)?, JAVA_CLS_NAME, "user")?;
        let workload = require_some(self.get_workload(env)?, JAVA_CLS_NAME, "workload")?;
        let role = require_some(self.get_role(env)?, JAVA_CLS_NAME, "role")?;
        let iss = require_some(self.get_iss(env)?, JAVA_CLS_NAME, "iss")?;
        Ok(EntityNames { user: user, workload: workload, role: role, iss: iss })
    }

    /// Whether the cache holds the class of this converter and every one of
    /// its handles.
    pub open spec fn is_registered(cache: JniCacheView) -> bool {
        &&& cache.classes.contains_key(JAVA_CLS_NAME@)
        &&& cache.methods.contains_key(
            (JAVA_CLS_NAME@, JAVA_METHOD_NAME_GET_USER@, JAVA_METHOD_SIG_GET_USER@),
        )
        &&& cache.methods.contains_key(
            (JAVA_CLS_NAME@, JAVA_METHOD_NAME_GET_WORKLOAD@, JAVA_METHOD_SIG_GET_WORKLOAD@),
        )
        &&& cache.methods.contains_key(
            (JAVA_CLS_NAME@, JAVA_METHOD_NAME_GET_ROLE@, JAVA_METHOD_SIG_GET_ROLE@),
        )
        &&& cache.methods.contains_key(
            (JAVA_CLS_NAME@, JAVA_METHOD_NAME_GET_ISS@, JAVA_METHOD_SIG_GET_ISS@),
        )
    }

    /// A run that has gone through the registration of this converter
    /// without a failure holds every one of its handles, and has dropped
    /// nothing that it held before.
    pub proof fn lemma_registration_holds(reg: Registration, env: JavaEnvView)
        ensures
            Self::registration(reg, env).continues(reg),
            Self::registration(reg, env).failure is None ==> Self::is_registered(
                Self::registration(reg, env).cache,
            ),
    {
        let r0 = reg.class(env, JAVA_CLS_NAME@);
        reg.lemma_class_is_held(env, JAVA_CLS_NAME@);
        let r1 = r0.method(
            env,
            JAVA_CLS_NAME@,
            JAVA_METHOD_NAME_GET_USER@,
            JAVA_METHOD_SIG_GET_USER@,
        );
        r0.lemma_method_is_held(
            env,
            JAVA_CLS_NAME@,
            JAVA_METHOD_NAME_GET_USER@,
            JAVA_METHOD_SIG_GET_USER@,
        );
        let r2 = r1.method(
            env,
            JAVA_CLS_NAME@,
            JAVA_METHOD_NAME_GET_WORKLOAD@,
            JAVA_METHOD_SIG_GET_WORKLOAD@,
        );
        r1.lemma_method_is_held(
            env,
            JAVA_CLS_NAME@,
            JAVA_METHOD_NAME_GET_WORKLOAD@,
            JAVA_METHOD_SIG_GET_WORKLOAD@,
        );
        let r3 = r2.method(
            env,
            JAVA_CLS_NAME@,
            JAVA_METHOD_NAME_GET_ROLE@,
            JAVA_METHOD_SIG_GET_ROLE@,
        );
        r2.lemma_method_is_held(
            env,
            JAVA_CLS_NAME@,
            JAVA_METHOD_NAME_GET_ROLE@,
            JAVA_METHOD_SIG_GET_ROLE@,
        );
        let r4 = r3.method(
            env,
            JAVA_CLS_NAME@,
            JAVA_METHOD_NAME_GET_ISS@,
            JAVA_METHOD_SIG_GET_ISS@,
        );
        r3.lemma_method_is_held(
            env,
            JAVA_CLS_NAME@,
            JAVA_METHOD_NAME_GET_ISS@,
            JAVA_METHOD_SIG_GET_ISS@,
        );
    }

    /// What the cache holds for this converter stays when more is registered.
    pub proof fn lemma_registered_stays(earlier: JniCacheView, later: JniCacheView)
        requires
            Self::is_registered(earlier),
            later.extends(earlier),
        ensures
            Self::is_registered(later),
    {
    }

    /// With every handle in the cache, wrapping an object finds them all:
    /// it cannot miss.
    pub proof fn lemma_registered_wraps(cache: JniCacheView, jobj: JObject)
        requires
            Self::is_registered(cache),
        ensures
            Self::wrapped(cache, jobj) is Ok,
            !jobj.is_null() ==> Self::wrapped(cache, jobj)->Ok_0 is Some,
    {
    }

    /// With every handle of the bridge in the cache, the conversion fails
    /// only on what the foreign object holds or on a foreign call that
    /// fails, and never on a miss in the cache.
    pub proof fn lemma_converts_without_miss(self, env: JavaEnvView)
        ensures
            !misses(self.converted(env)),
    {
        lemma_reads_never_miss(env, self.jobj, self.get_user_method, Seq::empty());
        lemma_reads_never_miss(env, self.jobj, self.get_workload_method, Seq::empty());
        lemma_reads_never_miss(env, self.jobj, self.get_role_method, Seq::empty());
        lemma_reads_never_miss(env, self.jobj, self.get_iss_method, Seq::empty());
    }
}

} // verus!
