//! The converter of the type and identifier of an entity.

use crate::engine::request::{CedarEntityMapping, CedarEntityMappingView};
use crate::error::{CedarlingBridgeError, CedarlingBridgeErrorView, is_result, is_result_of, misses};
use crate::jni::env::{JMethodID, JObject, JavaEnv, JavaEnvView};
use crate::jni::jni_cache::{JniCache, JniCacheView, Registration};
use crate::jni::util::{call_jni_string_method, lemma_reads_never_miss, no_args, require_some};
use crate::jni::util::{required_of, string_result};
use vstd::prelude::*;

verus! {

pub const JAVA_CLS_NAME: &'static str = "io/jans/cedarling/bridge/authz/CedarEntityMapping";

pub const JAVA_METHOD_NAME_GET_ID: &'static str = "getId";

pub const JAVA_METHOD_SIG_GET_ID: &'static str = "()Ljava/lang/String;";

pub const JAVA_METHOD_NAME_GET_ENTITY_TYPE: &'static str = "getEntityType";

pub const JAVA_METHOD_SIG_GET_ENTITY_TYPE: &'static str = "()Ljava/lang/String;";

/// A foreign entity mapping with the handles that read it.
#[derive(Clone, Copy, Debug)]
pub struct JavaCedarEntityMapping {
    pub jobj: JObject,
    pub get_id_method: JMethodID,
    pub get_entity_type_method: JMethodID,
}

impl JavaCedarEntityMapping {
    /// What this converter registers: its class, then each of its methods.
    pub open spec fn registration(reg: Registration, env: JavaEnvView) -> Registration {
        reg.class(env, JAVA_CLS_NAME@)
            .method(
                env,
                JAVA_CLS_NAME@,
                JAVA_METHOD_NAME_GET_ID@,
                JAVA_METHOD_SIG_GET_ID@,
            )
            .method(
                env,
                JAVA_CLS_NAME@,
                JAVA_METHOD_NAME_GET_ENTITY_TYPE@,
                JAVA_METHOD_SIG_GET_ENTITY_TYPE@,
            )
    }

    /// Registers the class and its methods; stops at the first that the
    /// runtime cannot resolve.
    pub fn jni_cache_init(env: &JavaEnv, cache: &mut JniCache) -> (res: Result<
        (),
        CedarlingBridgeError,
    >)
        ensures
            Self::registration(Registration::start(old(cache)@), env@).is_outcome(
                res,
                final(cache)@,
            ),
    {
        cache.add_class(env, JAVA_CLS_NAME)?;
        cache.add_instance_method(
            env,
            JAVA_CLS_NAME,
            JAVA_METHOD_NAME_GET_ID,
            JAVA_METHOD_SIG_GET_ID,
        )?;
        cache.add_instance_method(
            env,
            JAVA_CLS_NAME,
            JAVA_METHOD_NAME_GET_ENTITY_TYPE,
            JAVA_METHOD_SIG_GET_ENTITY_TYPE,
        )
    }

    /// What wrapping a foreign object gives: nothing for the null reference,
    /// else the object with its handles from the cache, or the report of the
    /// first handle that the cache does not hold.
    pub open spec fn wrapped(cache: JniCacheView, jobj: JObject) -> Result<
        Option<JavaCedarEntityMapping>,
        CedarlingBridgeErrorView,
    > {
        if jobj.is_null() {
            Ok(None)
        } else {
            match cache.method(
                JAVA_CLS_NAME@,
                JAVA_METHOD_NAME_GET_ID@,
                JAVA_METHOD_SIG_GET_ID@,
            ) {
                Err(e) => Err(e),
                Ok(get_id_method) => match cache.method(
                    JAVA_CLS_NAME@,
                    JAVA_METHOD_NAME_GET_ENTITY_TYPE@,
                    JAVA_METHOD_SIG_GET_ENTITY_TYPE@,
                ) {
                    Err(e) => Err(e),
                    Ok(
                        get_entity_type_method,
                    ) => Ok(Some(JavaCedarEntityMapping { jobj, get_id_method, get_entity_type_method })),
                },
            }
        }
    }

    /// Wraps a foreign object.
    pub fn new(cache: &JniCache, jobj: JObject) -> (res: Result<
        Option<JavaCedarEntityMapping>,
        CedarlingBridgeError,
    >)
        ensures
            is_result(res, Self::wrapped(cache@, jobj)),
    {
        if jobj.is_null() {
            return Ok(None);
        }
        let get_id_key = (
            JAVA_CLS_NAME,
            JAVA_METHOD_NAME_GET_ID,
            JAVA_METHOD_SIG_GET_ID,
        );
        let get_entity_type_key = (
            JAVA_CLS_NAME,
            JAVA_METHOD_NAME_GET_ENTITY_TYPE,
            JAVA_METHOD_SIG_GET_ENTITY_TYPE,
        );
        Ok(
            Some(
                JavaCedarEntityMapping {
                    jobj: jobj,
                    get_id_method: cache.get_instance_method(&get_id_key)?,
                    get_entity_type_method: cache.get_instance_method(&get_entity_type_key)?,
                },
            ),
        )
    }

    /// What asking the object for `getId` gives.
    pub open spec fn spec_get_id(self, env: JavaEnvView) -> Result<
        Option<Seq<char>>,
        CedarlingBridgeErrorView,
    > {
        string_result(env, self.jobj, self.get_id_method, Seq::empty())
    }

    /// Asks the object for `getId`.
    pub fn get_id(&self, env: &JavaEnv) -> (res: Result<
        Option<String>,
        CedarlingBridgeError,
    >)
        ensures
            is_result_of(res, self.spec_get_id(env@)),
    {
        call_jni_string_method(env, &self.jobj, &self.get_id_method, &no_args())
    }

    /// What asking the object for `getEntityType` gives.
    pub open spec fn spec_get_entity_type(self, env: JavaEnvView) -> Result<
        Option<Seq<char>>,
        CedarlingBridgeErrorView,
    > {
        string_result(env, self.jobj, self.get_entity_type_method, Seq::empty())
    }

    /// Asks the object for `getEntityType`.
    pub fn get_entity_type(&self, env: &JavaEnv) -> (res: Result<
        Option<String>,
        CedarlingBridgeError,
    >)
        ensures
            is_result_of(res, self.spec_get_entity_type(env@)),
    {
        call_jni_string_method(env, &self.jobj, &self.get_entity_type_method, &no_args())
    }


    /// The native entity mapping that the object stands for: identifier and
    /// type are both required.
    pub open spec fn converted(self, env: JavaEnvView) -> Result<
        CedarEntityMappingView,
        CedarlingBridgeErrorView,
    > {
        match required_of(self.spec_get_id(env), JAVA_CLS_NAME@, "id"@) {
            Err(e) => Err(e),
            Ok(id) => match required_of(
                self.spec_get_entity_type(env),
                JAVA_CLS_NAME@,
                "entity_type"@,
            ) {
                Err(e) => Err(e),
                Ok(entity_type) => Ok(CedarEntityMappingView { id, entity_type }),
            },
        }
    }

    /// A mapping without an identifier, or with one and without a type,
    /// does not convert: the error names the class and the missing field.
    pub proof fn lemma_missing_field_is_named(self, env: JavaEnvView)
        ensures
            self.spec_get_id(env) == Ok::<Option<Seq<char>>, CedarlingBridgeErrorView>(None)
                ==> self.converted(env) == Err::<CedarEntityMappingView, CedarlingBridgeErrorView>(
                CedarlingBridgeErrorView::FieldCannotBeNull { field: "id"@, class: JAVA_CLS_NAME@ },
            ),
            self.spec_get_id(env) matches Ok(Some(_)) && self.spec_get_entity_type(env) == Ok::<
                Option<Seq<char>>,
                CedarlingBridgeErrorView,
            >(None) ==> self.converted(env) == Err::<
                CedarEntityMappingView,
                CedarlingBridgeErrorView,
            >(
                CedarlingBridgeErrorView::FieldCannotBeNull {
                    field: "entity_type"@,
                    class: JAVA_CLS_NAME@,
                },
            ),
    {
    }

    /// Converts the entity mapping.
    pub fn as_cedarling_cedar_entity_mapping(&self, env: &JavaEnv) -> (res: Result<
        CedarEntityMapping,
        CedarlingBridgeError,
    >)
        ensures
            is_result_of(res, self.converted(env@)),
    {
        let id: String = require_some(self.get_id(env)?, JAVA_CLS_NAME, "id")?;
        let entity_type: String = require_some(
            self.get_entity_type(env)?,
            JAVA_CLS_NAME,
            "entity_type",
        )?;
        Ok(CedarEntityMapping { id: id, entity_type: entity_type })
    }

    /// Whether the cache holds the class of this converter and every one of
    /// its handles.
    pub open spec fn is_registered(cache: JniCacheView) -> bool {
        &&& cache.classes.contains_key(JAVA_CLS_NAME@)
        &&& cache.methods.contains_key(
            (JAVA_CLS_NAME@, JAVA_METHOD_NAME_GET_ID@, JAVA_METHOD_SIG_GET_ID@),
        )
        &&& cache.methods.contains_key(
            (JAVA_CLS_NAME@, JAVA_METHOD_NAME_GET_ENTITY_TYPE@, JAVA_METHOD_SIG_GET_ENTITY_TYPE@),
        )
    }

    /// A run that has gone through the registration of this converter
    /// without a failure holds every one of its handles, and has dropped
    /// nothing that it held before.
    pub proof fn lemma_registration_holds(reg: Registration, env: JavaEnvView)
        ensures
            Self::registration(reg, env).continues(reg),
            Self::registration(reg, env).failure is None ==> Self::is_registered(
                Self::registration(reg, env).cache,
            ),
    {
        let r0 = reg.class(env, JAVA_CLS_NAME@);
        reg.lemma_class_is_held(env, JAVA_CLS_NAME@);
        let r1 = r0.method(env, JAVA_CLS_NAME@, JAVA_METHOD_NAME_GET_ID@, JAVA_METHOD_SIG_GET_ID@);
        r0.lemma_method_is_held(
            env,
            JAVA_CLS_NAME@,
            JAVA_METHOD_NAME_GET_ID@,
            JAVA_METHOD_SIG_GET_ID@,
        );
        let r2 = r1.method(
            env,
            JAVA_CLS_NAME@,
            JAVA_METHOD_NAME_GET_ENTITY_TYPE@,
            JAVA_METHOD_SIG_GET_ENTITY_TYPE@,
        );
        r1.lemma_method_is_held(
            env,
            JAVA_CLS_NAME@,
            JAVA_METHOD_NAME_GET_ENTITY_TYPE@,
            JAVA_METHOD_SIG_GET_ENTITY_TYPE@,
        );
    }

    /// What the cache holds for this converter stays when more is registered.
    pub proof fn lemma_registered_stays(earlier: JniCacheView, later: JniCacheView)
        requires
            Self::is_registered(earlier),
            later.extends(earlier),
        ensures
            Self::is_registered(later),
    {
    }

    /// With every handle in the cache, wrapping an object finds them all:
    /// it cannot miss.
    pub proof fn lemma_registered_wraps(cache: JniCacheView, jobj: JObject)
        requires
            Self::is_registered(cache),
        ensures
            Self::wrapped(cache, jobj) is Ok,
            !jobj.is_null() ==> Self::wrapped(cache, jobj)->Ok_0 is Some,
    {
    }

    /// With every handle of the bridge in the cache, the conversion fails
    /// only on what the foreign object holds or on a foreign call that
    /// fails, and never on a miss in the cache.
    pub proof fn lemma_converts_without_miss(self, env: JavaEnvView)
        ensures
            !misses(self.converted(env)),
    {
        lemma_reads_never_miss(env, self.jobj, self.get_id_method, Seq::empty());
        lemma_reads_never_miss(env, self.jobj, self.get_entity_type_method, Seq::empty());
    }
}

} // verus!
