//! The converter of entities.

use crate::authz::cedar_entity_mapping::JavaCedarEntityMapping;
use crate::engine::request::{CedarEntityMapping, EntityData, EntityDataView};
use crate::error::{CedarlingBridgeError, CedarlingBridgeErrorView, is_result, is_result_of, misses};
use crate::jni::env::{JMethodID, JObject, JavaEnv, JavaEnvView};
use crate::jni::jni_cache::{JniCache, JniCacheView, Registration};
use crate::jni::util::{call_jni_object_method, call_jni_string_method, lemma_reads_never_miss};
use crate::jni::util::{no_args, object_result, require_some, required_of, string_result};
use crate::outside::{json_attributes_of, parse_json_attributes};
use std::collections::HashMap;
use vstd::prelude::*;

verus! {

pub const JAVA_CLS_NAME: &'static str = "io/jans/cedarling/bridge/authz/EntityData";

pub const JAVA_METHOD_NAME_GET_CEDAR_MAPPING: &'static str = "getCedarMapping";

pub const JAVA_METHOD_SIG_GET_CEDAR_MAPPING: &'static str =
    "()Lio/jans/cedarling/bridge/authz/CedarEntityMapping;";

pub const JAVA_METHOD_NAME_GET_ATTRIBUTES: &'static str = "getAttributes";

pub const JAVA_METHOD_SIG_GET_ATTRIBUTES: &'static str = "()Ljava/lang/String;";

pub const PARSING_FAILED: &'static str = "Parsing authz request attributes failed";

/// A foreign entity with the handles that read it.
#[derive(Clone, Copy, Debug)]
pub struct JavaEntityData {
    pub jobj: JObject,
    pub get_cedar_entity_mapping_method: JMethodID,
    pub get_attributes_method: JMethodID,
}

impl JavaEntityData {
    /// What this converter registers: its class, then each of its methods.
    pub open spec fn registration(reg: Registration, env: JavaEnvView) -> Registration {
        reg.class(env, JAVA_CLS_NAME@)
            .method(
                env,
                JAVA_CLS_NAME@,
                JAVA_METHOD_NAME_GET_CEDAR_MAPPING@,
                JAVA_METHOD_SIG_GET_CEDAR_MAPPING@,
            )
            .method(
                env,
                JAVA_CLS_NAME@,
                JAVA_METHOD_NAME_GET_ATTRIBUTES@,
                JAVA_METHOD_SIG_GET_ATTRIBUTES@,
            )
    }

    /// Registers the class and its methods; stops at the first that the
    /// runtime cannot resolve.
    pub fn jni_cache_init(env: &JavaEnv, cache: &mut JniCache) -> (res: Result<
        (),
        CedarlingBridgeError,
    >)
        ensures
            Self::registration(Registration::start(old(cache)@), env@).is_outcome(
                res,
                final(cache)@,
            ),
    {
        cache.add_class(env, JAVA_CLS_NAME)?;
        cache.add_instance_method(
            env,
            JAVA_CLS_NAME,
            JAVA_METHOD_NAME_GET_CEDAR_MAPPING,
            JAVA_METHOD_SIG_GET_CEDAR_MAPPING,
        )?;
        cache.add_instance_method(
            env,
            JAVA_CLS_NAME,
            JAVA_METHOD_NAME_GET_ATTRIBUTES,
            JAVA_METHOD_SIG_GET_ATTRIBUTES,
        )
    }

    /// What wrapping a foreign object gives: nothing for the null reference,
    /// else the object with its handles from the cache, or the report of the
    /// first handle that the cache does not hold.
    pub open spec fn wrapped(cache: JniCacheView, jobj: JObject) -> Result<
        Option<JavaEntityData>,
        CedarlingBridgeErrorView,
    > {
        if jobj.is_null() {
            Ok(None)
        } else {
            match cache.method(
                JAVA_CLS_NAME@,
                JAVA_METHOD_NAME_GET_CEDAR_MAPPING@,
                JAVA_METHOD_SIG_GET_CEDAR_MAPPING@,
            ) {
                Err(e) => Err(e),
                Ok(get_cedar_entity_mapping_method) => match cache.method(
                    JAVA_CLS_NAME@,
                    JAVA_METHOD_NAME_GET_ATTRIBUTES@,
                    JAVA_METHOD_SIG_GET_ATTRIBUTES@,
                ) {
                    Err(e) => Err(e),
                    Ok(
                        get_attributes_method,
                    ) => Ok(Some(JavaEntityData { jobj, get_cedar_entity_mapping_method, get_attributes_method })),
                },
            }
        }
    }

    /// Wraps a foreign object.
    pub fn new(cache: &JniCache, jobj: JObject) -> (res: Result<
        Option<JavaEntityData>,
        CedarlingBridgeError,
    >)
        ensures
            is_result(res, Self::wrapped(cache@, jobj)),
    {
        if jobj.is_null() {
            return Ok(None);
        }
        let get_cedar_entity_mapping_key = (
            JAVA_CLS_NAME,
            JAVA_METHOD_NAME_GET_CEDAR_MAPPING,
            JAVA_METHOD_SIG_GET_CEDAR_MAPPING,
        );
        let get_attributes_key = (
            JAVA_CLS_NAME,
            JAVA_METHOD_NAME_GET_ATTRIBUTES,
            JAVA_METHOD_SIG_GET_ATTRIBUTES,
        );
        Ok(
            Some(
                JavaEntityData {
                    jobj: jobj,
                    get_cedar_entity_mapping_method: cache.get_instance_method(
                        &get_cedar_entity_mapping_key,
                    )?,
                    get_attributes_method: cache.get_instance_method(&get_attributes_key)?,
                },
            ),
        )
    }

    /// What asking the object for `getCedarMapping` gives: the object that
    /// comes back, wrapped.
    pub open spec fn spec_get_cedar_entity_mapping(
        self,
        env: JavaEnvView,
        cache: JniCacheView,
    ) -> Result<
        Option<JavaCedarEntityMapping>,
        CedarlingBridgeErrorView,
    > {
        match object_result(env, self.jobj, self.get_cedar_entity_mapping_method, Seq::empty()) {
            Err(e) => Err(e),
            Ok(obj) => JavaCedarEntityMapping::wrapped(cache, obj),
        }
    }

    /// Asks the object for `getCedarMapping`.
    pub fn get_cedar_entity_mapping(&self, env: &JavaEnv, cache: &JniCache) -> (res: Result<
        Option<JavaCedarEntityMapping>,
        CedarlingBridgeError,
    >)
        ensures
            is_result(res, self.spec_get_cedar_entity_mapping(env@, cache@)),
    {
        let obj = call_jni_object_method(
            env,
            &self.jobj,
            &self.get_cedar_entity_mapping_method,
            &no_args(),
        )?;
        JavaCedarEntityMapping::new(cache, obj)
    }

    /// What asking the object for `getAttributes` gives.
    pub open spec fn spec_get_attributes(self, env: JavaEnvView) -> Result<
        Option<Seq<char>>,
        CedarlingBridgeErrorView,
    > {
        string_result(env, self.jobj, self.get_attributes_method, Seq::empty())
    }

    /// Asks the object for `getAttributes`.
    pub fn get_attributes(&self, env: &JavaEnv) -> (res: Result<
        Option<String>,
        CedarlingBridgeError,
    >)
        ensures
            is_result_of(res, self.spec_get_attributes(env@)),
    {
        call_jni_string_method(env, &self.jobj, &self.get_attributes_method, &no_args())
    }


    /// What the outcome of parsing the text of the attributes holds, the map
    /// taken by its view.
    pub open spec fn outcome_view(
        outcome: Result<HashMap<String, serde_json::Value>, serde_json::Error>,
    ) -> Result<Map<String, serde_json::Value>, serde_json::Error> {
        match outcome {
            Ok(attributes) => Ok(attributes@),
            Err(e) => Err(e),
        }
    }

    /// What the outcome of parsing the text of the attributes stands for:
    /// the attributes, or the parse error with the note that it was the
    /// attributes that failed to parse.
    pub open spec fn parsed(
        outcome: Result<Map<String, serde_json::Value>, serde_json::Error>,
    ) -> Result<
        Map<String, serde_json::Value>,
        CedarlingBridgeErrorView,
    > {
        match outcome {
            Ok(attributes) => Ok(attributes),
            Err(json_err) => Err(
                CedarlingBridgeErrorView::JsonError {
                    additional_description: PARSING_FAILED@,
                    json_err,
                },
            ),
        }
    }

    /// Turns the outcome of parsing the text of the attributes into the
    /// result of the conversion.
    pub fn from_parsed(
        outcome: Result<HashMap<String, serde_json::Value>, serde_json::Error>,
    ) -> (res:
        Result<HashMap<String, serde_json::Value>, CedarlingBridgeError>)
        ensures
            match res {
                Ok(attributes) => Self::parsed(Self::outcome_view(outcome)) == Ok::<
                    Map<String, serde_json::Value>,
                    CedarlingBridgeErrorView,
                >(attributes@),
                Err(e) => Self::parsed(Self::outcome_view(outcome)) == Err::<
                    Map<String, serde_json::Value>,
                    CedarlingBridgeErrorView,
                >(e@),
            },
    {
        match outcome {
            Ok(attributes) => Ok(attributes),
            Err(e) => Err(
                CedarlingBridgeError::JsonError {
                    additional_description: String::from_str(PARSING_FAILED),
                    json_err: e,
                },
            ),
        }
    }

    /// The native entity that the object stands for: its mapping, which is
    /// required, converted; then its attributes, whose text is required,
    /// parsed as a JSON object.
    pub open spec fn converted(self, env: JavaEnvView, cache: JniCacheView) -> Result<
        EntityDataView,
        CedarlingBridgeErrorView,
    > {
        match required_of(
            self.spec_get_cedar_entity_mapping(env, cache),
            JAVA_CLS_NAME@,
            "cedar_mapping"@,
        ) {
            Err(e) => Err(e),
            Ok(mapping) => match mapping.converted(env) {
                Err(e) => Err(e),
                Ok(cedar_mapping) => match required_of(
                    self.spec_get_attributes(env),
                    JAVA_CLS_NAME@,
                    "attributes"@,
                ) {
                    Err(e) => Err(e),
                    Ok(text) => match Self::parsed(json_attributes_of(text)) {
                        Err(e) => Err(e),
                        Ok(attributes) => Ok(EntityDataView { cedar_mapping, attributes }),
                    },
                },
            },
        }
    }

    /// Converts the entity.
    pub fn as_cedarling_entity_data(&self, env: &JavaEnv, cache: &JniCache) -> (res: Result<
        EntityData,
        CedarlingBridgeError,
    >)
        ensures
            is_result_of(res, self.converted(env@, cache@)),
    {
        let cedar_mapping: CedarEntityMapping = {
            let cedar_mapping_obj = require_some(
                self.get_cedar_entity_mapping(env, cache)?,
                JAVA_CLS_NAME,
                "cedar_mapping",
            )?;
            cedar_mapping_obj.as_cedarling_cedar_entity_mapping(env)?
        };
        let attributes: HashMap<String, serde_json::Value> = {
            let attr_str = require_some(self.get_attributes(env)?, JAVA_CLS_NAME, "attributes")?;
            Self::from_parsed(parse_json_attributes(attr_str.as_str()))?
        };
        Ok(EntityData { cedar_mapping: cedar_mapping, attributes: attributes })
    }

    /// Whether the cache holds the class of this converter and every one of
    /// its handles.
    pub open spec fn is_registered(cache: JniCacheView) -> bool {
        &&& cache.classes.contains_key(JAVA_CLS_NAME@)
        &&& cache.methods.contains_key(
            (JAVA_CLS_NAME@, JAVA_METHOD_NAME_GET_CEDAR_MAPPING@, JAVA_METHOD_SIG_GET_CEDAR_MAPPING@),
        )
        &&& cache.methods.contains_key(
            (JAVA_CLS_NAME@, JAVA_METHOD_NAME_GET_ATTRIBUTES@, JAVA_METHOD_SIG_GET_ATTRIBUTES@),
        )
    }

    /// A run that has gone through the registration of this converter
    /// without a failure holds every one of its handles, and has dropped
    /// nothing that it held before.
    pub proof fn lemma_registration_holds(reg: Registration, env: JavaEnvView)
        ensures
            Self::registration(reg, env).continues(reg),
            Self::registration(reg, env).failure is None ==> Self::is_registered(
                Self::registration(reg, env).cache,
            ),
    {
        let r0 = reg.class(env, JAVA_CLS_NAME@);
        reg.lemma_class_is_held(env, JAVA_CLS_NAME@);
        let r1 = r0.method(
            env,
            JAVA_CLS_NAME@,
            JAVA_METHOD_NAME_GET_CEDAR_MAPPING@,
            JAVA_METHOD_SIG_GET_CEDAR_MAPPING@,
        );
        r0.lemma_method_is_held(
            env,
            JAVA_CLS_NAME@,
            JAVA_METHOD_NAME_GET_CEDAR_MAPPING@,
            JAVA_METHOD_SIG_GET_CEDAR_MAPPING@,
        );
        let r2 = r1.method(
            env,
            JAVA_CLS_NAME@,
            JAVA_METHOD_NAME_GET_ATTRIBUTES@,
            JAVA_METHOD_SIG_GET_ATTRIBUTES@,
        );
        r1.lemma_method_is_held(
            env,
            JAVA_CLS_NAME@,
            JAVA_METHOD_NAME_GET_ATTRIBUTES@,
            JAVA_METHOD_SIG_GET_ATTRIBUTES@,
        );
    }

    /// What the cache holds for this converter stays when more is registered.
    pub proof fn lemma_registered_stays(earlier: JniCacheView, later: JniCacheView)
        requires
            Self::is_registered(earlier),
            later.extends(earlier),
        ensures
            Self::is_registered(later),
    {
    }

    /// With every handle in the cache, wrapping an object finds them all:
    /// it cannot miss.
    pub proof fn lemma_registered_wraps(cache: JniCacheView, jobj: JObject)
        requires
            Self::is_registered(cache),
        ensures
            Self::wrapped(cache, jobj) is Ok,
            !jobj.is_null() ==> Self::wrapped(cache, jobj)->Ok_0 is Some,
    {
    }

    /// With every handle of the bridge in the cache, the conversion fails
    /// only on what the foreign object holds or on a foreign call that
    /// fails, and never on a miss in the cache.
    pub proof fn lemma_converts_without_miss(self, env: JavaEnvView, cache: JniCacheView)
        requires
            crate::cedarling::is_registered(cache),
        ensures
            !misses(self.converted(env, cache)),
    {
        lemma_reads_never_miss(env, self.jobj, self.get_cedar_entity_mapping_method, Seq::empty());
        if let Ok(
            value,
        ) = object_result(env, self.jobj, self.get_cedar_entity_mapping_method, Seq::empty()) {
            JavaCedarEntityMapping::lemma_registered_wraps(cache, value);
        }
        lemma_reads_never_miss(env, self.jobj, self.get_attributes_method, Seq::empty());
        if let Ok(Some(part)) = self.spec_get_cedar_entity_mapping(env, cache) {
            part.lemma_converts_without_miss(env);
        }
    }
}

} // verus!
