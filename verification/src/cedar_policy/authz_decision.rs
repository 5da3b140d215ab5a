//! The converter of decisions. In the output direction a decision becomes
//! the foreign enum constant of its name; in the input direction the name of
//! a constant is decoded.

use crate::engine::response::Decision;
use crate::error::{CedarlingBridgeError, CedarlingBridgeErrorView, is_result, misses};
use crate::jni::env::{JObject, JavaEnv, JavaEnvView};
use crate::jni::jni_cache::{JniCache, JniCacheView, Registration};
use crate::jni::util::{get_static_field_object_value, static_field_object};
use crate::text::str_eq;
use vstd::prelude::*;

verus! {

pub const JAVA_CLS_NAME: &'static str = "io/jans/cedarling/bridge/cedar/policy/AuthzDecision";

pub const JAVA_AUTHZ_DECISION_ALLOW: &'static str = "ALLOW";

pub const JAVA_AUTHZ_DECISION_DENY: &'static str = "DENY";

pub const JAVA_AUTHZ_DECISION_VALUE_SIGNATURE: &'static str =
    "Lio/jans/cedarling/bridge/cedar/policy/AuthzDecision;";

/// The converter of decisions; it holds nothing.
#[derive(Clone, Copy, Debug)]
pub struct JavaAuthzDecision;

impl JavaAuthzDecision {
    /// What this converter registers: its class and its two constants.
    pub open spec fn registration(reg: Registration, env: JavaEnvView) -> Registration {
        reg.class(env, JAVA_CLS_NAME@).static_field(
            env,
            JAVA_CLS_NAME@,
            JAVA_AUTHZ_DECISION_ALLOW@,
            JAVA_AUTHZ_DECISION_VALUE_SIGNATURE@,
        ).static_field(
            env,
            JAVA_CLS_NAME@,
            JAVA_AUTHZ_DECISION_DENY@,
            JAVA_AUTHZ_DECISION_VALUE_SIGNATURE@,
        )
    }

    /// Registers the class and its two constants.
    pub fn jni_cache_init(env: &JavaEnv, cache: &mut JniCache) -> (res: Result<
        (),
        CedarlingBridgeError,
    >)
        ensures
            Self::registration(Registration::start(old(cache)@), env@).is_outcome(
                res,
                final(cache)@,
            ),
    {
        cache.add_class(env, JAVA_CLS_NAME)?;
        cache.add_static_field(
            env,
            JAVA_CLS_NAME,
            JAVA_AUTHZ_DECISION_ALLOW,
            JAVA_AUTHZ_DECISION_VALUE_SIGNATURE,
        )?;
        cache.add_static_field(
            env,
            JAVA_CLS_NAME,
            JAVA_AUTHZ_DECISION_DENY,
            JAVA_AUTHZ_DECISION_VALUE_SIGNATURE,
        )
    }

    /// The name of the constant that stands for a decision.
    pub open spec fn spec_name_of(decision: Decision) -> Seq<char> {
        match decision {
            Decision::Allow => JAVA_AUTHZ_DECISION_ALLOW@,
            Decision::Deny => JAVA_AUTHZ_DECISION_DENY@,
        }
    }

    /// Gives the name of the constant that stands for a decision.
    pub fn name_of(decision: &Decision) -> (name: &'static str)
        ensures
            name@ == Self::spec_name_of(*decision),
    {
        match decision {
            Decision::Allow => JAVA_AUTHZ_DECISION_ALLOW,
            Decision::Deny => JAVA_AUTHZ_DECISION_DENY,
        }
    }

    /// What decoding a name gives: its decision, or the error that names
    /// the enum and the unknown value.
    pub open spec fn decoded(name: Seq<char>) -> Result<Decision, CedarlingBridgeErrorView> {
        if name == JAVA_AUTHZ_DECISION_ALLOW@ {
            Ok(Decision::Allow)
        } else if name == JAVA_AUTHZ_DECISION_DENY@ {
            Ok(Decision::Deny)
        } else {
            Err(
                CedarlingBridgeErrorView::UnknownEnumValue { enum_cls: JAVA_CLS_NAME@, value: name },
            )
        }
    }

    /// Decodes the name of a constant.
    pub fn from_name(name: &str) -> (res: Result<Decision, CedarlingBridgeError>)
        ensures
            is_result(res, Self::decoded(name@)),
    {
        if str_eq(name, JAVA_AUTHZ_DECISION_ALLOW) {
            Ok(Decision::Allow)
        } else if str_eq(name, JAVA_AUTHZ_DECISION_DENY) {
            Ok(Decision::Deny)
        } else {
            Err(
                CedarlingBridgeError::UnknownEnumValue {
                    enum_cls: JAVA_CLS_NAME,
                    value: String::from_str(name),
                },
            )
        }
    }

    /// A recognised name, decoded and written again, is the name that came
    /// in; and a decision, written and decoded again, is the decision.
    pub proof fn lemma_round_trip(decision: Decision, name: Seq<char>)
        ensures
            Self::decoded(Self::spec_name_of(decision)) == Ok::<Decision, CedarlingBridgeErrorView>(
                decision,
            ),
            Self::decoded(name) == Ok::<Decision, CedarlingBridgeErrorView>(decision)
                ==> Self::spec_name_of(decision) == name,
    {
        reveal_strlit("ALLOW");
        reveal_strlit("DENY");
        assert(JAVA_AUTHZ_DECISION_ALLOW@[0] == 'A');
        assert(JAVA_AUTHZ_DECISION_DENY@[0] == 'D');
    }

    /// The constant of a name: the class and the field are looked up in the
    /// cache, and the field is read.
    pub open spec fn constant(env: JavaEnvView, cache: JniCacheView, name: Seq<char>) -> Result<
        JObject,
        CedarlingBridgeErrorView,
    > {
        match cache.class(env, JAVA_CLS_NAME@) {
            Err(e) => Err(e),
            Ok(class) => match cache.static_field(
                JAVA_CLS_NAME@,
                name,
                JAVA_AUTHZ_DECISION_VALUE_SIGNATURE@,
            ) {
                Err(e) => Err(e),
                Ok(field) => static_field_object(env, class, field),
            },
        }
    }

    /// The foreign form of a decision: the constant of its name.
    pub open spec fn foreign(env: JavaEnvView, cache: JniCacheView, decision: Decision) -> Result<
        JObject,
        CedarlingBridgeErrorView,
    > {
        Self::constant(env, cache, Self::spec_name_of(decision))
    }

    /// Gives the foreign form of a decision.
    pub fn as_java_object(env: &JavaEnv, cache: &JniCache, decision: &Decision) -> (res: Result<
        JObject,
        CedarlingBridgeError,
    >)
        ensures
            is_result(res, Self::foreign(env@, cache@, *decision)),
    {
        match decision {
            Decision::Allow => JavaAuthzDecision::allow_value(env, cache),
            Decision::Deny => JavaAuthzDecision::deny_value(env, cache),
        }
    }

    /// Reads the constant that stands for a permission.
    pub fn allow_value(env: &JavaEnv, cache: &JniCache) -> (res: Result<
        JObject,
        CedarlingBridgeError,
    >)
        ensures
            is_result(res, Self::constant(env@, cache@, JAVA_AUTHZ_DECISION_ALLOW@)),
    {
        let class = cache.get_class(env, JAVA_CLS_NAME)?;
        let allow_key = (
            JAVA_CLS_NAME,
            JAVA_AUTHZ_DECISION_ALLOW,
            JAVA_AUTHZ_DECISION_VALUE_SIGNATURE,
        );
        let field_id = cache.get_static_field(&allow_key)?;
        get_static_field_object_value(env, &class, &field_id, JAVA_CLS_NAME)
    }

    /// Reads the constant that stands for a refusal.
    pub fn deny_value(env: &JavaEnv, cache: &JniCache) -> (res: Result<
        JObject,
        CedarlingBridgeError,
    >)
        ensures
            is_result(res, Self::constant(env@, cache@, JAVA_AUTHZ_DECISION_DENY@)),
    {
        let class = cache.get_class(env, JAVA_CLS_NAME)?;
        let deny_key = (JAVA_CLS_NAME, JAVA_AUTHZ_DECISION_DENY, JAVA_AUTHZ_DECISION_VALUE_SIGNATURE);
        let field_id = cache.get_static_field(&deny_key)?;
        get_static_field_object_value(env, &class, &field_id, JAVA_CLS_NAME)
    }

    /// Whether the cache holds the class of this converter and every one of
    /// its handles.
    pub open spec fn is_registered(cache: JniCacheView) -> bool {
        &&& cache.classes.contains_key(JAVA_CLS_NAME@)
        &&& cache.static_fields.contains_key(
            (JAVA_CLS_NAME@, JAVA_AUTHZ_DECISION_ALLOW@, JAVA_AUTHZ_DECISION_VALUE_SIGNATURE@),
        )
        &&& cache.static_fields.contains_key(
            (JAVA_CLS_NAME@, JAVA_AUTHZ_DECISION_DENY@, JAVA_AUTHZ_DECISION_VALUE_SIGNATURE@),
        )
    }

    /// A run that has gone through the registration of this converter
    /// without a failure holds every one of its handles, and has dropped
    /// nothing that it held before.
    pub proof fn lemma_registration_holds(reg: Registration, env: JavaEnvView)
        ensures
            Self::registration(reg, env).continues(reg),
            Self::registration(reg, env).failure is None ==> Self::is_registered(
                Self::registration(reg, env).cache,
            ),
    {
        let r0 = reg.class(env, JAVA_CLS_NAME@);
        reg.lemma_class_is_held(env, JAVA_CLS_NAME@);
        let r1 = r0.static_field(
            env,
            JAVA_CLS_NAME@,
            JAVA_AUTHZ_DECISION_ALLOW@,
            JAVA_AUTHZ_DECISION_VALUE_SIGNATURE@,
        );
        r0.lemma_static_field_is_held(
            env,
            JAVA_CLS_NAME@,
            JAVA_AUTHZ_DECISION_ALLOW@,
            JAVA_AUTHZ_DECISION_VALUE_SIGNATURE@,
        );
        let r2 = r1.static_field(
            env,
            JAVA_CLS_NAME@,
            JAVA_AUTHZ_DECISION_DENY@,
            JAVA_AUTHZ_DECISION_VALUE_SIGNATURE@,
        );
        r1.lemma_static_field_is_held(
            env,
            JAVA_CLS_NAME@,
            JAVA_AUTHZ_DECISION_DENY@,
            JAVA_AUTHZ_DECISION_VALUE_SIGNATURE@,
        );
    }

    /// What the cache holds for this converter stays when more is registered.
    pub proof fn lemma_registered_stays(earlier: JniCacheView, later: JniCacheView)
        requires
            Self::is_registered(earlier),
            later.extends(earlier),
        ensures
            Self::is_registered(later),
    {
    }

    /// With every handle of the bridge in the cache, reading the constant
    /// of a decision never fails on a miss in the cache.
    pub proof fn lemma_builds_without_miss(
        env: JavaEnvView,
        cache: JniCacheView,
        decision: Decision,
    )
        requires
            crate::cedarling::is_registered(cache),
        ensures
            !misses(Self::foreign(env, cache, decision)),
    {
    }
}

} // verus!
