//! The converter of the authorization section.

use crate::config::id_token_trust_mode::JavaIdTokenTrustMode;
use crate::config::json_rule::JavaJsonRule;
use crate::engine::config::{AuthorizationConfig, AuthorizationConfigView, IdTokenTrustMode};
use crate::engine::config::JsonRule;
use crate::error::{CedarlingBridgeError, CedarlingBridgeErrorView, is_result, is_result_of, misses};
use crate::jni::env::{JMethodID, JObject, JavaEnv, JavaEnvView};
use crate::jni::jni_cache::{JniCache, JniCacheView, Registration};
use crate::jni::list::JavaList;
use crate::jni::util::{bool_result, call_jni_bool_method, call_jni_object_method};
use crate::jni::util::{call_jni_string_method, java_string_to_native_string};
use crate::jni::util::{lemma_reads_never_miss, lemma_registered_never_misses, native_string};
use crate::jni::util::{no_args, null_element, null_element_error, object_result, require_some};
use crate::jni::util::{required_of, string_result};
use vstd::prelude::*;

verus! {

pub const JAVA_CLS_NAME: &'static str =
    "io/jans/cedarling/bridge/config/AuthorizationConfiguration";

pub const JAVA_METHOD_NAME_GET_USE_USER_PRINCIPAL: &'static str = "getUseUserPrincipal";

pub const JAVA_METHOD_SIG_GET_USE_USER_PRINCIPAL: &'static str = "()Z";

pub const JAVA_METHOD_NAME_GET_USE_WORKLOAD_PRINCIPAL: &'static str = "getUseWorkloadPrincipal";

pub const JAVA_METHOD_SIG_GET_USE_WORKLOAD_PRINCIPAL: &'static str = "()Z";

pub const JAVA_METHOD_NAME_GET_PRINCIPAL_BOOL_OPERATOR: &'static str = "getPrincipalBoolOperator";

pub const JAVA_METHOD_SIG_GET_PRINCIPAL_BOOL_OPERATOR: &'static str =
    "()Lio/jans/cedarling/bridge/config/JsonRule;";

pub const JAVA_METHOD_NAME_GET_DECISION_LOG_USER_CLAIMS: &'static str = "getDecisionLogUserClaims";

pub const JAVA_METHOD_SIG_GET_DECISION_LOG_USER_CLAIMS: &'static str = "()Ljava/util/List;";

pub const JAVA_METHOD_NAME_GET_DECISION_LOG_WORKLOAD_CLAIMS: &'static str =
    "getDecisionLogWorkloadClaims";

pub const JAVA_METHOD_SIG_GET_DECISION_LOG_WORKLOAD_CLAIMS: &'static str = "()Ljava/util/List;";

pub const JAVA_METHOD_NAME_GET_DECISION_LOG_DEFAULT_JWT_ID: &'static str =
    "getDecisionLogDefaultJwtId";

pub const JAVA_METHOD_SIG_GET_DECISION_LOG_DEFAULT_JWT_ID: &'static str = "()Ljava/lang/String;";

pub const JAVA_METHOD_NAME_GET_ID_TOKEN_TRUST_MODE: &'static str = "getIdTokenTrustMode";

pub const JAVA_METHOD_SIG_GET_ID_TOKEN_TRUST_MODE: &'static str =
    "()Lio/jans/cedarling/bridge/config/IdTokenTrustMode;";

pub const USER_CLAIMS_FIELD: &'static str = "decisionLogUserClaims";

pub const WORKLOAD_CLAIMS_FIELD: &'static str = "decisionLogWorkloadClaims";

pub const NULL_CLAIM: &'static str = "null claim specified in authorization configuration";

/// A foreign authorization section with the handles that read it.
#[derive(Clone, Copy, Debug)]
pub struct JavaAuthorizationConfig {
    pub jobj: JObject,
    pub get_use_user_principal_method: JMethodID,
    pub get_use_workload_principal_method: JMethodID,
    pub get_principal_bool_operator_method: JMethodID,
    pub get_decision_log_user_claims_method: JMethodID,
    pub get_decision_log_workload_claims_method: JMethodID,
    pub get_decision_log_default_jwt_id_method: JMethodID,
    pub get_id_token_trust_mode_method: JMethodID,
}

impl JavaAuthorizationConfig {
    /// What this converter registers: its class, then each of its methods.
    pub open spec fn registration(reg: Registration, env: JavaEnvView) -> Registration {
        reg.class(env, JAVA_CLS_NAME@)
            .method(
                env,
                JAVA_CLS_NAME@,
                JAVA_METHOD_NAME_GET_USE_USER_PRINCIPAL@,
                JAVA_METHOD_SIG_GET_USE_USER_PRINCIPAL@,
            )
            .method(
                env,
                JAVA_CLS_NAME@,
                JAVA_METHOD_NAME_GET_USE_WORKLOAD_PRINCIPAL@,
                JAVA_METHOD_SIG_GET_USE_WORKLOAD_PRINCIPAL@,
            )
            .method(
                env,
                JAVA_CLS_NAME@,
                JAVA_METHOD_NAME_GET_PRINCIPAL_BOOL_OPERATOR@,
                JAVA_METHOD_SIG_GET_PRINCIPAL_BOOL_OPERATOR@,
            )
            .method(
                env,
                JAVA_CLS_NAME@,
                JAVA_METHOD_NAME_GET_DECISION_LOG_USER_CLAIMS@,
                JAVA_METHOD_SIG_GET_DECISION_LOG_USER_CLAIMS@,
            )
            .method(
                env,
                JAVA_CLS_NAME@,
                JAVA_METHOD_NAME_GET_DECISION_LOG_WORKLOAD_CLAIMS@,
                JAVA_METHOD_SIG_GET_DECISION_LOG_WORKLOAD_CLAIMS@,
            )
            .method(
                env,
                JAVA_CLS_NAME@,
                JAVA_METHOD_NAME_GET_DECISION_LOG_DEFAULT_JWT_ID@,
                JAVA_METHOD_SIG_GET_DECISION_LOG_DEFAULT_JWT_ID@,
            )
            .method(
                env,
                JAVA_CLS_NAME@,
                JAVA_METHOD_NAME_GET_ID_TOKEN_TRUST_MODE@,
                JAVA_METHOD_SIG_GET_ID_TOKEN_TRUST_MODE@,
            )
    }

    /// Registers the class and its methods; stops at the first that the
    /// runtime cannot resolve.
    pub fn jni_cache_init(env: &JavaEnv, cache: &mut JniCache) -> (res: Result<
        (),
        CedarlingBridgeError,
    >)
        ensures
            Self::registration(Registration::start(old(cache)@), env@).is_outcome(
                res,
                final(cache)@,
            ),
    {
        cache.add_class(env, JAVA_CLS_NAME)?;
        cache.add_instance_method(
            env,
            JAVA_CLS_NAME,
            JAVA_METHOD_NAME_GET_USE_USER_PRINCIPAL,
            JAVA_METHOD_SIG_GET_USE_USER_PRINCIPAL,
        )?;
        cache.add_instance_method(
            env,
            JAVA_CLS_NAME,
            JAVA_METHOD_NAME_GET_USE_WORKLOAD_PRINCIPAL,
            JAVA_METHOD_SIG_GET_USE_WORKLOAD_PRINCIPAL,
        )?;
        cache.add_instance_method(
            env,
            JAVA_CLS_NAME,
            JAVA_METHOD_NAME_GET_PRINCIPAL_BOOL_OPERATOR,
            JAVA_METHOD_SIG_GET_PRINCIPAL_BOOL_OPERATOR,
        )?;
        cache.add_instance_method(
            env,
            JAVA_CLS_NAME,
            JAVA_METHOD_NAME_GET_DECISION_LOG_USER_CLAIMS,
            JAVA_METHOD_SIG_GET_DECISION_LOG_USER_CLAIMS,
        )?;
        cache.add_instance_method(
            env,
            JAVA_CLS_NAME,
            JAVA_METHOD_NAME_GET_DECISION_LOG_WORKLOAD_CLAIMS,
            JAVA_METHOD_SIG_GET_DECISION_LOG_WORKLOAD_CLAIMS,
        )?;
        cache.add_instance_method(
            env,
            JAVA_CLS_NAME,
            JAVA_METHOD_NAME_GET_DECISION_LOG_DEFAULT_JWT_ID,
            JAVA_METHOD_SIG_GET_DECISION_LOG_DEFAULT_JWT_ID,
        )?;
        cache.add_instance_method(
            env,
            JAVA_CLS_NAME,
            JAVA_METHOD_NAME_GET_ID_TOKEN_TRUST_MODE,
            JAVA_METHOD_SIG_GET_ID_TOKEN_TRUST_MODE,
        )
    }

    /// What wrapping a foreign object gives: nothing for the null reference,
    /// else the object with its handles from the cache, or the report of the
    /// first handle that the cache does not hold.
    pub open spec fn wrapped(cache: JniCacheView, jobj: JObject) -> Result<
        Option<JavaAuthorizationConfig>,
        CedarlingBridgeErrorView,
    > {
        if jobj.is_null() {
            Ok(None)
        } else {
            match cache.method(
                JAVA_CLS_NAME@,
                JAVA_METHOD_NAME_GET_USE_USER_PRINCIPAL@,
                JAVA_METHOD_SIG_GET_USE_USER_PRINCIPAL@,
            ) {
                Err(e) => Err(e),
                Ok(get_use_user_principal_method) => match cache.method(
                    JAVA_CLS_NAME@,
                    JAVA_METHOD_NAME_GET_USE_WORKLOAD_PRINCIPAL@,
                    JAVA_METHOD_SIG_GET_USE_WORKLOAD_PRINCIPAL@,
                ) {
                    Err(e) => Err(e),
                    Ok(get_use_workload_principal_method) => match cache.method(
                        JAVA_CLS_NAME@,
                        JAVA_METHOD_NAME_GET_PRINCIPAL_BOOL_OPERATOR@,
                        JAVA_METHOD_SIG_GET_PRINCIPAL_BOOL_OPERATOR@,
                    ) {
                        Err(e) => Err(e),
                        Ok(get_principal_bool_operator_method) => match cache.method(
                            JAVA_CLS_NAME@,
                            JAVA_METHOD_NAME_GET_DECISION_LOG_USER_CLAIMS@,
                            JAVA_METHOD_SIG_GET_DECISION_LOG_USER_CLAIMS@,
                        ) {
                            Err(e) => Err(e),
                            Ok(get_decision_log_user_claims_method) => match cache.method(
                                JAVA_CLS_NAME@,
                                JAVA_METHOD_NAME_GET_DECISION_LOG_WORKLOAD_CLAIMS@,
                                JAVA_METHOD_SIG_GET_DECISION_LOG_WORKLOAD_CLAIMS@,
                            ) {
                                Err(e) => Err(e),
                                Ok(get_decision_log_workload_claims_method) => match cache.method(
                                    JAVA_CLS_NAME@,
                                    JAVA_METHOD_NAME_GET_DECISION_LOG_DEFAULT_JWT_ID@,
                                    JAVA_METHOD_SIG_GET_DECISION_LOG_DEFAULT_JWT_ID@,
                                ) {
                                    Err(e) => Err(e),
                                    Ok(
                                        get_decision_log_default_jwt_id_method,
                                    ) => match cache.method(
                                        JAVA_CLS_NAME@,
                                        JAVA_METHOD_NAME_GET_ID_TOKEN_TRUST_MODE@,
                                        JAVA_METHOD_SIG_GET_ID_TOKEN_TRUST_MODE@,
                                    ) {
                                        Err(e) => Err(e),
                                        Ok(get_id_token_trust_mode_method) => Ok(
                                            Some(
                                                JavaAuthorizationConfig {
                                                    jobj,
                                                    get_use_user_principal_method,
                                                    get_use_workload_principal_method,
                                                    get_principal_bool_operator_method,
                                                    get_decision_log_user_claims_method,
                                                    get_decision_log_workload_claims_method,
                                                    get_decision_log_default_jwt_id_method,
                                                    get_id_token_trust_mode_method,
                                                },
                                            ),
                                        ),
                                    },
                                },
                            },
                        },
                    },
                },
            }
        }
    }

    /// Wraps a foreign object.
    pub fn new(cache: &JniCache, jobj: JObject) -> (res: Result<
        Option<JavaAuthorizationConfig>,
        CedarlingBridgeError,
    >)
        ensures
            is_result(res, Self::wrapped(cache@, jobj)),
    {
        if jobj.is_null() {
            return Ok(None);
        }
        let get_use_user_principal_key = (
            JAVA_CLS_NAME,
            JAVA_METHOD_NAME_GET_USE_USER_PRINCIPAL,
            JAVA_METHOD_SIG_GET_USE_USER_PRINCIPAL,
        );
        let get_use_workload_principal_key = (
            JAVA_CLS_NAME,
            JAVA_METHOD_NAME_GET_USE_WORKLOAD_PRINCIPAL,
            JAVA_METHOD_SIG_GET_USE_WORKLOAD_PRINCIPAL,
        );
        let get_principal_bool_operator_key = (
            JAVA_CLS_NAME,
            JAVA_METHOD_NAME_GET_PRINCIPAL_BOOL_OPERATOR,
            JAVA_METHOD_SIG_GET_PRINCIPAL_BOOL_OPERATOR,
        );
        let get_decision_log_user_claims_key = (
            JAVA_CLS_NAME,
            JAVA_METHOD_NAME_GET_DECISION_LOG_USER_CLAIMS,
            JAVA_METHOD_SIG_GET_DECISION_LOG_USER_CLAIMS,
        );
        let get_decision_log_workload_claims_key = (
            JAVA_CLS_NAME,
            JAVA_METHOD_NAME_GET_DECISION_LOG_WORKLOAD_CLAIMS,
            JAVA_METHOD_SIG_GET_DECISION_LOG_WORKLOAD_CLAIMS,
        );
        let get_decision_log_default_jwt_id_key = (
            JAVA_CLS_NAME,
            JAVA_METHOD_NAME_GET_DECISION_LOG_DEFAULT_JWT_ID,
            JAVA_METHOD_SIG_GET_DECISION_LOG_DEFAULT_JWT_ID,
        );
        let get_id_token_trust_mode_key = (
            JAVA_CLS_NAME,
            JAVA_METHOD_NAME_GET_ID_TOKEN_TRUST_MODE,
            JAVA_METHOD_SIG_GET_ID_TOKEN_TRUST_MODE,
        );
        Ok(
            Some(
                JavaAuthorizationConfig {
                    jobj: jobj,
                    get_use_user_principal_method: cache.get_instance_method(
                        &get_use_user_principal_key,
                    )?,
                    get_use_workload_principal_method: cache.get_instance_method(
                        &get_use_workload_principal_key,
                    )?,
                    get_principal_bool_operator_method: cache.get_instance_method(
                        &get_principal_bool_operator_key,
                    )?,
                    get_decision_log_user_claims_method: cache.get_instance_method(
                        &get_decision_log_user_claims_key,
                    )?,
                    get_decision_log_workload_claims_method: cache.get_instance_method(
                        &get_decision_log_workload_claims_key,
                    )?,
                    get_decision_log_default_jwt_id_method: cache.get_instance_method(
                        &get_decision_log_default_jwt_id_key,
                    )?,
                    get_id_token_trust_mode_method: cache.get_instance_method(
                        &get_id_token_trust_mode_key,
                    )?,
                },
            ),
        )
    }

    /// What asking the object for `getUseUserPrincipal` gives.
    pub open spec fn spec_get_use_user_principal(self, env: JavaEnvView) -> Result<
        bool,
        CedarlingBridgeErrorView,
    > {
        bool_result(env, self.jobj, self.get_use_user_principal_method, Seq::empty())
    }

    /// Asks the object for `getUseUserPrincipal`.
    pub fn get_use_user_principal(&self, env: &JavaEnv) -> (res: Result<
        bool,
        CedarlingBridgeError,
    >)
        ensures
            is_result(res, self.spec_get_use_user_principal(env@)),
    {
        call_jni_bool_method(env, &self.jobj, &self.get_use_user_principal_method, &no_args())
    }

    /// What asking the object for `getUseWorkloadPrincipal` gives.
    pub open spec fn spec_get_use_workload_principal(self, env: JavaEnvView) -> Result<
        bool,
        CedarlingBridgeErrorView,
    > {
        bool_result(env, self.jobj, self.get_use_workload_principal_method, Seq::empty())
    }

    /// Asks the object for `getUseWorkloadPrincipal`.
    pub fn get_use_workload_principal(&self, env: &JavaEnv) -> (res: Result<
        bool,
        CedarlingBridgeError,
    >)
        ensures
            is_result(res, self.spec_get_use_workload_principal(env@)),
    {
        call_jni_bool_method(env, &self.jobj, &self.get_use_workload_principal_method, &no_args())
    }

    /// What asking the object for `getPrincipalBoolOperator` gives: the object that
    /// comes back, wrapped.
    pub open spec fn spec_get_principal_bool_operator(
        self,
        env: JavaEnvView,
        cache: JniCacheView,
    ) -> Result<
        Option<JavaJsonRule>,
        CedarlingBridgeErrorView,
    > {
        match object_result(env, self.jobj, self.get_principal_bool_operator_method, Seq::empty()) {
            Err(e) => Err(e),
            Ok(obj) => JavaJsonRule::wrapped(cache, obj),
        }
    }

    /// Asks the object for `getPrincipalBoolOperator`.
    pub fn get_principal_bool_operator(&self, env: &JavaEnv, cache: &JniCache) -> (res: Result<
        Option<JavaJsonRule>,
        CedarlingBridgeError,
    >)
        ensures
            is_result(res, self.spec_get_principal_bool_operator(env@, cache@)),
    {
        let obj = call_jni_object_method(
            env,
            &self.jobj,
            &self.get_principal_bool_operator_method,
            &no_args(),
        )?;
        JavaJsonRule::new(cache, obj)
    }

    /// What asking the object for `getDecisionLogUserClaims` gives: the object that
    /// comes back, wrapped.
    pub open spec fn spec_get_decision_log_user_claims(
        self,
        env: JavaEnvView,
        cache: JniCacheView,
    ) -> Result<
        Option<JavaList>,
        CedarlingBridgeErrorView,
    > {
        match object_result(
            env,
            self.jobj,
            self.get_decision_log_user_claims_method,
            Seq::empty(),
        ) {
            Err(e) => Err(e),
            Ok(obj) => JavaList::wrapped(cache, obj),
        }
    }

    /// Asks the object for `getDecisionLogUserClaims`.
    pub fn get_decision_log_user_claims(&self, env: &JavaEnv, cache: &JniCache) -> (res: Result<
        Option<JavaList>,
        CedarlingBridgeError,
    >)
        ensures
            is_result(res, self.spec_get_decision_log_user_claims(env@, cache@)),
    {
        let obj = call_jni_object_method(
            env,
            &self.jobj,
            &self.get_decision_log_user_claims_method,
            &no_args(),
        )?;
        JavaList::new(cache, obj)
    }

    /// What asking the object for `getDecisionLogWorkloadClaims` gives: the object that
    /// comes back, wrapped.
    pub open spec fn spec_get_decision_log_workload_claims(
        self,
        env: JavaEnvView,
        cache: JniCacheView,
    ) -> Result<
        Option<JavaList>,
        CedarlingBridgeErrorView,
    > {
        match object_result(
            env,
            self.jobj,
            self.get_decision_log_workload_claims_method,
            Seq::empty(),
        ) {
            Err(e) => Err(e),
            Ok(obj) => JavaList::wrapped(cache, obj),
        }
    }

    /// Asks the object for `getDecisionLogWorkloadClaims`.
    pub fn get_decision_log_workload_claims(&self, env: &JavaEnv, cache: &JniCache) -> (res: Result<
        Option<JavaList>,
        CedarlingBridgeError,
    >)
        ensures
            is_result(res, self.spec_get_decision_log_workload_claims(env@, cache@)),
    {
        let obj = call_jni_object_method(
            env,
            &self.jobj,
            &self.get_decision_log_workload_claims_method,
            &no_args(),
        )?;
        JavaList::new(cache, obj)
    }

    /// What asking the object for `getDecisionLogDefaultJwtId` gives.
    pub open spec fn spec_get_decision_log_default_jwt_id(self, env: JavaEnvView) -> Result<
        Option<Seq<char>>,
        CedarlingBridgeErrorView,
    > {
        string_result(env, self.jobj, self.get_decision_log_default_jwt_id_method, Seq::empty())
    }

    /// Asks the object for `getDecisionLogDefaultJwtId`.
    pub fn get_decision_log_default_jwt_id(&self, env: &JavaEnv) -> (res: Result<
        Option<String>,
        CedarlingBridgeError,
    >)
        ensures
            is_result_of(res, self.spec_get_decision_log_default_jwt_id(env@)),
    {
        call_jni_string_method(
            env,
            &self.jobj,
            &self.get_decision_log_default_jwt_id_method,
            &no_args(),
        )
    }

    /// What asking the object for `getIdTokenTrustMode` gives: the name of the
    /// enum value that comes back.
    pub open spec fn spec_get_id_token_trust_mode(
        self,
        env: JavaEnvView,
        cache: JniCacheView,
    ) -> Result<
        Option<Seq<char>>,
        CedarlingBridgeErrorView,
    > {
        match object_result(env, self.jobj, self.get_id_token_trust_mode_method, Seq::empty()) {
            Err(e) => Err(e),
            Ok(obj) => JavaIdTokenTrustMode::name_of_object(env, cache, obj),
        }
    }

    /// Asks the object for `getIdTokenTrustMode`.
    pub fn get_id_token_trust_mode(&self, env: &JavaEnv, cache: &JniCache) -> (res: Result<
        Option<JavaIdTokenTrustMode>,
        CedarlingBridgeError,
    >)
        ensures
            is_result_of(res, self.spec_get_id_token_trust_mode(env@, cache@)),
    {
        let obj = call_jni_object_method(
            env,
            &self.jobj,
            &self.get_id_token_trust_mode_method,
            &no_args(),
        )?;
        JavaIdTokenTrustMode::from_jni_object(env, cache, obj)
    }


    /// The claim that an element of a list of claims stands for: the text
    /// of the element, which must not be null.
    pub open spec fn claim_of(
        env: JavaEnvView,
        field: Seq<char>,
        index: i32,
        claim_obj: JObject,
    ) -> Result<
        Seq<char>,
        CedarlingBridgeErrorView,
    > {
        match native_string(env, claim_obj) {
            Err(e) => Err(e),
            Ok(None) => Err(null_element(NULL_CLAIM@, field, index)),
            Ok(Some(claim)) => Ok(claim),
        }
    }

    /// The conversion of one element of a list of claims.
    pub open spec fn claim_converter(env: JavaEnvView, field: Seq<char>) -> spec_fn(
        i32,
        JObject,
    ) -> Result<Seq<char>, CedarlingBridgeErrorView> {
        |index: i32, claim_obj: JObject| Self::claim_of(env, field, index, claim_obj)
    }

    /// The claims that a list stands for, in the order of the list.
    pub open spec fn claims_of(env: JavaEnvView, list: JavaList, field: Seq<char>) -> Result<
        Seq<Seq<char>>,
        CedarlingBridgeErrorView,
    > {
        list.collect(env, Self::claim_converter(env, field))
    }

    /// Converts a list of claims, element by element, in the order of the list.
    #[verifier::loop_isolation(false)]
    pub fn claims(env: &JavaEnv, claims_obj: &JavaList, field: &'static str) -> (res: Result<
        Vec<String>,
        CedarlingBridgeError,
    >)
        ensures
            is_result_of(res, Self::claims_of(env@, *claims_obj, field@)),
    {
        let claims_count = claims_obj.size(env)?;
        let ghost convert = Self::claim_converter(env@, field@);
        let mut ret: Vec<String> = Vec::new();
        let mut i: i32 = 0;
        proof {
            claims_obj.lemma_progress_start(env@, convert, claims_count);
        }
        while i < claims_count
            invariant
                0 <= i,
                claims_obj.is_progress(env@, convert, claims_count, i as int, ret.deep_view()),
            decreases claims_count - i,
        {
            let claim_obj = claims_obj.get(env, i)?;
            let claim = match java_string_to_native_string(env, &claim_obj)? {
                Some(claim) => claim,
                None => {
                    return Err(null_element_error(NULL_CLAIM, field, i));
                },
            };
            proof {
                claims_obj.lemma_progress_step(
                    env@,
                    convert,
                    claims_count,
                    i as int,
                    ret.deep_view(),
                    claim_obj,
                    claim@,
                );
            }
            let ghost before = ret.deep_view();
            ret.push(claim);
            assert(ret.deep_view() =~= before.push(claim@));
            i += 1;
        }
        proof {
            claims_obj.lemma_progress_end(env@, convert, claims_count, i as int, ret.deep_view());
        }
        Ok(ret)
    }

    /// The native authorization section that the object stands for. The
    /// rule, the two lists of claims, the default token identifier and the
    /// trust mode are required and are read in this order; the two flags are
    /// read last. The first failure is the result.
    pub open spec fn converted(self, env: JavaEnvView, cache: JniCacheView) -> Result<
        AuthorizationConfigView,
        CedarlingBridgeErrorView,
    > {
        match required_of(
            self.spec_get_principal_bool_operator(env, cache),
            JAVA_CLS_NAME@,
            "principalBoolOperator"@,
        ) {
            Err(e) => Err(e),
            Ok(rule) => match rule.converted(env) {
                Err(e) => Err(e),
                Ok(principal_bool_operator) => match required_of(
                    self.spec_get_decision_log_user_claims(env, cache),
                    JAVA_CLS_NAME@,
                    USER_CLAIMS_FIELD@,
                ) {
                    Err(e) => Err(e),
                    Ok(user_list) => match Self::claims_of(env, user_list, USER_CLAIMS_FIELD@) {
                        Err(e) => Err(e),
                        Ok(decision_log_user_claims) => self.converted_rest(
                            env,
                            cache,
                            principal_bool_operator,
                            decision_log_user_claims,
                        ),
                    },
                },
            },
        }
    }

    /// The second half of [`Self::converted`]: what follows the claims of
    /// the user.
    pub open spec fn converted_rest(
        self,
        env: JavaEnvView,
        cache: JniCacheView,
        principal_bool_operator: JsonRule,
        decision_log_user_claims: Seq<Seq<char>>,
    ) -> Result<AuthorizationConfigView, CedarlingBridgeErrorView> {
        match required_of(
            self.spec_get_decision_log_workload_claims(env, cache),
            JAVA_CLS_NAME@,
            WORKLOAD_CLAIMS_FIELD@,
        ) {
            Err(e) => Err(e),
            Ok(workload_list) => match Self::claims_of(env, workload_list, WORKLOAD_CLAIMS_FIELD@) {
                Err(e) => Err(e),
                Ok(decision_log_workload_claims) => match required_of(
                    self.spec_get_decision_log_default_jwt_id(env),
                    JAVA_CLS_NAME@,
                    "decisionLogDefaultJwtId"@,
                ) {
                    Err(e) => Err(e),
                    Ok(decision_log_default_jwt_id) => match required_of(
                        self.spec_get_id_token_trust_mode(env, cache),
                        JAVA_CLS_NAME@,
                        "idTokenTrustMode"@,
                    ) {
                        Err(e) => Err(e),
                        Ok(mode_name) => match JavaIdTokenTrustMode::decoded(mode_name) {
                            Err(e) => Err(e),
                            Ok(id_token_trust_mode) => match self.spec_get_use_user_principal(env) {
                                Err(e) => Err(e),
                                Ok(
                                    use_user_principal,
                                ) => match self.spec_get_use_workload_principal(
                                    env,
                                ) {
                                    Err(e) => Err(e),
                                    Ok(use_workload_principal) => Ok(
                                        AuthorizationConfigView {
                                            use_user_principal,
                                            use_workload_principal,
                                            principal_bool_operator,
                                            decision_log_user_claims,
                                            decision_log_workload_claims,
                                            decision_log_default_jwt_id,
                                            id_token_trust_mode,
                                        },
                                    ),
                                },
                            },
                        },
                    },
                },
            },
        }
    }

    /// Converts the authorization section.
    pub fn as_cedarling_authz_config(&self, env: &JavaEnv, cache: &JniCache) -> (res: Result<
        AuthorizationConfig,
        CedarlingBridgeError,
    >)
        ensures
            is_result_of(res, self.converted(env@, cache@)),
    {
        let principal_bool_op: JsonRule = {
            let json_rule_obj = require_some(
                self.get_principal_bool_operator(env, cache)?,
                JAVA_CLS_NAME,
                "principalBoolOperator",
            )?;
            json_rule_obj.as_cedarling_json_rule(env)?
        };
        let dl_user_claims: Vec<String> = {
            let claims_obj = require_some(
                self.get_decision_log_user_claims(env, cache)?,
                JAVA_CLS_NAME,
                USER_CLAIMS_FIELD,
            )?;
            Self::claims(env, &claims_obj, USER_CLAIMS_FIELD)?
        };
        let dl_workload_claims: Vec<String> = {
            let claims_obj = require_some(
                self.get_decision_log_workload_claims(env, cache)?,
                JAVA_CLS_NAME,
                WORKLOAD_CLAIMS_FIELD,
            )?;
            Self::claims(env, &claims_obj, WORKLOAD_CLAIMS_FIELD)?
        };
        let dl_default_jwt_id: String = require_some(
            self.get_decision_log_default_jwt_id(env)?,
            JAVA_CLS_NAME,
            "decisionLogDefaultJwtId",
        )?;
        let id_token_trust_mode: IdTokenTrustMode = {
            let trust_mode_obj = require_some(
                self.get_id_token_trust_mode(env, cache)?,
                JAVA_CLS_NAME,
                "idTokenTrustMode",
            )?;
            trust_mode_obj.as_enum()?
        };
        Ok(
            AuthorizationConfig {
                use_user_principal: self.get_use_user_principal(env)?,
                use_workload_principal: self.get_use_workload_principal(env)?,
                principal_bool_operator: principal_bool_op,
                decision_log_user_claims: dl_user_claims,
                decision_log_workload_claims: dl_workload_claims,
                decision_log_default_jwt_id: dl_default_jwt_id,
                id_token_trust_mode: id_token_trust_mode,
            },
        )
    }

    /// Whether the cache holds the class of this converter and every one of
    /// its handles.
    pub open spec fn is_registered(cache: JniCacheView) -> bool {
        &&& cache.classes.contains_key(JAVA_CLS_NAME@)
        &&& cache.methods.contains_key(
            (JAVA_CLS_NAME@, JAVA_METHOD_NAME_GET_USE_USER_PRINCIPAL@, JAVA_METHOD_SIG_GET_USE_USER_PRINCIPAL@),
        )
        &&& cache.methods.contains_key(
            (JAVA_CLS_NAME@, JAVA_METHOD_NAME_GET_USE_WORKLOAD_PRINCIPAL@, JAVA_METHOD_SIG_GET_USE_WORKLOAD_PRINCIPAL@),
        )
        &&& cache.methods.contains_key(
            (JAVA_CLS_NAME@, JAVA_METHOD_NAME_GET_PRINCIPAL_BOOL_OPERATOR@, JAVA_METHOD_SIG_GET_PRINCIPAL_BOOL_OPERATOR@),
        )
        &&& cache.methods.contains_key(
            (JAVA_CLS_NAME@, JAVA_METHOD_NAME_GET_DECISION_LOG_USER_CLAIMS@, JAVA_METHOD_SIG_GET_DECISION_LOG_USER_CLAIMS@),
        )
        &&& cache.methods.contains_key(
            (JAVA_CLS_NAME@, JAVA_METHOD_NAME_GET_DECISION_LOG_WORKLOAD_CLAIMS@, JAVA_METHOD_SIG_GET_DECISION_LOG_WORKLOAD_CLAIMS@),
        )
        &&& cache.methods.contains_key(
            (JAVA_CLS_NAME@, JAVA_METHOD_NAME_GET_DECISION_LOG_DEFAULT_JWT_ID@, JAVA_METHOD_SIG_GET_DECISION_LOG_DEFAULT_JWT_ID@),
        )
        &&& cache.methods.contains_key(
            (JAVA_CLS_NAME@, JAVA_METHOD_NAME_GET_ID_TOKEN_TRUST_MODE@, JAVA_METHOD_SIG_GET_ID_TOKEN_TRUST_MODE@),
        )
    }

    /// A run that has gone through the registration of this converter
    /// without a failure holds every one of its handles, and has dropped
    /// nothing that it held before.
    pub proof fn lemma_registration_holds(reg: Registration, env: JavaEnvView)
        ensures
            Self::registration(reg, env).continues(reg),
            Self::registration(reg, env).failure is None ==> Self::is_registered(
                Self::registration(reg, env).cache,
            ),
    {
        let r0 = reg.class(env, JAVA_CLS_NAME@);
        reg.lemma_class_is_held(env, JAVA_CLS_NAME@);
        let r1 = r0.method(
            env,
            JAVA_CLS_NAME@,
            JAVA_METHOD_NAME_GET_USE_USER_PRINCIPAL@,
            JAVA_METHOD_SIG_GET_USE_USER_PRINCIPAL@,
        );
        r0.lemma_method_is_held(
            env,
            JAVA_CLS_NAME@,
            JAVA_METHOD_NAME_GET_USE_USER_PRINCIPAL@,
            JAVA_METHOD_SIG_GET_USE_USER_PRINCIPAL@,
        );
        let r2 = r1.method(
            env,
            JAVA_CLS_NAME@,
            JAVA_METHOD_NAME_GET_USE_WORKLOAD_PRINCIPAL@,
            JAVA_METHOD_SIG_GET_USE_WORKLOAD_PRINCIPAL@,
        );
        r1.lemma_method_is_held(
            env,
            JAVA_CLS_NAME@,
            JAVA_METHOD_NAME_GET_USE_WORKLOAD_PRINCIPAL@,
            JAVA_METHOD_SIG_GET_USE_WORKLOAD_PRINCIPAL@,
        );
        let r3 = r2.method(
            env,
            JAVA_CLS_NAME@,
            JAVA_METHOD_NAME_GET_PRINCIPAL_BOOL_OPERATOR@,
            JAVA_METHOD_SIG_GET_PRINCIPAL_BOOL_OPERATOR@,
        );
        r2.lemma_method_is_held(
            env,
            JAVA_CLS_NAME@,
            JAVA_METHOD_NAME_GET_PRINCIPAL_BOOL_OPERATOR@,
            JAVA_METHOD_SIG_GET_PRINCIPAL_BOOL_OPERATOR@,
        );
        let r4 = r3.method(
            env,
            JAVA_CLS_NAME@,
            JAVA_METHOD_NAME_GET_DECISION_LOG_USER_CLAIMS@,
            JAVA_METHOD_SIG_GET_DECISION_LOG_USER_CLAIMS@,
        );
        r3.lemma_method_is_held(
            env,
            JAVA_CLS_NAME@,
            JAVA_METHOD_NAME_GET_DECISION_LOG_USER_CLAIMS@,
            JAVA_METHOD_SIG_GET_DECISION_LOG_USER_CLAIMS@,
        );
        let r5 = r4.method(
            env,
            JAVA_CLS_NAME@,
            JAVA_METHOD_NAME_GET_DECISION_LOG_WORKLOAD_CLAIMS@,
            JAVA_METHOD_SIG_GET_DECISION_LOG_WORKLOAD_CLAIMS@,
        );
        r4.lemma_method_is_held(
            env,
            JAVA_CLS_NAME@,
            JAVA_METHOD_NAME_GET_DECISION_LOG_WORKLOAD_CLAIMS@,
            JAVA_METHOD_SIG_GET_DECISION_LOG_WORKLOAD_CLAIMS@,
        );
        let r6 = r5.method(
            env,
            JAVA_CLS_NAME@,
            JAVA_METHOD_NAME_GET_DECISION_LOG_DEFAULT_JWT_ID@,
            JAVA_METHOD_SIG_GET_DECISION_LOG_DEFAULT_JWT_ID@,
        );
        r5.lemma_method_is_held(
            env,
            JAVA_CLS_NAME@,
            JAVA_METHOD_NAME_GET_DECISION_LOG_DEFAULT_JWT_ID@,
            JAVA_METHOD_SIG_GET_DECISION_LOG_DEFAULT_JWT_ID@,
        );
        let r7 = r6.method(
            env,
            JAVA_CLS_NAME@,
            JAVA_METHOD_NAME_GET_ID_TOKEN_TRUST_MODE@,
            JAVA_METHOD_SIG_GET_ID_TOKEN_TRUST_MODE@,
        );
        r6.lemma_method_is_held(
            env,
            JAVA_CLS_NAME@,
            JAVA_METHOD_NAME_GET_ID_TOKEN_TRUST_MODE@,
            JAVA_METHOD_SIG_GET_ID_TOKEN_TRUST_MODE@,
        );
    }

    /// What the cache holds for this converter stays when more is registered.
    pub proof fn lemma_registered_stays(earlier: JniCacheView, later: JniCacheView)
        requires
            Self::is_registered(earlier),
            later.extends(earlier),
        ensures
            Self::is_registered(later),
    {
    }

    /// With every handle in the cache, wrapping an object finds them all:
    /// it cannot miss.
    pub proof fn lemma_registered_wraps(cache: JniCacheView, jobj: JObject)
        requires
            Self::is_registered(cache),
        ensures
            Self::wrapped(cache, jobj) is Ok,
            !jobj.is_null() ==> Self::wrapped(cache, jobj)->Ok_0 is Some,
    {
    }

    /// With every handle of the bridge in the cache, the conversion fails
    /// only on what the foreign object holds or on a foreign call that
    /// fails, and never on a miss in the cache.
    pub proof fn lemma_converts_without_miss(self, env: JavaEnvView, cache: JniCacheView)
        requires
            crate::cedarling::is_registered(cache),
        ensures
            !misses(self.converted(env, cache)),
    {
        lemma_reads_never_miss(env, self.jobj, self.get_use_user_principal_method, Seq::empty());
        lemma_reads_never_miss(
            env,
            self.jobj,
            self.get_use_workload_principal_method,
            Seq::empty(),
        );
        lemma_reads_never_miss(
            env,
            self.jobj,
            self.get_principal_bool_operator_method,
            Seq::empty(),
        );
        if let Ok(
            value,
        ) = object_result(env, self.jobj, self.get_principal_bool_operator_method, Seq::empty()) {
            JavaJsonRule::lemma_registered_wraps(cache, value);
        }
        lemma_reads_never_miss(
            env,
            self.jobj,
            self.get_decision_log_user_claims_method,
            Seq::empty(),
        );
        if let Ok(
            value,
        ) = object_result(env, self.jobj, self.get_decision_log_user_claims_method, Seq::empty()) {
            JavaList::lemma_registered_wraps(cache, value);
        }
        lemma_reads_never_miss(
            env,
            self.jobj,
            self.get_decision_log_workload_claims_method,
            Seq::empty(),
        );
        if let Ok(
            value,
        ) = object_result(env, self.jobj, self.get_decision_log_workload_claims_method, Seq::empty()) {
            JavaList::lemma_registered_wraps(cache, value);
        }
        lemma_reads_never_miss(
            env,
            self.jobj,
            self.get_decision_log_default_jwt_id_method,
            Seq::empty(),
        );
        lemma_reads_never_miss(env, self.jobj, self.get_id_token_trust_mode_method, Seq::empty());
        if let Ok(
            value,
        ) = object_result(env, self.jobj, self.get_id_token_trust_mode_method, Seq::empty()) {
            lemma_registered_never_misses(
                env,
                cache,
                value,
                self.get_id_token_trust_mode_method,
                Seq::empty(),
            );
        }
        if let Ok(Some(part)) = self.spec_get_principal_bool_operator(env, cache) {
            part.lemma_converts_without_miss(env);
        }
        if let Ok(Some(list)) = self.spec_get_decision_log_user_claims(env, cache) {
            let convert = Self::claim_converter(env, USER_CLAIMS_FIELD@);
            assert forall|index: i32, element: JObject| !misses(
                #[trigger] convert(index, element),
            ) by {
                lemma_reads_never_miss(
                    env,
                    element,
                    self.get_use_user_principal_method,
                    Seq::empty(),
                );
            }
            list.lemma_collect_never_misses(env, convert);
        }
        if let Ok(Some(list)) = self.spec_get_decision_log_workload_claims(env, cache) {
            let convert = Self::claim_converter(env, WORKLOAD_CLAIMS_FIELD@);
            assert forall|index: i32, element: JObject| !misses(
                #[trigger] convert(index, element),
            ) by {
                lemma_reads_never_miss(
                    env,
                    element,
                    self.get_use_user_principal_method,
                    Seq::empty(),
                );
            }
            list.lemma_collect_never_misses(env, convert);
        }
    }
}

} // verus!
