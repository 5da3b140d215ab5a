use cedarling_bridge::authz::authorize_request::JavaAuthorizeRequest;
use cedarling_bridge::authz::authorize_request_unsigned::JavaAuthorizeRequestUnsigned;
use cedarling_bridge::authz::authorize_result::JavaAuthorizeResult;
use cedarling_bridge::authz::cedar_entity_mapping::JavaCedarEntityMapping;
use cedarling_bridge::authz::context::JavaContext;
use cedarling_bridge::authz::entity_data::JavaEntityData;
use cedarling_bridge::cedar_policy::authz_decision::JavaAuthzDecision;
use cedarling_bridge::cedar_policy::authz_error::JavaAuthzError;
use cedarling_bridge::cedar_policy::diagnostics::JavaDiagnostics;
use cedarling_bridge::cedar_policy::policy_id::JavaPolicyId;
use cedarling_bridge::cedar_policy::policy_response::JavaPolicyResponse;
use cedarling_bridge::cedarling::{
    authorization_input, authorization_output, authorization_return, cleanup_return,
    creation_input, creation_return, init_cache, unsigned_authorization_input,
    unsigned_authorization_return,
};
use cedarling_bridge::config::authorization_config::JavaAuthorizationConfig;
use cedarling_bridge::config::bootstrap_config::JavaBootstrapConfig;
use cedarling_bridge::config::entity_builder_config::JavaEntityBuilderConfig;
use cedarling_bridge::config::entity_names::JavaEntityNames;
use cedarling_bridge::config::id_token_trust_mode::JavaIdTokenTrustMode;
use cedarling_bridge::config::json_rule::JavaJsonRule;
use cedarling_bridge::config::jwt_algorithm::{keep_distinct, JavaJwtAlgorithm};
use cedarling_bridge::config::jwt_config::JavaJwtConfig;
use cedarling_bridge::config::lock_service_config::JavaLockServiceConfig;
use cedarling_bridge::config::log_config::JavaLogConfig;
use cedarling_bridge::config::log_level::JavaLogLevel;
use cedarling_bridge::config::log_type::JavaLogType;
use cedarling_bridge::config::memory_log_config::JavaMemoryLogConfig;
use cedarling_bridge::config::policy_store_config::JavaPolicyStoreConfig;
use cedarling_bridge::config::policy_store_source::JavaPolicyStoreSource;
use cedarling_bridge::config::unsigned_role_id_src::JavaUnsignedRoleIdSrc;
use cedarling_bridge::engine::config::{
    IdTokenTrustMode, LogLevel, LogTypeConfig, MemoryLogConfig, PolicyStoreSource,
    UnsignedRoleIdSrc,
};
use cedarling_bridge::engine::request::TokenMap;
use cedarling_bridge::engine::response::{
    AuthorizeResult, Decision, Diagnostics, PrincipalResponse, Response,
};
use cedarling_bridge::error::{CedarlingBridgeError, JniError};
use cedarling_bridge::jni::duration::JavaDuration;
use cedarling_bridge::jni::env::{JMethodID, JObject, JValue, JavaEnv};
use cedarling_bridge::jni::file::JavaFile;
use cedarling_bridge::jni::jni_cache::JniCache;
use cedarling_bridge::jni::list::JavaList;
use cedarling_bridge::jni::signature::{
    is_accessor, names_accessor, return_kind, takes_nothing, takes_one_string, ReturnKind,
};
use cedarling_bridge::jni::uri::JavaURI;
use cedarling_bridge::jni::util::{
    call_jni_bool_method, call_jni_int_method, call_jni_long_method, call_jni_method_to_string,
    call_jni_object_method, call_jni_opt_long_method, call_jni_string_method,
    java_string_to_native_string, no_args, null_element_error, one_arg, require_some,
    throw_cedarling_error, two_args,
};
use cedarling_bridge::text::{decimal_text, signed_decimal_text, str_eq};
use std::time::Duration;

const STRING: &str = "()Ljava/lang/String;";
const LIST: &str = "()Ljava/util/List;";
const BOOL: &str = "()Z";

const OBJECT_CLS: &str = "java/lang/Object";
const LONG_CLS: &str = "java/lang/Long";
const LIST_CLS: &str = "java/util/List";
const URI_CLS: &str = "java/net/URI";
const DURATION_CLS: &str = "java/time/Duration";
const FILE_CLS: &str = "java/io/File";

const REQUEST_CLS: &str = "io/jans/cedarling/bridge/authz/AuthorizeRequest";
const UNSIGNED_CLS: &str = "io/jans/cedarling/bridge/authz/AuthorizeRequestUnsigned";
const RESULT_CLS: &str = "io/jans/cedarling/bridge/authz/AuthorizeResult";
const MAPPING_CLS: &str = "io/jans/cedarling/bridge/authz/CedarEntityMapping";
const CONTEXT_CLS: &str = "io/jans/cedarling/bridge/authz/Context";
const ENTITY_CLS: &str = "io/jans/cedarling/bridge/authz/EntityData";
const AUTHZ_ERROR_CLS: &str = "io/jans/cedarling/bridge/authz/CedarlingAuthorizationError";

const DECISION_CLS: &str = "io/jans/cedarling/bridge/cedar/policy/AuthzDecision";
const DECISION_SIG: &str = "Lio/jans/cedarling/bridge/cedar/policy/AuthzDecision;";
const ERROR_CLS: &str = "io/jans/cedarling/bridge/cedar/policy/AuthzError";
const DIAGNOSTICS_CLS: &str = "io/jans/cedarling/bridge/cedar/policy/Diagnostics";
const POLICY_ID_CLS: &str = "io/jans/cedarling/bridge/cedar/policy/PolicyId";
const RESPONSE_CLS: &str = "io/jans/cedarling/bridge/cedar/policy/PolicyResponse";
const RESPONSE_SIG: &str = "(Lio/jans/cedarling/bridge/cedar/policy/PolicyResponse;)V";

const AUTHZ_CONFIG_CLS: &str = "io/jans/cedarling/bridge/config/AuthorizationConfiguration";
const BOOTSTRAP_CLS: &str = "io/jans/cedarling/bridge/config/BootstrapConfiguration";
const BUILDER_CLS: &str = "io/jans/cedarling/bridge/config/EntityBuilderConfiguration";
const NAMES_CLS: &str = "io/jans/cedarling/bridge/config/EntityNames";
const TRUST_MODE_CLS: &str = "io/jans/cedarling/bridge/config/IdTokenTrustMode";
const RULE_CLS: &str = "io/jans/cedarling/bridge/config/JsonRule";
const JWT_ALG_CLS: &str = "io/jans/cedarling/bridge/config/JwtAlgorithm";
const JWT_CLS: &str = "io/jans/cedarling/bridge/config/JwtConfiguration";
const LOCK_CLS: &str = "io/jans/cedarling/bridge/config/LockServiceConfiguration";
const LOG_CLS: &str = "io/jans/cedarling/bridge/config/LogConfiguration";
const LOG_LEVEL_CLS: &str = "io/jans/cedarling/bridge/config/LogLevel";
const LOG_TYPE_CLS: &str = "io/jans/cedarling/bridge/config/LogType";
const MEMORY_CLS: &str = "io/jans/cedarling/bridge/config/MemoryLogConfiguration";
const STORE_CLS: &str = "io/jans/cedarling/bridge/config/PolicyStoreConfiguration";
const STORE_SOURCE_CLS: &str = "io/jans/cedarling/bridge/config/PolicyStoreSource";
const ROLE_SRC_CLS: &str = "io/jans/cedarling/bridge/config/UnsignedRoleIdSrc";
const GENERAL_ERROR_CLS: &str = "io/jans/cedarling/bridge/config/CedarlingError";
const CONFIG_ERROR_CLS: &str = "io/jans/cedarling/bridge/config/CedarlingConfigurationError";

/// Every class of the foreign side with its methods.
fn schema() -> Vec<(&'static str, Vec<(&'static str, &'static str)>)> {
    vec![
        (OBJECT_CLS, vec![("toString", STRING)]),
        (LONG_CLS, vec![("longValue", "()J")]),
        (LIST_CLS, vec![("size", "()I"), ("get", "(I)Ljava/lang/Object;")]),
        (URI_CLS, vec![]),
        (DURATION_CLS, vec![("toNanos", "()J")]),
        (FILE_CLS, vec![("getAbsolutePath", STRING)]),
        (
            REQUEST_CLS,
            vec![
                ("getToken", "(Ljava/lang/String;)Ljava/lang/String;"),
                ("getTokenNames", LIST),
                ("getAction", STRING),
                ("getResource", "()Lio/jans/cedarling/bridge/authz/EntityData;"),
                ("getContext", "()Lio/jans/cedarling/bridge/authz/Context;"),
            ],
        ),
        (
            UNSIGNED_CLS,
            vec![
                ("getPrincipals", LIST),
                ("getAction", STRING),
                ("getResource", "()Lio/jans/cedarling/bridge/authz/EntityData;"),
                ("getContext", "()Lio/jans/cedarling/bridge/authz/Context;"),
            ],
        ),
        (
            RESULT_CLS,
            vec![
                ("<init>", "()V"),
                ("setWorkload", RESPONSE_SIG),
                ("setPerson", RESPONSE_SIG),
                (
                    "addPrincipal",
                    "(Ljava/lang/String;Lio/jans/cedarling/bridge/cedar/policy/PolicyResponse;)V",
                ),
                ("setDecision", "(Z)V"),
                ("setRequestId", "(Ljava/lang/String;)V"),
            ],
        ),
        (MAPPING_CLS, vec![("getId", STRING), ("getEntityType", STRING)]),
        (CONTEXT_CLS, vec![("getData", STRING)]),
        (
            ENTITY_CLS,
            vec![
                ("getCedarMapping", "()Lio/jans/cedarling/bridge/authz/CedarEntityMapping;"),
                ("getAttributes", STRING),
            ],
        ),
        (AUTHZ_ERROR_CLS, vec![]),
        (DECISION_CLS, vec![]),
        (ERROR_CLS, vec![("<init>", "(Ljava/lang/String;)V")]),
        (
            DIAGNOSTICS_CLS,
            vec![
                ("<init>", "()V"),
                ("addPolicyId", "(Lio/jans/cedarling/bridge/cedar/policy/PolicyId;)V"),
                ("addError", "(Lio/jans/cedarling/bridge/cedar/policy/AuthzError;)V"),
            ],
        ),
        (POLICY_ID_CLS, vec![("<init>", "(Ljava/lang/String;)V")]),
        (
            RESPONSE_CLS,
            vec![(
                "<init>",
                "(Lio/jans/cedarling/bridge/cedar/policy/AuthzDecision;Lio/jans/cedarling/bridge/cedar/policy/Diagnostics;)V",
            )],
        ),
        (
            AUTHZ_CONFIG_CLS,
            vec![
                ("getUseUserPrincipal", BOOL),
                ("getUseWorkloadPrincipal", BOOL),
                ("getPrincipalBoolOperator", "()Lio/jans/cedarling/bridge/config/JsonRule;"),
                ("getDecisionLogUserClaims", LIST),
                ("getDecisionLogWorkloadClaims", LIST),
                ("getDecisionLogDefaultJwtId", STRING),
                ("getIdTokenTrustMode", "()Lio/jans/cedarling/bridge/config/IdTokenTrustMode;"),
            ],
        ),
        (
            BOOTSTRAP_CLS,
            vec![
                ("getApplicationName", STRING),
                ("getLogConfiguration", "()Lio/jans/cedarling/bridge/config/LogConfiguration;"),
                (
                    "getPolicyStoreConfiguration",
                    "()Lio/jans/cedarling/bridge/config/PolicyStoreConfiguration;",
                ),
                ("getJwtConfiguration", "()Lio/jans/cedarling/bridge/config/JwtConfiguration;"),
                (
                    "getAuthzConfiguration",
                    "()Lio/jans/cedarling/bridge/config/AuthorizationConfiguration;",
                ),
                (
                    "getEntityBuilderConfiguration",
                    "()Lio/jans/cedarling/bridge/config/EntityBuilderConfiguration;",
                ),
                (
                    "getLockConfiguration",
                    "()Lio/jans/cedarling/bridge/config/LockServiceConfiguration;",
                ),
            ],
        ),
        (
            BUILDER_CLS,
            vec![
                ("getBuildWorkload", BOOL),
                ("getBuildUser", BOOL),
                ("getEntityNames", "()Lio/jans/cedarling/bridge/config/EntityNames;"),
            ],
        ),
        (
            NAMES_CLS,
            vec![
                ("getUser", STRING),
                ("getWorkload", STRING),
                ("getRole", STRING),
                ("getIss", STRING),
            ],
        ),
        (TRUST_MODE_CLS, vec![]),
        (RULE_CLS, vec![("getValue", STRING)]),
        (JWT_ALG_CLS, vec![]),
        (
            JWT_CLS,
            vec![
                ("getJwks", STRING),
                ("getJwtCheckSignValidation", BOOL),
                ("getJwtCheckStatusValidation", BOOL),
                ("getSupportedSignatureAlgorithms", LIST),
            ],
        ),
        (
            LOCK_CLS,
            vec![
                ("getLogLevel", "()Lio/jans/cedarling/bridge/config/LogLevel;"),
                ("getConfigUri", "()Ljava/net/URI;"),
                ("getDynamicConfig", BOOL),
                ("getSsaJwt", STRING),
                ("getLogInterval", "()Ljava/time/Duration;"),
                ("getHealthInterval", "()Ljava/time/Duration;"),
                ("getTelemetryInterval", "()Ljava/time/Duration;"),
                ("getListenSse", BOOL),
                ("getAcceptInvalidCerts", BOOL),
            ],
        ),
        (
            LOG_CLS,
            vec![
                ("getLogType", "()Lio/jans/cedarling/bridge/config/LogType;"),
                ("getLogLevel", "()Lio/jans/cedarling/bridge/config/LogLevel;"),
                (
                    "getMemoryLogConfiguration",
                    "()Lio/jans/cedarling/bridge/config/MemoryLogConfiguration;",
                ),
            ],
        ),
        (LOG_LEVEL_CLS, vec![]),
        (LOG_TYPE_CLS, vec![]),
        (
            MEMORY_CLS,
            vec![
                ("getLogTtl", "()J"),
                ("getMaxItems", "()Ljava/lang/Long;"),
                ("getMaxItemSize", "()Ljava/lang/Long;"),
            ],
        ),
        (
            STORE_CLS,
            vec![
                ("getSource", "()Lio/jans/cedarling/bridge/config/PolicyStoreSource;"),
                ("getData", STRING),
                ("getDataPath", "()Ljava/io/File;"),
            ],
        ),
        (STORE_SOURCE_CLS, vec![]),
        (ROLE_SRC_CLS, vec![("getValue", STRING)]),
        (GENERAL_ERROR_CLS, vec![]),
        (CONFIG_ERROR_CLS, vec![]),
    ]
}

/// A foreign runtime that knows every class of the bridge, and a cache in
/// which all of them are registered.
struct World {
    env: JavaEnv,
    cache: JniCache,
    allow: JObject,
    deny: JObject,
}

impl World {
    fn new() -> World {
        let mut env = JavaEnv::new();
        for (class, members) in schema() {
            let cls = env.define_class(class);
            for (name, sig) in members {
                env.define_method(&cls, name, sig);
            }
        }
        let decision_cls = env.define_class(DECISION_CLS);
        let allow = env.new_instance(&decision_cls);
        let deny = env.new_instance(&decision_cls);
        env.define_static_field(&decision_cls, "ALLOW", DECISION_SIG, &allow);
        env.define_static_field(&decision_cls, "DENY", DECISION_SIG, &deny);
        let mut cache = JniCache::new();
        let registered = init_cache(&env, &mut cache);
        assert!(registered.is_ok(), "registration failed: {:?}", registered);
        let mut world = World { env, cache, allow, deny };
        world.name_object(&allow, "ALLOW");
        world.name_object(&deny, "DENY");
        world
    }

    fn method(&self, class: &str, name: &str, sig: &str) -> JMethodID {
        self.env.get_method_id(class, name, sig).unwrap()
    }

    fn sig_of(&self, class: &str, name: &str) -> &'static str {
        for (cls, members) in schema() {
            if cls == class {
                for (member, sig) in members {
                    if member == name {
                        return sig;
                    }
                }
            }
        }
        panic!("no method {} in {}", name, class);
    }

    fn text(&mut self, text: &str) -> JValue {
        JValue::Object(self.env.new_string(text))
    }

    fn null() -> JValue {
        JValue::Object(JObject::null())
    }

    /// An instance of a class that answers the given methods.
    fn object(&mut self, class: &str, answers: Vec<(&str, JValue)>) -> JObject {
        let cls = self.env.find_class(class).unwrap();
        let obj = self.env.new_instance(&cls);
        for (name, value) in answers {
            let sig = self.sig_of(class, name);
            let method = self.method(class, name, sig);
            self.env.set_answer(&obj, &method, &no_args(), value);
        }
        obj
    }

    fn name_object(&mut self, obj: &JObject, name: &str) {
        let to_string = self.method(OBJECT_CLS, "toString", STRING);
        let text = self.text(name);
        self.env.set_answer(obj, &to_string, &no_args(), text);
    }

    /// An enum value of a class, with the given name as its string form.
    fn named(&mut self, class: &str, name: &str) -> JValue {
        let obj = self.object(class, vec![]);
        self.name_object(&obj, name);
        JValue::Object(obj)
    }

    fn list(&mut self, elements: Vec<JValue>) -> JValue {
        let count: i32 = elements.len() as i32;
        let obj = self.object(LIST_CLS, vec![("size", JValue::Int(count))]);
        let get = self.method(LIST_CLS, "get", "(I)Ljava/lang/Object;");
        let mut index: i32 = 0;
        for element in elements {
            self.env.set_answer(&obj, &get, &one_arg(JValue::Int(index)), element);
            index += 1;
        }
        JValue::Object(obj)
    }

    fn texts(&mut self, texts: Vec<&str>) -> JValue {
        let mut elements: Vec<JValue> = Vec::new();
        for text in texts {
            let element = self.text(text);
            elements.push(element);
        }
        self.list(elements)
    }

    fn boxed(&mut self, value: i64) -> JValue {
        JValue::Object(self.object(LONG_CLS, vec![("longValue", JValue::Long(value))]))
    }

    fn duration(&mut self, nanos: i64) -> JValue {
        JValue::Object(self.object(DURATION_CLS, vec![("toNanos", JValue::Long(nanos))]))
    }

    fn entity(&mut self, kind: &str, id: &str, attributes: &str) -> JValue {
        let id = self.text(id);
        let kind = self.text(kind);
        let mapping = self.object(MAPPING_CLS, vec![("getId", id), ("getEntityType", kind)]);
        let attributes = self.text(attributes);
        JValue::Object(self.object(
            ENTITY_CLS,
            vec![("getCedarMapping", JValue::Object(mapping)), ("getAttributes", attributes)],
        ))
    }

    fn context(&mut self, data: &str) -> JValue {
        let data = self.text(data);
        JValue::Object(self.object(CONTEXT_CLS, vec![("getData", data)]))
    }

    fn signed_request(&mut self, tokens: Vec<(&str, &str)>, action: &str) -> JObject {
        let mut names: Vec<JValue> = Vec::new();
        let mut values: Vec<(JValue, JValue)> = Vec::new();
        for (name, value) in tokens {
            let name_obj = self.text(name);
            let value_obj = self.text(value);
            names.push(name_obj);
            values.push((name_obj, value_obj));
        }
        let names = self.list(names);
        let action = self.text(action);
        let resource = self.entity("App", "1", "{}");
        let context = self.context("{}");
        let request = self.object(
            REQUEST_CLS,
            vec![
                ("getTokenNames", names),
                ("getAction", action),
                ("getResource", resource),
                ("getContext", context),
            ],
        );
        let get_token = self.method(REQUEST_CLS, "getToken", "(Ljava/lang/String;)Ljava/lang/String;");
        for (name_obj, value_obj) in values {
            self.env.set_answer(&request, &get_token, &one_arg(name_obj), value_obj);
        }
        request
    }

    fn entity_names(&mut self) -> JValue {
        let user = self.text("Jans::User");
        let workload = self.text("Jans::Workload");
        let role = self.text("Jans::Role");
        let iss = self.text("Jans::TrustedIssuer");
        JValue::Object(self.object(
            NAMES_CLS,
            vec![("getUser", user), ("getWorkload", workload), ("getRole", role), ("getIss", iss)],
        ))
    }

    fn authz_config(&mut self, trust_mode: JValue) -> JObject {
        let rule_text = self.text("{\"===\":[{\"var\":\"Jans::User\"},\"ALLOW\"]}");
        let rule = self.object(RULE_CLS, vec![("getValue", rule_text)]);
        let user_claims = self.texts(vec!["sub", "email"]);
        let workload_claims = self.texts(vec!["client_id"]);
        let jwt_id = self.text("jti");
        self.object(
            AUTHZ_CONFIG_CLS,
            vec![
                ("getUseUserPrincipal", JValue::Bool(true)),
                ("getUseWorkloadPrincipal", JValue::Bool(false)),
                ("getPrincipalBoolOperator", JValue::Object(rule)),
                ("getDecisionLogUserClaims", user_claims),
                ("getDecisionLogWorkloadClaims", workload_claims),
                ("getDecisionLogDefaultJwtId", jwt_id),
                ("getIdTokenTrustMode", trust_mode),
            ],
        )
    }

    fn log_config(&mut self, log_type: &str, memory: JValue) -> JObject {
        let log_type = self.named(LOG_TYPE_CLS, log_type);
        let log_level = self.named(LOG_LEVEL_CLS, "INFO");
        self.object(
            LOG_CLS,
            vec![
                ("getLogType", log_type),
                ("getLogLevel", log_level),
                ("getMemoryLogConfiguration", memory),
            ],
        )
    }

    fn bootstrap(&mut self, trust_mode: JValue, lock: JValue) -> JObject {
        let name = self.text("app");
        let log = self.log_config("STDOUT", World::null());
        let source = self.named(STORE_SOURCE_CLS, "JSON");
        let data = self.text("{\"store\":true}");
        let store = self.object(
            STORE_CLS,
            vec![("getSource", source), ("getData", data), ("getDataPath", World::null())],
        );
        let hs256 = self.named(JWT_ALG_CLS, "HS256");
        let algorithms = self.list(vec![hs256]);
        let jwt = self.object(
            JWT_CLS,
            vec![
                ("getJwks", World::null()),
                ("getJwtCheckSignValidation", JValue::Bool(true)),
                ("getJwtCheckStatusValidation", JValue::Bool(false)),
                ("getSupportedSignatureAlgorithms", algorithms),
            ],
        );
        let authz = self.authz_config(trust_mode);
        let names = self.entity_names();
        let builder = self.object(
            BUILDER_CLS,
            vec![
                ("getBuildWorkload", JValue::Bool(true)),
                ("getBuildUser", JValue::Bool(true)),
                ("getEntityNames", names),
            ],
        );
        self.object(
            BOOTSTRAP_CLS,
            vec![
                ("getApplicationName", name),
                ("getLogConfiguration", JValue::Object(log)),
                ("getPolicyStoreConfiguration", JValue::Object(store)),
                ("getJwtConfiguration", JValue::Object(jwt)),
                ("getAuthzConfiguration", JValue::Object(authz)),
                ("getEntityBuilderConfiguration", JValue::Object(builder)),
                ("getLockConfiguration", lock),
            ],
        )
    }

    fn lock_config(&mut self, uri: &str, token: JValue, interval: JValue) -> JObject {
        let level = self.named(LOG_LEVEL_CLS, "WARN");
        let uri = self.named(URI_CLS, uri);
        self.object(
            LOCK_CLS,
            vec![
                ("getLogLevel", level),
                ("getConfigUri", uri),
                ("getDynamicConfig", JValue::Bool(true)),
                ("getSsaJwt", token),
                ("getLogInterval", interval),
                ("getHealthInterval", World::null()),
                ("getTelemetryInterval", World::null()),
                ("getListenSse", JValue::Bool(false)),
                ("getAcceptInvalidCerts", JValue::Bool(true)),
            ],
        )
    }

    /// The calls recorded on an object through the method of that name, as
    /// their argument lists, oldest first.
    fn calls_on(&self, obj: &JObject, class: &str, name: &str) -> Vec<Vec<JValue>> {
        let method = self.method(class, name, self.sig_of(class, name));
        let mut found: Vec<Vec<JValue>> = Vec::new();
        for call in self.env.calls() {
            if call.object == *obj && call.method == method {
                found.push(call.args.clone());
            }
        }
        found
    }

    fn string_of(&self, value: &JValue) -> String {
        match value {
            JValue::Object(obj) => self.env.get_string(obj).unwrap(),
            other => panic!("not an object: {:?}", other),
        }
    }
}

fn response(decision: Decision, reason: Vec<&str>, errors: Vec<&str>) -> Response {
    Response {
        decision,
        diagnostics: Diagnostics {
            reason: reason.into_iter().map(String::from).collect(),
            errors: errors.into_iter().map(String::from).collect(),
        },
    }
}

fn field_error(err: &CedarlingBridgeError) -> Option<(&'static str, &'static str)> {
    match err {
        CedarlingBridgeError::FieldCannotBeNull { field, class } => Some((*class, *field)),
        _ => None,
    }
}

fn generic_text(err: &CedarlingBridgeError) -> Option<String> {
    match err {
        CedarlingBridgeError::GenericError(text) => Some(text.clone()),
        _ => None,
    }
}

// ---------------------------------------------------------------- the cache

#[test]
fn lookup_after_register_gives_the_handle_of_the_runtime() {
    let mut env = JavaEnv::new();
    let cls = env.define_class("a/B");
    let method = env.define_method(&cls, "getX", STRING);
    let mut cache = JniCache::new();
    assert!(cache.add_class(&env, "a/B").is_ok());
    assert!(cache.add_instance_method(&env, "a/B", "getX", STRING).is_ok());
    assert_eq!(cache.get_instance_method(&("a/B", "getX", STRING)).unwrap(), method);
    assert_eq!(cache.get_class(&env, "a/B").unwrap(), cls);

    // the handle is usable: an object answers through it
    let obj = env.new_instance(&cls);
    let text = env.new_string("x");
    env.set_answer(&obj, &method, &no_args(), JValue::Object(text));
    let found = cache.get_instance_method(&("a/B", "getX", STRING)).unwrap();
    let got = call_jni_string_method(&env, &obj, &found, &no_args()).unwrap();
    assert_eq!(got, Some("x".to_string()));
}

#[test]
fn lookup_before_register_fails_with_the_error_of_its_kind() {
    let env = JavaEnv::new();
    let cache = JniCache::new();
    match cache.get_class(&env, "a/B") {
        Err(CedarlingBridgeError::CachedClassNotFound(name)) => assert_eq!(name, "a/B"),
        other => panic!("unexpected: {:?}", other),
    }
    match cache.get_instance_method(&("a/B", "getX", STRING)) {
        Err(CedarlingBridgeError::CachedInstanceMethodNotFound { class, method }) => {
            assert_eq!(class, "a/B");
            assert_eq!(method, "getX");
        },
        other => panic!("unexpected: {:?}", other),
    }
    match cache.get_static_field(&("a/B", "ALLOW", "La/B;")) {
        Err(CedarlingBridgeError::CachedStaticFieldNotFound { class, field }) => {
            assert_eq!(class, "a/B");
            assert_eq!(field, "ALLOW");
        },
        other => panic!("unexpected: {:?}", other),
    }
}

#[test]
fn lookup_of_another_signature_is_a_miss() {
    let mut env = JavaEnv::new();
    let cls = env.define_class("a/B");
    env.define_method(&cls, "getX", STRING);
    let mut cache = JniCache::new();
    cache.add_instance_method(&env, "a/B", "getX", STRING).unwrap();
    assert!(cache.get_instance_method(&("a/B", "getX", BOOL)).is_err());
    assert!(cache.get_instance_method(&("a/C", "getX", STRING)).is_err());
    assert!(cache.get_instance_method(&("a/B", "getY", STRING)).is_err());
}

#[test]
fn register_of_what_the_runtime_does_not_know_fails() {
    let mut env = JavaEnv::new();
    let cls = env.define_class("a/B");
    env.define_method(&cls, "getX", STRING);
    let mut cache = JniCache::new();
    match cache.add_class(&env, "a/Missing") {
        Err(CedarlingBridgeError::Jni(JniError::ClassNotFound(name))) => {
            assert_eq!(name, "a/Missing")
        },
        other => panic!("unexpected: {:?}", other),
    }
    match cache.add_instance_method(&env, "a/B", "getY", STRING) {
        Err(CedarlingBridgeError::Jni(JniError::MethodNotFound { class, method })) => {
            assert_eq!(class, "a/B");
            assert_eq!(method, "getY");
        },
        other => panic!("unexpected: {:?}", other),
    }
    match cache.add_static_field(&env, "a/B", "ALLOW", "La/B;") {
        Err(CedarlingBridgeError::Jni(JniError::FieldNotFound { class, field })) => {
            assert_eq!(class, "a/B");
            assert_eq!(field, "ALLOW");
        },
        other => panic!("unexpected: {:?}", other),
    }
    // nothing was stored by the failed registrations
    assert!(cache.get_class(&env, "a/Missing").is_err());
    assert!(cache.get_instance_method(&("a/B", "getY", STRING)).is_err());
}

#[test]
fn a_later_registration_replaces_an_earlier_one() {
    let mut env = JavaEnv::new();
    let cls = env.define_class("a/B");
    let first = env.define_method(&cls, "getX", STRING);
    let mut cache = JniCache::new();
    cache.add_instance_method(&env, "a/B", "getX", STRING).unwrap();
    let second = env.define_method(&cls, "getX", STRING);
    assert_ne!(first, second);
    cache.add_instance_method(&env, "a/B", "getX", STRING).unwrap();
    assert_eq!(cache.get_instance_method(&("a/B", "getX", STRING)).unwrap(), second);
}

#[test]
fn init_cache_registers_every_converter() {
    let world = World::new();
    for (class, members) in schema() {
        if class == LONG_CLS || class.ends_with("Error") && class != ERROR_CLS {
            continue;
        }
        if [TRUST_MODE_CLS, JWT_ALG_CLS, LOG_LEVEL_CLS, LOG_TYPE_CLS, STORE_SOURCE_CLS, ROLE_SRC_CLS]
            .contains(&class)
        {
            continue;
        }
        assert!(world.cache.get_class(&world.env, class).is_ok(), "class {}", class);
        for (name, sig) in members {
            assert_eq!(
                world.cache.get_instance_method(&(class, name, sig)).unwrap(),
                world.env.get_method_id(class, name, sig).unwrap(),
                "{} {}",
                class,
                name
            );
        }
    }
    assert!(world.cache.get_instance_method(&(LONG_CLS, "longValue", "()J")).is_ok());
    assert!(world.cache.get_static_field(&(DECISION_CLS, "ALLOW", DECISION_SIG)).is_ok());
    assert!(world.cache.get_static_field(&(DECISION_CLS, "DENY", DECISION_SIG)).is_ok());
}

#[test]
fn init_cache_stops_at_the_first_class_that_is_missing() {
    let mut env = JavaEnv::new();
    let cls = env.define_class(DURATION_CLS);
    env.define_method(&cls, "toNanos", "()J");
    let mut cache = JniCache::new();
    match init_cache(&env, &mut cache) {
        Err(CedarlingBridgeError::Jni(JniError::ClassNotFound(name))) => assert_eq!(name, FILE_CLS),
        other => panic!("unexpected: {:?}", other),
    }
    // what came before the failure is registered
    assert!(cache.get_instance_method(&(DURATION_CLS, "toNanos", "()J")).is_ok());
    assert!(cache.get_class(&env, FILE_CLS).is_err());
}

#[test]
fn unsigned_role_id_src_registers_and_converts() {
    let mut world = World::new();
    assert!(JavaUnsignedRoleIdSrc::jni_init(&world.env, &mut world.cache).is_ok());
    let value = world.text("role");
    let obj = world.object(ROLE_SRC_CLS, vec![("getValue", value)]);
    let wrapper = JavaUnsignedRoleIdSrc::new(&world.cache, obj).unwrap().unwrap();
    assert_eq!(wrapper.as_cedarling_unsigned_role_id_src(&world.env).unwrap(), UnsignedRoleIdSrc);
    let empty = world.object(ROLE_SRC_CLS, vec![("getValue", World::null())]);
    let wrapper = JavaUnsignedRoleIdSrc::new(&world.cache, empty).unwrap().unwrap();
    let err = wrapper.as_cedarling_unsigned_role_id_src(&world.env).unwrap_err();
    assert_eq!(field_error(&err), Some((ROLE_SRC_CLS, "value")));
}

// ----------------------------------------------------------- the primitives

#[test]
fn primitives_read_each_kind_of_value() {
    let mut world = World::new();
    let cls = world.env.define_class("t/Bean");
    let get_flag = world.env.define_method(&cls, "getFlag", BOOL);
    let get_int = world.env.define_method(&cls, "getInt", "()I");
    let get_long = world.env.define_method(&cls, "getLong", "()J");
    let get_text = world.env.define_method(&cls, "getText", STRING);
    let get_boxed = world.env.define_method(&cls, "getBoxed", "()Ljava/lang/Long;");
    let bean = world.env.new_instance(&cls);
    let text = world.text("hello");
    let boxed = world.boxed(-3);
    world.env.set_answer(&bean, &get_flag, &no_args(), JValue::Bool(true));
    world.env.set_answer(&bean, &get_int, &no_args(), JValue::Int(-7));
    world.env.set_answer(&bean, &get_long, &no_args(), JValue::Long(1 << 40));
    world.env.set_answer(&bean, &get_text, &no_args(), text);
    world.env.set_answer(&bean, &get_boxed, &no_args(), boxed);

    assert_eq!(call_jni_bool_method(&world.env, &bean, &get_flag, &no_args()).unwrap(), true);
    assert_eq!(call_jni_int_method(&world.env, &bean, &get_int, &no_args()).unwrap(), -7);
    assert_eq!(call_jni_long_method(&world.env, &bean, &get_long, &no_args()).unwrap(), 1 << 40);
    assert_eq!(
        call_jni_string_method(&world.env, &bean, &get_text, &no_args()).unwrap(),
        Some("hello".to_string())
    );
    assert_eq!(
        call_jni_opt_long_method(&world.env, &world.cache, &bean, &get_boxed, &no_args()).unwrap(),
        Some(-3)
    );
    assert_eq!(
        call_jni_object_method(&world.env, &bean, &get_text, &no_args()).unwrap(),
        match text {
            JValue::Object(obj) => obj,
            _ => unreachable!(),
        }
    );
}

#[test]
fn null_strings_and_null_boxes_are_absent() {
    let mut world = World::new();
    let cls = world.env.define_class("t/Bean");
    let get_text = world.env.define_method(&cls, "getText", STRING);
    let get_boxed = world.env.define_method(&cls, "getBoxed", "()Ljava/lang/Long;");
    let bean = world.env.new_instance(&cls);
    world.env.set_answer(&bean, &get_text, &no_args(), World::null());
    world.env.set_answer(&bean, &get_boxed, &no_args(), World::null());
    assert_eq!(call_jni_string_method(&world.env, &bean, &get_text, &no_args()).unwrap(), None);
    assert_eq!(
        call_jni_opt_long_method(&world.env, &world.cache, &bean, &get_boxed, &no_args()).unwrap(),
        None
    );
    assert_eq!(java_string_to_native_string(&world.env, &JObject::null()).unwrap(), None);
}

#[test]
fn a_later_answer_replaces_an_earlier_one() {
    let mut world = World::new();
    let cls = world.env.define_class("t/Bean");
    let get_int = world.env.define_method(&cls, "getInt", "()I");
    let bean = world.env.new_instance(&cls);
    world.env.set_answer(&bean, &get_int, &no_args(), JValue::Int(1));
    world.env.set_answer(&bean, &get_int, &no_args(), JValue::Int(2));
    assert_eq!(call_jni_int_method(&world.env, &bean, &get_int, &no_args()).unwrap(), 2);
}

#[test]
fn foreign_call_failures_have_their_own_errors() {
    let mut world = World::new();
    let cls = world.env.define_class("t/Bean");
    let get_int = world.env.define_method(&cls, "getInt", "()I");
    let bean = world.env.new_instance(&cls);
    world.env.set_answer(&bean, &get_int, &no_args(), JValue::Int(1));

    // the null reference
    assert!(matches!(
        call_jni_int_method(&world.env, &JObject::null(), &get_int, &no_args()),
        Err(CedarlingBridgeError::Jni(JniError::NullPtr))
    ));
    // a reference that leads nowhere
    assert!(matches!(
        call_jni_int_method(&world.env, &JObject { slot: 1_000_000 }, &get_int, &no_args()),
        Err(CedarlingBridgeError::Jni(JniError::InvalidReference))
    ));
    // a handle that leads nowhere
    assert!(matches!(
        call_jni_int_method(&world.env, &bean, &JMethodID { index: 1_000_000 }, &no_args()),
        Err(CedarlingBridgeError::Jni(JniError::InvalidReference))
    ));
    // a call that the object has no answer to
    assert!(matches!(
        call_jni_int_method(&world.env, &bean, &get_int, &one_arg(JValue::Int(3))),
        Err(CedarlingBridgeError::Jni(JniError::CallFailed))
    ));
    // an answer of another type
    assert!(matches!(
        call_jni_bool_method(&world.env, &bean, &get_int, &no_args()),
        Err(CedarlingBridgeError::Jni(JniError::WrongValueType))
    ));
    assert!(matches!(
        call_jni_object_method(&world.env, &bean, &get_int, &no_args()),
        Err(CedarlingBridgeError::Jni(JniError::WrongValueType))
    ));
    assert!(matches!(
        call_jni_long_method(&world.env, &bean, &get_int, &no_args()),
        Err(CedarlingBridgeError::Jni(JniError::WrongValueType))
    ));
    // an object that is no string
    assert!(matches!(
        java_string_to_native_string(&world.env, &bean),
        Err(CedarlingBridgeError::Jni(JniError::WrongValueType))
    ));
}

#[test]
fn to_string_goes_through_the_cached_handle() {
    let mut world = World::new();
    let value = world.named(LOG_LEVEL_CLS, "DEBUG");
    let obj = match value {
        JValue::Object(obj) => obj,
        _ => unreachable!(),
    };
    assert_eq!(
        call_jni_method_to_string(&world.env, &world.cache, &obj).unwrap(),
        Some("DEBUG".to_string())
    );
    let empty = JniCache::new();
    match call_jni_method_to_string(&world.env, &empty, &obj) {
        Err(CedarlingBridgeError::CachedInstanceMethodNotFound { class, method }) => {
            assert_eq!(class, OBJECT_CLS);
            assert_eq!(method, "toString");
        },
        other => panic!("unexpected: {:?}", other),
    }
}

#[test]
fn require_some_names_class_and_field() {
    let present: Option<u32> = Some(4);
    assert_eq!(require_some(present, "C", "f").unwrap(), 4);
    let absent: Option<u32> = None;
    let err = require_some(absent, "C", "f").unwrap_err();
    assert_eq!(field_error(&err), Some(("C", "f")));
    assert_eq!(err.message(), "Field `f` in java class `C` cannot be null");
}

#[test]
fn numbers_are_written_in_decimal() {
    assert_eq!(decimal_text(0), "0");
    assert_eq!(decimal_text(7), "7");
    assert_eq!(decimal_text(10), "10");
    assert_eq!(decimal_text(409), "409");
    assert_eq!(decimal_text(4_294_967_295), "4294967295");
    assert_eq!(signed_decimal_text(0), "0");
    assert_eq!(signed_decimal_text(31), "31");
    assert_eq!(signed_decimal_text(-1), "-1");
    assert_eq!(signed_decimal_text(i32::MAX), "2147483647");
    assert_eq!(signed_decimal_text(i32::MIN), "-2147483648");
    assert!(str_eq("abc", "abc"));
    assert!(!str_eq("abc", "abd"));
    assert!(!str_eq("abc", "ab"));
}

#[test]
fn null_element_error_names_field_and_index() {
    let err = null_element_error("null thing", "things", 12);
    assert_eq!(generic_text(&err), Some("null thing (field `things`, index 12)".to_string()));
}

#[test]
fn argument_lists_hold_their_arguments_in_order() {
    assert_eq!(no_args(), Vec::<JValue>::new());
    assert_eq!(one_arg(JValue::Int(1)), vec![JValue::Int(1)]);
    assert_eq!(
        two_args(JValue::Int(1), JValue::Bool(false)),
        vec![JValue::Int(1), JValue::Bool(false)]
    );
}

// ------------------------------------------------------------ error messages

#[test]
fn every_error_reports_its_text() {
    assert_eq!(CedarlingBridgeError::GenericError("plain".to_string()).message(), "plain");
    assert_eq!(
        CedarlingBridgeError::Jni(JniError::ClassNotFound("a/B".to_string())).message(),
        "JNI error: Class not found: a/B"
    );
    assert_eq!(
        CedarlingBridgeError::Jni(JniError::MethodNotFound {
            class: "a/B".to_string(),
            method: "getX".to_string()
        })
        .message(),
        "JNI error: Method `getX` not found in class `a/B`"
    );
    assert_eq!(
        CedarlingBridgeError::Jni(JniError::FieldNotFound {
            class: "a/B".to_string(),
            field: "ALLOW".to_string()
        })
        .message(),
        "JNI error: Static field `ALLOW` not found in class `a/B`"
    );
    assert_eq!(
        CedarlingBridgeError::Jni(JniError::NullPtr).message(),
        "JNI error: Null reference in a foreign call"
    );
    assert_eq!(
        CedarlingBridgeError::Jni(JniError::InvalidReference).message(),
        "JNI error: Invalid reference in a foreign call"
    );
    assert_eq!(
        CedarlingBridgeError::Jni(JniError::CallFailed).message(),
        "JNI error: Foreign call failed"
    );
    assert_eq!(
        CedarlingBridgeError::Jni(JniError::WrongValueType).message(),
        "JNI error: Foreign call returned a value of another type"
    );
    assert_eq!(
        CedarlingBridgeError::UnknownEnumValue { enum_cls: "E", value: "X".to_string() }.message(),
        "Unknown value specified for java enum `E`. Value: `X`"
    );
    assert_eq!(
        CedarlingBridgeError::FieldCannotBeNull { field: "f", class: "C" }.message(),
        "Field `f` in java class `C` cannot be null"
    );
    assert_eq!(
        CedarlingBridgeError::CedarlingAuthError("engine says no".to_string()).message(),
        "engine says no"
    );
    assert_eq!(
        CedarlingBridgeError::CachedClassNotFound("a/B".to_string()).message(),
        "Class `a/B` not found in cache"
    );
    assert_eq!(
        CedarlingBridgeError::CachedInstanceMethodNotFound {
            class: "a/B".to_string(),
            method: "getX".to_string()
        }
        .message(),
        "Instance method `getX` not found in cache for class `a/B`"
    );
    assert_eq!(
        CedarlingBridgeError::CachedStaticFieldNotFound {
            class: "a/B".to_string(),
            field: "ALLOW".to_string()
        }
        .message(),
        "Static field `ALLOW` not found in cache for class `a/B`"
    );
    assert_eq!(
        CedarlingBridgeError::CacheMutexError("poisoned".to_string()).message(),
        "poisoned"
    );
    let url_err = url::Url::parse("no url").unwrap_err();
    assert_eq!(CedarlingBridgeError::UrlParseError(url_err).message(), url_err.to_string());
    let json_err = serde_json::from_str::<serde_json::Value>("{").unwrap_err();
    let expected = format!("Json error: where. {}", json_err);
    assert_eq!(
        CedarlingBridgeError::JsonError { additional_description: "where".to_string(), json_err }
            .message(),
        expected
    );
}

// ------------------------------------------------------------------- lists

#[test]
fn list_is_walked_by_size_and_index() {
    let mut world = World::new();
    let list = world.texts(vec!["a", "b", "c"]);
    let obj = match list {
        JValue::Object(obj) => obj,
        _ => unreachable!(),
    };
    let list = JavaList::new(&world.cache, obj).unwrap().unwrap();
    assert_eq!(list.size(&world.env).unwrap(), 3);
    let mut got: Vec<String> = Vec::new();
    let mut index: i32 = 0;
    while index < 3 {
        let element = list.get(&world.env, index).unwrap();
        got.push(world.env.get_string(&element).unwrap());
        index += 1;
    }
    assert_eq!(got, vec!["a", "b", "c"]);
    assert!(matches!(
        list.get(&world.env, 3),
        Err(CedarlingBridgeError::Jni(JniError::CallFailed))
    ));
    assert!(JavaList::new(&world.cache, JObject::null()).unwrap().is_none());
}

#[test]
fn list_conversion_keeps_the_order_of_the_source() {
    let mut world = World::new();
    let claims = world.texts(vec!["c", "a", "b", "a"]);
    let obj = match claims {
        JValue::Object(obj) => obj,
        _ => unreachable!(),
    };
    let list = JavaList::new(&world.cache, obj).unwrap().unwrap();
    let got = JavaAuthorizationConfig::claims(&world.env, &list, "decisionLogUserClaims").unwrap();
    assert_eq!(got, vec!["c", "a", "b", "a"]);

    let empty = world.texts(vec![]);
    let obj = match empty {
        JValue::Object(obj) => obj,
        _ => unreachable!(),
    };
    let list = JavaList::new(&world.cache, obj).unwrap().unwrap();
    let got = JavaAuthorizationConfig::claims(&world.env, &list, "decisionLogUserClaims").unwrap();
    assert!(got.is_empty());
}

#[test]
fn a_list_with_a_negative_size_is_empty() {
    let mut world = World::new();
    let obj = world.object(LIST_CLS, vec![("size", JValue::Int(-2))]);
    let list = JavaList::new(&world.cache, obj).unwrap().unwrap();
    let got = JavaAuthorizationConfig::claims(&world.env, &list, "decisionLogUserClaims").unwrap();
    assert!(got.is_empty());
}

#[test]
fn a_null_claim_is_an_error_that_names_field_and_index() {
    let mut world = World::new();
    let first = world.text("sub");
    let claims = world.list(vec![first, World::null()]);
    let obj = match claims {
        JValue::Object(obj) => obj,
        _ => unreachable!(),
    };
    let list = JavaList::new(&world.cache, obj).unwrap().unwrap();
    let err = JavaAuthorizationConfig::claims(&world.env, &list, "decisionLogUserClaims")
        .unwrap_err();
    assert_eq!(
        generic_text(&err),
        Some(
            "null claim specified in authorization configuration (field `decisionLogUserClaims`, index 1)"
                .to_string()
        )
    );
}

// ----------------------------------------------------------- enum decoders

#[test]
fn decision_names_round_trip() {
    for name in ["ALLOW", "DENY"] {
        let decision = JavaAuthzDecision::from_name(name).unwrap();
        assert_eq!(JavaAuthzDecision::name_of(&decision), name);
    }
    assert_eq!(JavaAuthzDecision::from_name("ALLOW").unwrap(), Decision::Allow);
    assert_eq!(JavaAuthzDecision::from_name("DENY").unwrap(), Decision::Deny);
    assert_eq!(JavaAuthzDecision::name_of(&Decision::Allow), "ALLOW");
    assert_eq!(JavaAuthzDecision::name_of(&Decision::Deny), "DENY");
    match JavaAuthzDecision::from_name("allow") {
        Err(CedarlingBridgeError::UnknownEnumValue { enum_cls, value }) => {
            assert_eq!(enum_cls, DECISION_CLS);
            assert_eq!(value, "allow");
        },
        other => panic!("unexpected: {:?}", other),
    }
}

#[test]
fn decision_becomes_the_constant_of_its_name() {
    let world = World::new();
    let allow = JavaAuthzDecision::as_java_object(&world.env, &world.cache, &Decision::Allow);
    assert_eq!(allow.unwrap(), world.allow);
    let deny = JavaAuthzDecision::as_java_object(&world.env, &world.cache, &Decision::Deny);
    assert_eq!(deny.unwrap(), world.deny);
    assert_eq!(JavaAuthzDecision::allow_value(&world.env, &world.cache).unwrap(), world.allow);
    assert_eq!(JavaAuthzDecision::deny_value(&world.env, &world.cache).unwrap(), world.deny);
    // the constant, asked for its name and decoded, is the decision again
    let name = call_jni_method_to_string(&world.env, &world.cache, &world.deny).unwrap().unwrap();
    assert_eq!(JavaAuthzDecision::from_name(&name).unwrap(), Decision::Deny);
}

#[test]
fn trust_modes_are_decoded_by_name() {
    let decode = |name: &str| JavaIdTokenTrustMode { name: name.to_string() }.as_enum();
    assert_eq!(decode("ALWAYS").unwrap(), IdTokenTrustMode::Always);
    assert_eq!(decode("NEVER").unwrap(), IdTokenTrustMode::Never);
    assert_eq!(decode("IF_PRESENT").unwrap(), IdTokenTrustMode::IfPresent);
    assert_eq!(decode("STRICT").unwrap(), IdTokenTrustMode::Strict);
    match decode("strict") {
        Err(CedarlingBridgeError::UnknownEnumValue { enum_cls, value }) => {
            assert_eq!(enum_cls, TRUST_MODE_CLS);
            assert_eq!(value, "strict");
        },
        other => panic!("unexpected: {:?}", other),
    }
}

#[test]
fn log_levels_are_decoded_by_name() {
    let decode = |name: &str| JavaLogLevel { name: name.to_string() }.as_enum();
    assert_eq!(decode("FATAL").unwrap(), LogLevel::FATAL);
    assert_eq!(decode("ERROR").unwrap(), LogLevel::ERROR);
    assert_eq!(decode("WARN").unwrap(), LogLevel::WARN);
    assert_eq!(decode("INFO").unwrap(), LogLevel::INFO);
    assert_eq!(decode("DEBUG").unwrap(), LogLevel::DEBUG);
    assert_eq!(decode("TRACE").unwrap(), LogLevel::TRACE);
    match decode("VERBOSE") {
        Err(CedarlingBridgeError::UnknownEnumValue { enum_cls, value }) => {
            assert_eq!(enum_cls, LOG_LEVEL_CLS);
            assert_eq!(value, "VERBOSE");
        },
        other => panic!("unexpected: {:?}", other),
    }
}

#[test]
fn log_types_are_decoded_with_the_memory_section_beside_them() {
    let memory = MemoryLogConfig { log_ttl: 60, max_items: Some(10), max_item_size: None };
    let decode =
        |name: &str, mem: Option<MemoryLogConfig>| JavaLogType { name: name.to_string() }.as_enum(mem);
    assert_eq!(decode("OFF", None).unwrap(), LogTypeConfig::Off);
    assert_eq!(decode("OFF", Some(memory)).unwrap(), LogTypeConfig::Off);
    assert_eq!(decode("STDOUT", Some(memory)).unwrap(), LogTypeConfig::StdOut);
    assert_eq!(decode("MEMORY", Some(memory)).unwrap(), LogTypeConfig::Memory(memory));
    let err = decode("MEMORY", None).unwrap_err();
    assert_eq!(
        generic_text(&err),
        Some("Log type set to MEMORY but no memory log configuration provided".to_string())
    );
    match decode("FILE", None) {
        Err(CedarlingBridgeError::UnknownEnumValue { enum_cls, value }) => {
            assert_eq!(enum_cls, LOG_TYPE_CLS);
            assert_eq!(value, "FILE");
        },
        other => panic!("unexpected: {:?}", other),
    }
}

#[test]
fn policy_store_sources_take_text_or_path_by_kind() {
    let decode = |name: &str| {
        JavaPolicyStoreSource { name: name.to_string() }
            .as_enum(Ok("text".to_string()), Ok("/path".to_string()))
    };
    assert_eq!(decode("JSON").unwrap(), PolicyStoreSource::Json("text".to_string()));
    assert_eq!(decode("YAML").unwrap(), PolicyStoreSource::Yaml("text".to_string()));
    assert_eq!(decode("LOCKMASTER").unwrap(), PolicyStoreSource::LockServer("text".to_string()));
    assert_eq!(decode("FILEJSON").unwrap(), PolicyStoreSource::FileJson("/path".to_string()));
    assert_eq!(decode("FILEYAML").unwrap(), PolicyStoreSource::FileYaml("/path".to_string()));
    assert!(matches!(decode("HTTP"), Err(CedarlingBridgeError::UnknownEnumValue { .. })));

    // what the kind does not take may be missing
    let source = JavaPolicyStoreSource { name: "JSON".to_string() };
    let got = source.as_enum(
        Ok("text".to_string()),
        Err(CedarlingBridgeError::GenericError("no path".to_string())),
    );
    assert_eq!(got.unwrap(), PolicyStoreSource::Json("text".to_string()));
    // what the kind takes must be there
    let source = JavaPolicyStoreSource { name: "FILEYAML".to_string() };
    let got = source.as_enum(
        Ok("text".to_string()),
        Err(CedarlingBridgeError::GenericError("no path".to_string())),
    );
    assert_eq!(generic_text(&got.unwrap_err()), Some("no path".to_string()));
}

#[test]
fn algorithms_are_decoded_by_the_jwt_library() {
    let decode = |name: &str| JavaJwtAlgorithm { name: name.to_string() }.as_enum();
    assert_eq!(decode("HS256").unwrap(), jsonwebtoken::Algorithm::HS256);
    assert_eq!(decode("HS384").unwrap(), jsonwebtoken::Algorithm::HS384);
    assert_eq!(decode("HS512").unwrap(), jsonwebtoken::Algorithm::HS512);
    assert_eq!(decode("ES256").unwrap(), jsonwebtoken::Algorithm::ES256);
    assert_eq!(decode("ES384").unwrap(), jsonwebtoken::Algorithm::ES384);
    assert_eq!(decode("RS256").unwrap(), jsonwebtoken::Algorithm::RS256);
    assert_eq!(decode("RS384").unwrap(), jsonwebtoken::Algorithm::RS384);
    assert_eq!(decode("RS512").unwrap(), jsonwebtoken::Algorithm::RS512);
    assert_eq!(decode("PS256").unwrap(), jsonwebtoken::Algorithm::PS256);
    assert_eq!(decode("PS384").unwrap(), jsonwebtoken::Algorithm::PS384);
    assert_eq!(decode("PS512").unwrap(), jsonwebtoken::Algorithm::PS512);
    assert_eq!(decode("EdDSA").unwrap(), jsonwebtoken::Algorithm::EdDSA);
    match decode("hs256") {
        Err(CedarlingBridgeError::UnknownEnumValue { enum_cls, value }) => {
            assert_eq!(enum_cls, JWT_ALG_CLS);
            assert_eq!(value, "hs256");
        },
        other => panic!("unexpected: {:?}", other),
    }
    let unknown = JavaJwtAlgorithm { name: "X".to_string() };
    assert_eq!(
        unknown.from_parsed(Some(jsonwebtoken::Algorithm::PS512)).unwrap(),
        jsonwebtoken::Algorithm::PS512
    );
    assert!(unknown.from_parsed(None).is_err());
}

#[test]
fn enum_objects_are_read_by_their_string_form() {
    let mut world = World::new();
    let value = world.named(LOG_TYPE_CLS, "STDOUT");
    let obj = match value {
        JValue::Object(obj) => obj,
        _ => unreachable!(),
    };
    let log_type = JavaLogType::from_jni_object(&world.env, &world.cache, obj).unwrap().unwrap();
    assert_eq!(log_type.name, "STDOUT");
    assert!(JavaLogType::from_jni_object(&world.env, &world.cache, JObject::null())
        .unwrap()
        .is_none());
    assert!(JavaLogLevel::from_jni_object(&world.env, &world.cache, JObject::null())
        .unwrap()
        .is_none());
    assert!(JavaIdTokenTrustMode::from_jni_object(&world.env, &world.cache, JObject::null())
        .unwrap()
        .is_none());
    assert!(JavaPolicyStoreSource::from_jni_object(&world.env, &world.cache, JObject::null())
        .unwrap()
        .is_none());
    assert!(JavaJwtAlgorithm::from_jni_object(&world.env, &world.cache, JObject::null())
        .unwrap()
        .is_none());
}

// -------------------------------------------------- the small converters

#[test]
fn uri_is_parsed_from_its_string_form() {
    let mut world = World::new();
    let value = world.named(URI_CLS, "https://lock.example.org/config?x=1");
    let obj = match value {
        JValue::Object(obj) => obj,
        _ => unreachable!(),
    };
    let uri = JavaURI::new(obj).unwrap().unwrap();
    let url = uri.as_url(&world.env, &world.cache).unwrap();
    assert_eq!(url, url::Url::parse("https://lock.example.org/config?x=1").unwrap());
    assert_eq!(url.host_str(), Some("lock.example.org"));
    assert!(JavaURI::new(JObject::null()).unwrap().is_none());

    let value = world.named(URI_CLS, "not a url");
    let obj = match value {
        JValue::Object(obj) => obj,
        _ => unreachable!(),
    };
    let uri = JavaURI::new(obj).unwrap().unwrap();
    match uri.as_url(&world.env, &world.cache) {
        Err(CedarlingBridgeError::UrlParseError(e)) => {
            assert_eq!(e, url::ParseError::RelativeUrlWithoutBase)
        },
        other => panic!("unexpected: {:?}", other),
    }

    // a URI whose string form is null has no URL
    let obj = world.object(URI_CLS, vec![]);
    let to_string = world.method(OBJECT_CLS, "toString", STRING);
    world.env.set_answer(&obj, &to_string, &no_args(), World::null());
    let uri = JavaURI::new(obj).unwrap().unwrap();
    let err = uri.as_url(&world.env, &world.cache).unwrap_err();
    assert_eq!(
        generic_text(&err),
        Some("Could not get string value of java/net/URI object".to_string())
    );
}

#[test]
fn duration_is_read_as_nanoseconds() {
    let mut world = World::new();
    let value = world.duration(1_500_000_000);
    let obj = match value {
        JValue::Object(obj) => obj,
        _ => unreachable!(),
    };
    let duration = JavaDuration::new(&world.cache, obj).unwrap().unwrap();
    assert_eq!(duration.to_duration(&world.env).unwrap(), Duration::from_nanos(1_500_000_000));
    assert_eq!(JavaDuration::from_nanos(0), Duration::from_nanos(0));
    assert_eq!(JavaDuration::from_nanos(-1), Duration::from_nanos(u64::MAX));
    assert!(JavaDuration::new(&world.cache, JObject::null()).unwrap().is_none());
}

#[test]
fn file_gives_its_absolute_path() {
    let mut world = World::new();
    let path = world.text("/etc/store.json");
    let obj = world.object(FILE_CLS, vec![("getAbsolutePath", path)]);
    let file = JavaFile::new(&world.cache, obj).unwrap().unwrap();
    assert_eq!(file.get_absolute_path(&world.env).unwrap(), Some("/etc/store.json".to_string()));
    assert!(JavaFile::new(&world.cache, JObject::null()).unwrap().is_none());
}

#[test]
fn wrapping_needs_the_handles_in_the_cache() {
    let world = World::new();
    let empty = JniCache::new();
    let some = JObject { slot: 1 };
    match JavaEntityNames::new(&empty, some) {
        Err(CedarlingBridgeError::CachedInstanceMethodNotFound { class, method }) => {
            assert_eq!(class, NAMES_CLS);
            assert_eq!(method, "getUser");
        },
        other => panic!("unexpected: {:?}", other),
    }
    // the null reference is wrapped to nothing without a look at the cache
    assert!(JavaEntityNames::new(&empty, JObject::null()).unwrap().is_none());
    assert!(JavaBootstrapConfig::new(&empty, JObject::null()).unwrap().is_none());
    let wrapper = JavaEntityNames::new(&world.cache, some).unwrap().unwrap();
    assert_eq!(wrapper.jobj, some);
    assert_eq!(wrapper.get_iss_method, world.method(NAMES_CLS, "getIss", STRING));
}

#[test]
fn entity_names_need_all_four_names() {
    let mut world = World::new();
    let names = match world.entity_names() {
        JValue::Object(obj) => obj,
        _ => unreachable!(),
    };
    let wrapper = JavaEntityNames::new(&world.cache, names).unwrap().unwrap();
    let native = wrapper.as_cedarling_entity_names(&world.env).unwrap();
    assert_eq!(native.user, "Jans::User");
    assert_eq!(native.workload, "Jans::Workload");
    assert_eq!(native.role, "Jans::Role");
    assert_eq!(native.iss, "Jans::TrustedIssuer");

    let user = world.text("U");
    let workload = world.text("W");
    let iss = world.text("I");
    let partial = world.object(
        NAMES_CLS,
        vec![
            ("getUser", user),
            ("getWorkload", workload),
            ("getRole", World::null()),
            ("getIss", iss),
        ],
    );
    let wrapper = JavaEntityNames::new(&world.cache, partial).unwrap().unwrap();
    let err = wrapper.as_cedarling_entity_names(&world.env).unwrap_err();
    assert_eq!(field_error(&err), Some((NAMES_CLS, "role")));
}

#[test]
fn entity_builder_section_converts() {
    let mut world = World::new();
    let names = world.entity_names();
    let obj = world.object(
        BUILDER_CLS,
        vec![
            ("getBuildWorkload", JValue::Bool(false)),
            ("getBuildUser", JValue::Bool(true)),
            ("getEntityNames", names),
        ],
    );
    let wrapper = JavaEntityBuilderConfig::new(&world.cache, obj).unwrap().unwrap();
    let native = wrapper.as_cedarling_entity_builder_config(&world.env, &world.cache).unwrap();
    assert_eq!(native.build_workload, false);
    assert_eq!(native.build_user, true);
    assert_eq!(native.entity_names.role, "Jans::Role");

    let obj = world.object(
        BUILDER_CLS,
        vec![
            ("getBuildWorkload", JValue::Bool(false)),
            ("getBuildUser", JValue::Bool(true)),
            ("getEntityNames", World::null()),
        ],
    );
    let wrapper = JavaEntityBuilderConfig::new(&world.cache, obj).unwrap().unwrap();
    let err = wrapper.as_cedarling_entity_builder_config(&world.env, &world.cache).unwrap_err();
    assert_eq!(field_error(&err), Some((BUILDER_CLS, "entityNames")));
}

#[test]
fn memory_log_section_converts_with_and_without_bounds() {
    let mut world = World::new();
    let items = world.boxed(100);
    let obj = world.object(
        MEMORY_CLS,
        vec![
            ("getLogTtl", JValue::Long(60)),
            ("getMaxItems", items),
            ("getMaxItemSize", World::null()),
        ],
    );
    let wrapper = JavaMemoryLogConfig::new(&world.cache, obj).unwrap().unwrap();
    let native = wrapper.as_cedarling_memory_log_config(&world.env, &world.cache).unwrap();
    assert_eq!(native, MemoryLogConfig { log_ttl: 60, max_items: Some(100), max_item_size: None });
    assert_eq!(JavaMemoryLogConfig::to_size(Some(7)), Some(7));
    assert_eq!(JavaMemoryLogConfig::to_size(None), None);
    assert_eq!(JavaMemoryLogConfig::to_size(Some(-1)), Some(usize::MAX));
}

#[test]
fn log_type_memory_without_memory_section_is_a_configuration_error() {
    let mut world = World::new();
    let obj = world.log_config("MEMORY", World::null());
    let wrapper = JavaLogConfig::new(&world.cache, obj).unwrap().unwrap();
    let err = wrapper.as_cedarling_log_config(&world.env, &world.cache).unwrap_err();
    assert_eq!(
        generic_text(&err),
        Some("Log type set to MEMORY but no memory log configuration provided".to_string())
    );
    assert!(field_error(&err).is_none());
}

#[test]
fn log_type_memory_takes_the_memory_section() {
    let mut world = World::new();
    let memory = world.object(
        MEMORY_CLS,
        vec![
            ("getLogTtl", JValue::Long(30)),
            ("getMaxItems", World::null()),
            ("getMaxItemSize", World::null()),
        ],
    );
    let obj = world.log_config("MEMORY", JValue::Object(memory));
    let wrapper = JavaLogConfig::new(&world.cache, obj).unwrap().unwrap();
    let native = wrapper.as_cedarling_log_config(&world.env, &world.cache).unwrap();
    assert_eq!(
        native.log_type,
        LogTypeConfig::Memory(MemoryLogConfig { log_ttl: 30, max_items: None, max_item_size: None })
    );
    assert_eq!(native.log_level, LogLevel::INFO);

    // a memory section beside another type is read and not used
    let obj = world.log_config("OFF", JValue::Object(memory));
    let wrapper = JavaLogConfig::new(&world.cache, obj).unwrap().unwrap();
    let native = wrapper.as_cedarling_log_config(&world.env, &world.cache).unwrap();
    assert_eq!(native.log_type, LogTypeConfig::Off);
}

#[test]
fn log_section_needs_type_and_level() {
    let mut world = World::new();
    let level = world.named(LOG_LEVEL_CLS, "INFO");
    let obj = world.object(
        LOG_CLS,
        vec![
            ("getLogType", World::null()),
            ("getLogLevel", level),
            ("getMemoryLogConfiguration", World::null()),
        ],
    );
    let wrapper = JavaLogConfig::new(&world.cache, obj).unwrap().unwrap();
    let err = wrapper.as_cedarling_log_config(&world.env, &world.cache).unwrap_err();
    assert_eq!(field_error(&err), Some((LOG_CLS, "logType")));

    let kind = world.named(LOG_TYPE_CLS, "OFF");
    let obj = world.object(
        LOG_CLS,
        vec![
            ("getLogType", kind),
            ("getLogLevel", World::null()),
            ("getMemoryLogConfiguration", World::null()),
        ],
    );
    let wrapper = JavaLogConfig::new(&world.cache, obj).unwrap().unwrap();
    let err = wrapper.as_cedarling_log_config(&world.env, &world.cache).unwrap_err();
    assert_eq!(field_error(&err), Some((LOG_CLS, "logLevel")));
}

#[test]
fn json_rule_is_parsed() {
    let mut world = World::new();
    let text = world.text("{\"and\":[true,{\"var\":\"x\"}]}");
    let obj = world.object(RULE_CLS, vec![("getValue", text)]);
    let wrapper = JavaJsonRule::new(&world.cache, obj).unwrap().unwrap();
    let rule = wrapper.as_cedarling_json_rule(&world.env).unwrap();
    let expected: serde_json::Value =
        serde_json::from_str("{\"and\":[true,{\"var\":\"x\"}]}").unwrap();
    assert_eq!(rule.value, expected);
    assert_eq!(rule.value["and"][0], serde_json::Value::Bool(true));

    let text = world.text("{\"and\":");
    let obj = world.object(RULE_CLS, vec![("getValue", text)]);
    let wrapper = JavaJsonRule::new(&world.cache, obj).unwrap().unwrap();
    match wrapper.as_cedarling_json_rule(&world.env) {
        Err(CedarlingBridgeError::JsonError { additional_description, json_err }) => {
            assert_eq!(additional_description, "Parsing json rule failed");
            assert!(json_err.is_eof());
        },
        other => panic!("unexpected: {:?}", other),
    }
    let obj = world.object(RULE_CLS, vec![("getValue", World::null())]);
    let wrapper = JavaJsonRule::new(&world.cache, obj).unwrap().unwrap();
    let err = wrapper.as_cedarling_json_rule(&world.env).unwrap_err();
    assert_eq!(field_error(&err), Some((RULE_CLS, "value")));
}

#[test]
fn policy_store_section_reads_text_or_file_by_kind() {
    let mut world = World::new();
    let source = world.named(STORE_SOURCE_CLS, "YAML");
    let data = world.text("store: 1");
    let obj = world.object(
        STORE_CLS,
        vec![("getSource", source), ("getData", data), ("getDataPath", World::null())],
    );
    let wrapper = JavaPolicyStoreConfig::new(&world.cache, obj).unwrap().unwrap();
    let native = wrapper.as_cedarling_policy_store_config(&world.env, &world.cache).unwrap();
    assert_eq!(native.source, PolicyStoreSource::Yaml("store: 1".to_string()));

    let source = world.named(STORE_SOURCE_CLS, "FILEJSON");
    let path = world.text("/etc/store.json");
    let file = world.object(FILE_CLS, vec![("getAbsolutePath", path)]);
    let obj = world.object(
        STORE_CLS,
        vec![
            ("getSource", source),
            ("getData", World::null()),
            ("getDataPath", JValue::Object(file)),
        ],
    );
    let wrapper = JavaPolicyStoreConfig::new(&world.cache, obj).unwrap().unwrap();
    let native = wrapper.as_cedarling_policy_store_config(&world.env, &world.cache).unwrap();
    assert_eq!(native.source, PolicyStoreSource::FileJson("/etc/store.json".to_string()));
}

#[test]
fn policy_store_section_names_what_is_missing() {
    let mut world = World::new();
    let obj = world.object(
        STORE_CLS,
        vec![("getSource", World::null()), ("getData", World::null()), ("getDataPath", World::null())],
    );
    let wrapper = JavaPolicyStoreConfig::new(&world.cache, obj).unwrap().unwrap();
    let err = wrapper.as_cedarling_policy_store_config(&world.env, &world.cache).unwrap_err();
    assert_eq!(field_error(&err), Some((STORE_CLS, "source")));

    let source = world.named(STORE_SOURCE_CLS, "JSON");
    let obj = world.object(
        STORE_CLS,
        vec![("getSource", source), ("getData", World::null()), ("getDataPath", World::null())],
    );
    let wrapper = JavaPolicyStoreConfig::new(&world.cache, obj).unwrap().unwrap();
    let err = wrapper.as_cedarling_policy_store_config(&world.env, &world.cache).unwrap_err();
    assert_eq!(field_error(&err), Some((STORE_CLS, "data")));

    let source = world.named(STORE_SOURCE_CLS, "FILEYAML");
    let data = world.text("unused");
    let obj = world.object(
        STORE_CLS,
        vec![("getSource", source), ("getData", data), ("getDataPath", World::null())],
    );
    let wrapper = JavaPolicyStoreConfig::new(&world.cache, obj).unwrap().unwrap();
    let err = wrapper.as_cedarling_policy_store_config(&world.env, &world.cache).unwrap_err();
    assert_eq!(field_error(&err), Some((STORE_CLS, "dataPath")));

    let source = world.named(STORE_SOURCE_CLS, "FILEYAML");
    let file = world.object(FILE_CLS, vec![("getAbsolutePath", World::null())]);
    let obj = world.object(
        STORE_CLS,
        vec![
            ("getSource", source),
            ("getData", World::null()),
            ("getDataPath", JValue::Object(file)),
        ],
    );
    let wrapper = JavaPolicyStoreConfig::new(&world.cache, obj).unwrap().unwrap();
    let err = wrapper.as_cedarling_policy_store_config(&world.env, &world.cache).unwrap_err();
    assert_eq!(generic_text(&err), Some("Could not get policy store file path".to_string()));
}

#[test]
fn jwt_section_keeps_each_algorithm_once_in_order() {
    let mut world = World::new();
    let a = world.named(JWT_ALG_CLS, "RS256");
    let b = world.named(JWT_ALG_CLS, "HS256");
    let c = world.named(JWT_ALG_CLS, "RS256");
    let d = world.named(JWT_ALG_CLS, "EdDSA");
    let algorithms = world.list(vec![a, b, c, d]);
    let jwks = world.text("{\"keys\":[]}");
    let obj = world.object(
        JWT_CLS,
        vec![
            ("getJwks", jwks),
            ("getJwtCheckSignValidation", JValue::Bool(true)),
            ("getJwtCheckStatusValidation", JValue::Bool(false)),
            ("getSupportedSignatureAlgorithms", algorithms),
        ],
    );
    let wrapper = JavaJwtConfig::new(&world.cache, obj).unwrap().unwrap();
    let native = wrapper.as_cedarling_jwt_config(&world.env, &world.cache).unwrap();
    assert_eq!(native.jwks, Some("{\"keys\":[]}".to_string()));
    assert_eq!(native.jwt_sig_validation, true);
    assert_eq!(native.jwt_status_validation, false);
    assert_eq!(
        native.signature_algorithms_supported,
        vec![
            jsonwebtoken::Algorithm::RS256,
            jsonwebtoken::Algorithm::HS256,
            jsonwebtoken::Algorithm::EdDSA
        ]
    );
    assert_eq!(
        keep_distinct(&vec![
            jsonwebtoken::Algorithm::PS256,
            jsonwebtoken::Algorithm::PS256,
            jsonwebtoken::Algorithm::ES384,
            jsonwebtoken::Algorithm::PS256
        ]),
        vec![jsonwebtoken::Algorithm::PS256, jsonwebtoken::Algorithm::ES384]
    );
}

#[test]
fn jwt_section_without_key_set_still_converts() {
    let mut world = World::new();
    let algorithms = world.list(vec![]);
    let obj = world.object(
        JWT_CLS,
        vec![
            ("getJwks", World::null()),
            ("getJwtCheckSignValidation", JValue::Bool(false)),
            ("getJwtCheckStatusValidation", JValue::Bool(true)),
            ("getSupportedSignatureAlgorithms", algorithms),
        ],
    );
    let wrapper = JavaJwtConfig::new(&world.cache, obj).unwrap().unwrap();
    let native = wrapper.as_cedarling_jwt_config(&world.env, &world.cache).unwrap();
    assert_eq!(native.jwks, None);
    assert_eq!(native.jwt_sig_validation, false);
    assert_eq!(native.jwt_status_validation, true);
    assert!(native.signature_algorithms_supported.is_empty());
}

#[test]
fn jwt_section_fails_on_bad_algorithms() {
    let mut world = World::new();
    let a = world.named(JWT_ALG_CLS, "RS256");
    let algorithms = world.list(vec![a, World::null()]);
    let obj = world.object(
        JWT_CLS,
        vec![
            ("getJwks", World::null()),
            ("getJwtCheckSignValidation", JValue::Bool(false)),
            ("getJwtCheckStatusValidation", JValue::Bool(true)),
            ("getSupportedSignatureAlgorithms", algorithms),
        ],
    );
    let wrapper = JavaJwtConfig::new(&world.cache, obj).unwrap().unwrap();
    let err = wrapper.as_cedarling_jwt_config(&world.env, &world.cache).unwrap_err();
    assert_eq!(
        generic_text(&err),
        Some(
            "null value provided for jwt algorithm (field `supportedSignatureAlgorithms`, index 1)"
                .to_string()
        )
    );

    let a = world.named(JWT_ALG_CLS, "ROT13");
    let algorithms = world.list(vec![a]);
    let obj = world.object(
        JWT_CLS,
        vec![
            ("getJwks", World::null()),
            ("getJwtCheckSignValidation", JValue::Bool(false)),
            ("getJwtCheckStatusValidation", JValue::Bool(true)),
            ("getSupportedSignatureAlgorithms", algorithms),
        ],
    );
    let wrapper = JavaJwtConfig::new(&world.cache, obj).unwrap().unwrap();
    assert!(matches!(
        wrapper.as_cedarling_jwt_config(&world.env, &world.cache),
        Err(CedarlingBridgeError::UnknownEnumValue { .. })
    ));

    let obj = world.object(
        JWT_CLS,
        vec![
            ("getJwks", World::null()),
            ("getJwtCheckSignValidation", JValue::Bool(false)),
            ("getJwtCheckStatusValidation", JValue::Bool(true)),
            ("getSupportedSignatureAlgorithms", World::null()),
        ],
    );
    let wrapper = JavaJwtConfig::new(&world.cache, obj).unwrap().unwrap();
    let err = wrapper.as_cedarling_jwt_config(&world.env, &world.cache).unwrap_err();
    assert_eq!(field_error(&err), Some((JWT_CLS, "supportedSignatureAlgorithms")));
}

#[test]
fn lock_section_converts_with_optional_fields_absent() {
    let mut world = World::new();
    let obj = world.lock_config("https://lock.example.org", World::null(), World::null());
    let wrapper = JavaLockServiceConfig::new(&world.cache, obj).unwrap().unwrap();
    let native = wrapper.as_cedarling_lock_service_config(&world.env, &world.cache).unwrap();
    assert_eq!(native.log_level, LogLevel::WARN);
    assert_eq!(native.config_uri, url::Url::parse("https://lock.example.org").unwrap());
    assert_eq!(native.dynamic_config, true);
    assert_eq!(native.ssa_jwt, None);
    assert_eq!(native.log_interval, None);
    assert_eq!(native.health_interval, None);
    assert_eq!(native.telemetry_interval, None);
    assert_eq!(native.listen_sse, false);
    assert_eq!(native.accept_invalid_certs, true);
}

#[test]
fn lock_section_converts_with_optional_fields_present() {
    let mut world = World::new();
    let token = world.text("ssa");
    let interval = world.duration(5_000_000_000);
    let obj = world.lock_config("https://lock.example.org", token, interval);
    let wrapper = JavaLockServiceConfig::new(&world.cache, obj).unwrap().unwrap();
    let native = wrapper.as_cedarling_lock_service_config(&world.env, &world.cache).unwrap();
    assert_eq!(native.ssa_jwt, Some("ssa".to_string()));
    assert_eq!(native.log_interval, Some(Duration::from_secs(5)));
    assert_eq!(native.health_interval, None);
    assert_eq!(
        JavaLockServiceConfig::to_interval(&world.env, None).unwrap(),
        None
    );
}

#[test]
fn lock_section_needs_level_and_uri() {
    let mut world = World::new();
    let uri = world.named(URI_CLS, "https://lock.example.org");
    let obj = world.object(
        LOCK_CLS,
        vec![("getLogLevel", World::null()), ("getConfigUri", uri)],
    );
    let wrapper = JavaLockServiceConfig::new(&world.cache, obj).unwrap().unwrap();
    let err = wrapper.as_cedarling_lock_service_config(&world.env, &world.cache).unwrap_err();
    assert_eq!(field_error(&err), Some((LOCK_CLS, "logLevel")));

    let level = world.named(LOG_LEVEL_CLS, "WARN");
    let obj = world.object(
        LOCK_CLS,
        vec![("getLogLevel", level), ("getConfigUri", World::null())],
    );
    let wrapper = JavaLockServiceConfig::new(&world.cache, obj).unwrap().unwrap();
    let err = wrapper.as_cedarling_lock_service_config(&world.env, &world.cache).unwrap_err();
    assert_eq!(field_error(&err), Some((LOCK_CLS, "configUri")));

    // a field that the object does not answer for is a failure of the call
    let level = world.named(LOG_LEVEL_CLS, "WARN");
    let uri = world.named(URI_CLS, "https://lock.example.org");
    let obj = world.object(LOCK_CLS, vec![("getLogLevel", level), ("getConfigUri", uri)]);
    let wrapper = JavaLockServiceConfig::new(&world.cache, obj).unwrap().unwrap();
    assert!(matches!(
        wrapper.as_cedarling_lock_service_config(&world.env, &world.cache),
        Err(CedarlingBridgeError::Jni(JniError::CallFailed))
    ));
}

#[test]
fn authorization_section_converts() {
    let mut world = World::new();
    let mode = world.named(TRUST_MODE_CLS, "STRICT");
    let obj = world.authz_config(mode);
    let wrapper = JavaAuthorizationConfig::new(&world.cache, obj).unwrap().unwrap();
    let native = wrapper.as_cedarling_authz_config(&world.env, &world.cache).unwrap();
    assert_eq!(native.use_user_principal, true);
    assert_eq!(native.use_workload_principal, false);
    assert_eq!(native.decision_log_user_claims, vec!["sub", "email"]);
    assert_eq!(native.decision_log_workload_claims, vec!["client_id"]);
    assert_eq!(native.decision_log_default_jwt_id, "jti");
    assert_eq!(native.id_token_trust_mode, IdTokenTrustMode::Strict);
    let expected: serde_json::Value =
        serde_json::from_str("{\"===\":[{\"var\":\"Jans::User\"},\"ALLOW\"]}").unwrap();
    assert_eq!(native.principal_bool_operator.value, expected);
}

#[test]
fn configuration_without_trust_mode_names_the_field() {
    let mut world = World::new();
    let config = world.bootstrap(World::null(), World::null());
    let err = creation_input(&world.env, &world.cache, config).unwrap_err();
    assert_eq!(field_error(&err), Some((AUTHZ_CONFIG_CLS, "idTokenTrustMode")));
    assert_eq!(
        err.message(),
        "Field `idTokenTrustMode` in java class `io/jans/cedarling/bridge/config/AuthorizationConfiguration` cannot be null"
    );
}

#[test]
fn whole_configuration_converts() {
    let mut world = World::new();
    let mode = world.named(TRUST_MODE_CLS, "NEVER");
    let config = world.bootstrap(mode, World::null());
    let native = creation_input(&world.env, &world.cache, config).unwrap();
    assert_eq!(native.application_name, "app");
    assert_eq!(native.log_config.log_type, LogTypeConfig::StdOut);
    assert_eq!(native.log_config.log_level, LogLevel::INFO);
    assert_eq!(
        native.policy_store_config.source,
        PolicyStoreSource::Json("{\"store\":true}".to_string())
    );
    assert_eq!(native.jwt_config.jwks, None);
    assert_eq!(
        native.jwt_config.signature_algorithms_supported,
        vec![jsonwebtoken::Algorithm::HS256]
    );
    assert_eq!(native.authorization_config.id_token_trust_mode, IdTokenTrustMode::Never);
    assert_eq!(native.entity_builder_config.entity_names.user, "Jans::User");
    assert!(native.lock_config.is_none());

    let wrapper = JavaBootstrapConfig::new(&world.cache, config).unwrap().unwrap();
    let again = wrapper.as_cedarling_boostrap_config(&world.env, &world.cache).unwrap();
    assert_eq!(again, native);
}

#[test]
fn whole_configuration_takes_the_lock_section_if_there_is_one() {
    let mut world = World::new();
    let mode = world.named(TRUST_MODE_CLS, "ALWAYS");
    let token = world.text("ssa");
    let lock = world.lock_config("https://lock.example.org/x", token, World::null());
    let config = world.bootstrap(mode, JValue::Object(lock));
    let native = creation_input(&world.env, &world.cache, config).unwrap();
    let lock = native.lock_config.unwrap();
    assert_eq!(lock.config_uri.path(), "/x");
    assert_eq!(lock.ssa_jwt, Some("ssa".to_string()));
}

#[test]
fn null_configuration_is_refused() {
    let world = World::new();
    let err = creation_input(&world.env, &world.cache, JObject::null()).unwrap_err();
    assert_eq!(generic_text(&err), Some("Java BootstrapConfiguration cannot be null".to_string()));
}

#[test]
fn configuration_names_each_missing_section() {
    let mut world = World::new();
    let name = world.text("app");
    let only_name = world.object(
        BOOTSTRAP_CLS,
        vec![("getApplicationName", name), ("getLogConfiguration", World::null())],
    );
    let err = creation_input(&world.env, &world.cache, only_name).unwrap_err();
    assert_eq!(field_error(&err), Some((BOOTSTRAP_CLS, "logConfiguration")));
    let nothing = world.object(BOOTSTRAP_CLS, vec![("getApplicationName", World::null())]);
    let err = creation_input(&world.env, &world.cache, nothing).unwrap_err();
    assert_eq!(field_error(&err), Some((BOOTSTRAP_CLS, "applicationName")));
}

// ------------------------------------------------------------- the requests

#[test]
fn entity_mapping_and_entity_convert() {
    let mut world = World::new();
    let entity = match world.entity("Jans::Issue", "42", "{\"org\":\"acme\",\"n\":3}") {
        JValue::Object(obj) => obj,
        _ => unreachable!(),
    };
    let wrapper = JavaEntityData::new(&world.cache, entity).unwrap().unwrap();
    let native = wrapper.as_cedarling_entity_data(&world.env, &world.cache).unwrap();
    assert_eq!(native.cedar_mapping.entity_type, "Jans::Issue");
    assert_eq!(native.cedar_mapping.id, "42");
    assert_eq!(native.attributes.len(), 2);
    assert_eq!(native.attributes["org"], serde_json::Value::String("acme".to_string()));
    assert_eq!(native.attributes["n"], serde_json::Value::from(3));

    let mapping = wrapper.get_cedar_entity_mapping(&world.env, &world.cache).unwrap().unwrap();
    let native = mapping.as_cedarling_cedar_entity_mapping(&world.env).unwrap();
    assert_eq!(native.id, "42");
}

#[test]
fn entity_names_what_is_missing_or_malformed() {
    let mut world = World::new();
    let attributes = world.text("{}");
    let obj = world.object(
        ENTITY_CLS,
        vec![("getCedarMapping", World::null()), ("getAttributes", attributes)],
    );
    let wrapper = JavaEntityData::new(&world.cache, obj).unwrap().unwrap();
    let err = wrapper.as_cedarling_entity_data(&world.env, &world.cache).unwrap_err();
    assert_eq!(field_error(&err), Some((ENTITY_CLS, "cedar_mapping")));

    let id = world.text("1");
    let mapping = world.object(MAPPING_CLS, vec![("getId", id), ("getEntityType", World::null())]);
    let wrapper = JavaCedarEntityMapping::new(&world.cache, mapping).unwrap().unwrap();
    let err = wrapper.as_cedarling_cedar_entity_mapping(&world.env).unwrap_err();
    assert_eq!(field_error(&err), Some((MAPPING_CLS, "entity_type")));
    let mapping = world.object(MAPPING_CLS, vec![("getId", World::null())]);
    let wrapper = JavaCedarEntityMapping::new(&world.cache, mapping).unwrap().unwrap();
    let err = wrapper.as_cedarling_cedar_entity_mapping(&world.env).unwrap_err();
    assert_eq!(field_error(&err), Some((MAPPING_CLS, "id")));

    // attributes must be a JSON object
    let entity = match world.entity("T", "1", "[1,2]") {
        JValue::Object(obj) => obj,
        _ => unreachable!(),
    };
    let wrapper = JavaEntityData::new(&world.cache, entity).unwrap().unwrap();
    match wrapper.as_cedarling_entity_data(&world.env, &world.cache) {
        Err(CedarlingBridgeError::JsonError { additional_description, .. }) => {
            assert_eq!(additional_description, "Parsing authz request attributes failed")
        },
        other => panic!("unexpected: {:?}", other),
    }
    let id = world.text("1");
    let kind = world.text("T");
    let mapping = world.object(MAPPING_CLS, vec![("getId", id), ("getEntityType", kind)]);
    let obj = world.object(
        ENTITY_CLS,
        vec![("getCedarMapping", JValue::Object(mapping)), ("getAttributes", World::null())],
    );
    let wrapper = JavaEntityData::new(&world.cache, obj).unwrap().unwrap();
    let err = wrapper.as_cedarling_entity_data(&world.env, &world.cache).unwrap_err();
    assert_eq!(field_error(&err), Some((ENTITY_CLS, "attributes")));
}

#[test]
fn context_is_parsed_as_json() {
    let mut world = World::new();
    let context = match world.context("{\"ip\":\"10.0.0.1\"}") {
        JValue::Object(obj) => obj,
        _ => unreachable!(),
    };
    let wrapper = JavaContext::new(&world.cache, context).unwrap().unwrap();
    let native = wrapper.as_cedarling_context(&world.env).unwrap();
    assert_eq!(native["ip"], serde_json::Value::String("10.0.0.1".to_string()));

    let context = match world.context("{oops") {
        JValue::Object(obj) => obj,
        _ => unreachable!(),
    };
    let wrapper = JavaContext::new(&world.cache, context).unwrap().unwrap();
    let err = wrapper.as_cedarling_context(&world.env).unwrap_err();
    match &err {
        CedarlingBridgeError::JsonError { additional_description, json_err } => {
            assert_eq!(additional_description, "Parsing authz request context data failed");
            assert!(json_err.is_syntax());
        },
        other => panic!("unexpected: {:?}", other),
    }
    assert!(err
        .message()
        .starts_with("Json error: Parsing authz request context data failed. key must be a string"));
    let obj = world.object(CONTEXT_CLS, vec![("getData", World::null())]);
    let wrapper = JavaContext::new(&world.cache, obj).unwrap().unwrap();
    let err = wrapper.as_cedarling_context(&world.env).unwrap_err();
    assert_eq!(field_error(&err), Some((CONTEXT_CLS, "data")));
}

#[test]
fn signed_request_converts_to_those_exact_fields() {
    let mut world = World::new();
    let request = world.signed_request(vec![("access_token", "abc")], "View");
    let native = authorization_input(&world.env, &world.cache, request).unwrap();
    assert_eq!(native.tokens.get("access_token"), Some("abc".to_string()));
    assert_eq!(native.tokens.entries().len(), 1);
    assert_eq!(native.tokens.get("id_token"), None);
    assert_eq!(native.action, "View");
    assert_eq!(native.resource.cedar_mapping.entity_type, "App");
    assert_eq!(native.resource.cedar_mapping.id, "1");
    assert!(native.resource.attributes.is_empty());
    assert_eq!(native.context, serde_json::Value::Object(serde_json::Map::new()));

    let wrapper = JavaAuthorizeRequest::new(&world.cache, request).unwrap().unwrap();
    let again = wrapper.as_cedarling_authz_request(&world.env, &world.cache).unwrap();
    assert_eq!(again, native);
}

#[test]
fn signed_request_and_result_go_there_and_back() {
    let mut world = World::new();
    let request = world.signed_request(vec![("access_token", "abc")], "View");
    let native = authorization_input(&world.env, &world.cache, request).unwrap();
    assert_eq!(native.action, "View");

    // the engine is invoked; what it gives comes back
    let result = AuthorizeResult {
        workload: None,
        person: None,
        principals: vec![],
        decision: true,
        request_id: "r-1".to_string(),
    };
    let thrown_before: usize = world.env.thrown().len();
    let foreign = authorization_return(&mut world.env, &world.cache, Ok(result));
    assert!(!foreign.is_null());
    assert_eq!(world.env.thrown().len(), thrown_before);
    let decisions = world.calls_on(&foreign, RESULT_CLS, "setDecision");
    assert_eq!(decisions, vec![vec![JValue::Bool(true)]]);
    let ids = world.calls_on(&foreign, RESULT_CLS, "setRequestId");
    assert_eq!(ids.len(), 1);
    assert_eq!(world.string_of(&ids[0][0]), "r-1");
    assert_eq!(world.calls_on(&foreign, RESULT_CLS, "setWorkload"), vec![vec![World::null()]]);
    assert_eq!(world.calls_on(&foreign, RESULT_CLS, "setPerson"), vec![vec![World::null()]]);
    assert!(world.calls_on(&foreign, RESULT_CLS, "addPrincipal").is_empty());
    assert_eq!(world.calls_on(&foreign, RESULT_CLS, "<init>"), vec![Vec::<JValue>::new()]);
}

#[test]
fn tokens_are_read_in_the_order_of_their_names() {
    let mut world = World::new();
    let request =
        world.signed_request(vec![("access_token", "a"), ("id_token", "i"), ("access_token", "b")], "X");
    let wrapper = JavaAuthorizeRequest::new(&world.cache, request).unwrap().unwrap();
    let tokens = wrapper.get_tokens(&world.env, &world.cache).unwrap();
    let entries: Vec<(String, String)> = tokens.entries().clone();
    assert_eq!(
        entries,
        vec![
            ("access_token".to_string(), "a".to_string()),
            ("id_token".to_string(), "i".to_string()),
            ("access_token".to_string(), "b".to_string())
        ]
    );
    // a name that occurs twice keeps what came last
    assert_eq!(tokens.get("access_token"), Some("b".to_string()));
    assert_eq!(tokens.get("id_token"), Some("i".to_string()));
}

#[test]
fn token_map_keeps_the_last_value_of_a_name() {
    let mut tokens = TokenMap::new();
    assert_eq!(tokens.get("a"), None);
    tokens.insert("a".to_string(), "1".to_string());
    tokens.insert("b".to_string(), "2".to_string());
    tokens.insert("a".to_string(), "3".to_string());
    assert_eq!(tokens.get("a"), Some("3".to_string()));
    assert_eq!(tokens.get("b"), Some("2".to_string()));
    assert_eq!(tokens.get("c"), None);
}

#[test]
fn signed_request_names_what_is_missing() {
    let mut world = World::new();
    let err = authorization_input(&world.env, &world.cache, JObject::null()).unwrap_err();
    assert_eq!(generic_text(&err), Some("Java authz request cannot be null".to_string()));

    let request = world.object(REQUEST_CLS, vec![("getTokenNames", World::null())]);
    let err = authorization_input(&world.env, &world.cache, request).unwrap_err();
    assert_eq!(field_error(&err), Some((REQUEST_CLS, "tokens")));

    let names = world.list(vec![]);
    let request =
        world.object(REQUEST_CLS, vec![("getTokenNames", names), ("getAction", World::null())]);
    let err = authorization_input(&world.env, &world.cache, request).unwrap_err();
    assert_eq!(field_error(&err), Some((REQUEST_CLS, "action")));

    let names = world.list(vec![]);
    let action = world.text("View");
    let request = world.object(
        REQUEST_CLS,
        vec![("getTokenNames", names), ("getAction", action), ("getResource", World::null())],
    );
    let err = authorization_input(&world.env, &world.cache, request).unwrap_err();
    assert_eq!(field_error(&err), Some((REQUEST_CLS, "resource")));

    let names = world.list(vec![]);
    let action = world.text("View");
    let resource = world.entity("App", "1", "{}");
    let request = world.object(
        REQUEST_CLS,
        vec![
            ("getTokenNames", names),
            ("getAction", action),
            ("getResource", resource),
            ("getContext", World::null()),
        ],
    );
    let err = authorization_input(&world.env, &world.cache, request).unwrap_err();
    assert_eq!(field_error(&err), Some((REQUEST_CLS, "context")));
}

#[test]
fn signed_request_fails_on_null_token_names_and_values() {
    let mut world = World::new();
    let name = world.text("access_token");
    let names = world.list(vec![name, World::null()]);
    let request = world.object(REQUEST_CLS, vec![("getTokenNames", names)]);
    let get_token = world.method(REQUEST_CLS, "getToken", "(Ljava/lang/String;)Ljava/lang/String;");
    let value = world.text("abc");
    world.env.set_answer(&request, &get_token, &one_arg(name), value);
    let err = authorization_input(&world.env, &world.cache, request).unwrap_err();
    assert_eq!(
        generic_text(&err),
        Some("null token name in authorization request (field `tokens`, index 1)".to_string())
    );

    let name = world.text("id_token");
    let names = world.list(vec![name]);
    let request = world.object(REQUEST_CLS, vec![("getTokenNames", names)]);
    world.env.set_answer(&request, &get_token, &one_arg(name), World::null());
    let err = authorization_input(&world.env, &world.cache, request).unwrap_err();
    assert_eq!(
        generic_text(&err),
        Some("null value for token`id_token` in authorization request".to_string())
    );
}

#[test]
fn unsigned_request_converts_its_principals_in_order() {
    let mut world = World::new();
    let a = world.entity("User", "a", "{\"k\":1}");
    let b = world.entity("Workload", "b", "{}");
    let c = world.entity("User", "c", "{}");
    let principals = world.list(vec![a, b, c]);
    let action = world.text("Edit");
    let resource = world.entity("Doc", "9", "{}");
    let context = world.context("{\"now\":1}");
    let request = world.object(
        UNSIGNED_CLS,
        vec![
            ("getPrincipals", principals),
            ("getAction", action),
            ("getResource", resource),
            ("getContext", context),
        ],
    );
    let native = unsigned_authorization_input(&world.env, &world.cache, request).unwrap();
    let ids: Vec<&str> = native.principals.iter().map(|p| p.cedar_mapping.id.as_str()).collect();
    assert_eq!(ids, vec!["a", "b", "c"]);
    let kinds: Vec<&str> =
        native.principals.iter().map(|p| p.cedar_mapping.entity_type.as_str()).collect();
    assert_eq!(kinds, vec!["User", "Workload", "User"]);
    assert_eq!(native.principals[0].attributes["k"], serde_json::Value::from(1));
    assert_eq!(native.action, "Edit");
    assert_eq!(native.resource.cedar_mapping.id, "9");
    assert_eq!(native.context["now"], serde_json::Value::from(1));

    let wrapper = JavaAuthorizeRequestUnsigned::new(&world.cache, request).unwrap().unwrap();
    let again = wrapper.as_cedarling_authz_request_unsigned(&world.env, &world.cache).unwrap();
    assert_eq!(again, native);
}

#[test]
fn unsigned_request_with_a_null_principal_fails_as_a_whole() {
    let mut world = World::new();
    let a = world.entity("User", "a", "{}");
    let c = world.entity("User", "c", "{}");
    let principals = world.list(vec![a, World::null(), c]);
    let action = world.text("Edit");
    let resource = world.entity("Doc", "9", "{}");
    let context = world.context("{}");
    let request = world.object(
        UNSIGNED_CLS,
        vec![
            ("getPrincipals", principals),
            ("getAction", action),
            ("getResource", resource),
            ("getContext", context),
        ],
    );
    let err = unsigned_authorization_input(&world.env, &world.cache, request).unwrap_err();
    assert_eq!(
        generic_text(&err),
        Some(
            "null principal specified in unsigned authorization request (field `principals`, index 1)"
                .to_string()
        )
    );
    let wrapper = JavaAuthorizeRequestUnsigned::new(&world.cache, request).unwrap().unwrap();
    assert!(wrapper.get_cedarling_principals(&world.env, &world.cache).is_err());
}

#[test]
fn unsigned_request_names_what_is_missing() {
    let mut world = World::new();
    let err = unsigned_authorization_input(&world.env, &world.cache, JObject::null()).unwrap_err();
    assert_eq!(generic_text(&err), Some("Java unsigned authz request cannot be null".to_string()));
    let request = world.object(UNSIGNED_CLS, vec![("getPrincipals", World::null())]);
    let err = unsigned_authorization_input(&world.env, &world.cache, request).unwrap_err();
    assert_eq!(field_error(&err), Some((UNSIGNED_CLS, "principals")));
}

// -------------------------------------------------------------- the results

#[test]
fn policy_id_and_error_are_built_from_a_string() {
    let mut world = World::new();
    let id = "policy-7".to_string();
    let obj = JavaPolicyId::new(&world.cache, &id).unwrap().as_java_object(&mut world.env, &world.cache);
    let obj = obj.unwrap();
    let built = world.calls_on(&obj, POLICY_ID_CLS, "<init>");
    assert_eq!(built.len(), 1);
    assert_eq!(world.string_of(&built[0][0]), "policy-7");

    let report = "attribute `x` not found".to_string();
    let obj =
        JavaAuthzError::new(&world.cache, &report).unwrap().as_java_object(&mut world.env, &world.cache);
    let obj = obj.unwrap();
    let built = world.calls_on(&obj, ERROR_CLS, "<init>");
    assert_eq!(built.len(), 1);
    assert_eq!(world.string_of(&built[0][0]), "attribute `x` not found");
}

#[test]
fn diagnostics_add_policy_ids_and_errors_in_order() {
    let mut world = World::new();
    let diagnostics = Diagnostics {
        reason: vec!["p2".to_string(), "p1".to_string()],
        errors: vec!["e1".to_string(), "e2".to_string(), "e3".to_string()],
    };
    let wrapper = JavaDiagnostics::new(&world.cache, &diagnostics).unwrap();
    let obj = wrapper.as_java_object(&mut world.env, &world.cache).unwrap();
    assert_eq!(world.calls_on(&obj, DIAGNOSTICS_CLS, "<init>"), vec![Vec::<JValue>::new()]);
    let mut ids: Vec<String> = Vec::new();
    for args in world.calls_on(&obj, DIAGNOSTICS_CLS, "addPolicyId") {
        let built = match args[0] {
            JValue::Object(pid) => world.calls_on(&pid, POLICY_ID_CLS, "<init>"),
            _ => unreachable!(),
        };
        ids.push(world.string_of(&built[0][0]));
    }
    assert_eq!(ids, vec!["p2", "p1"]);
    let mut errors: Vec<String> = Vec::new();
    for args in world.calls_on(&obj, DIAGNOSTICS_CLS, "addError") {
        let built = match args[0] {
            JValue::Object(err) => world.calls_on(&err, ERROR_CLS, "<init>"),
            _ => unreachable!(),
        };
        errors.push(world.string_of(&built[0][0]));
    }
    assert_eq!(errors, vec!["e1", "e2", "e3"]);
    // every policy identifier is added before the first error
    let add_error = world.method(
        DIAGNOSTICS_CLS,
        "addError",
        "(Lio/jans/cedarling/bridge/cedar/policy/AuthzError;)V",
    );
    let add_policy_id = world.method(
        DIAGNOSTICS_CLS,
        "addPolicyId",
        "(Lio/jans/cedarling/bridge/cedar/policy/PolicyId;)V",
    );
    let calls = world.env.calls();
    let first_error: usize = calls.iter().position(|c| c.method == add_error).unwrap();
    let last_id: usize = calls.iter().rposition(|c| c.method == add_policy_id).unwrap();
    assert!(last_id < first_error);
}

#[test]
fn policy_response_is_built_from_its_parts() {
    let mut world = World::new();
    let native = response(Decision::Deny, vec!["p"], vec![]);
    let wrapper = JavaPolicyResponse::new(&world.cache, &native).unwrap();
    let obj = wrapper.as_java_object(&mut world.env, &world.cache).unwrap();
    let built = world.calls_on(
        &obj,
        RESPONSE_CLS,
        "<init>",
    );
    assert_eq!(built.len(), 1);
    assert_eq!(built[0][0], JValue::Object(world.deny));
    let diagnostics = match built[0][1] {
        JValue::Object(obj) => obj,
        _ => unreachable!(),
    };
    assert_eq!(world.calls_on(&diagnostics, DIAGNOSTICS_CLS, "addPolicyId").len(), 1);
    // the parts are built before the whole
    assert!(diagnostics.slot < obj.slot);
}

#[test]
fn result_is_built_with_its_decisions() {
    let mut world = World::new();
    let result = AuthorizeResult {
        workload: Some(response(Decision::Allow, vec!["w"], vec![])),
        person: Some(response(Decision::Deny, vec![], vec!["boom"])),
        principals: vec![
            PrincipalResponse { name: "Jans::User".to_string(), response: response(Decision::Deny, vec![], vec![]) },
            PrincipalResponse {
                name: "Jans::Workload".to_string(),
                response: response(Decision::Allow, vec![], vec![]),
            },
        ],
        decision: false,
        request_id: "r-2".to_string(),
    };
    let foreign = authorization_output(&mut world.env, &world.cache, &result).unwrap();

    let decision_of = |world: &World, value: &JValue| -> JValue {
        match value {
            JValue::Object(obj) => world.calls_on(obj, RESPONSE_CLS, "<init>")[0][0],
            _ => unreachable!(),
        }
    };
    let workload = world.calls_on(&foreign, RESULT_CLS, "setWorkload");
    assert_eq!(workload.len(), 1);
    assert_eq!(decision_of(&world, &workload[0][0]), JValue::Object(world.allow));
    let person = world.calls_on(&foreign, RESULT_CLS, "setPerson");
    assert_eq!(person.len(), 1);
    assert_eq!(decision_of(&world, &person[0][0]), JValue::Object(world.deny));

    let principals = world.calls_on(&foreign, RESULT_CLS, "addPrincipal");
    assert_eq!(principals.len(), 2);
    assert_eq!(world.string_of(&principals[0][0]), "Jans::User");
    assert_eq!(decision_of(&world, &principals[0][1]), JValue::Object(world.deny));
    assert_eq!(world.string_of(&principals[1][0]), "Jans::Workload");
    assert_eq!(decision_of(&world, &principals[1][1]), JValue::Object(world.allow));

    assert_eq!(world.calls_on(&foreign, RESULT_CLS, "setDecision"), vec![vec![JValue::Bool(false)]]);
    let ids = world.calls_on(&foreign, RESULT_CLS, "setRequestId");
    assert_eq!(world.string_of(&ids[0][0]), "r-2");

    // person, workload, principals, request identifier, decision: in this order
    let order: Vec<&str> = vec!["setPerson", "setWorkload", "addPrincipal", "setRequestId", "setDecision"];
    let mut last: usize = 0;
    for name in order {
        let method = world.method(RESULT_CLS, name, world.sig_of(RESULT_CLS, name));
        let at: usize = world
            .env
            .calls()
            .iter()
            .position(|c| c.object == foreign && c.method == method)
            .unwrap();
        assert!(at >= last, "{} is out of order", name);
        last = at;
    }

    let wrapper = JavaAuthorizeResult::new(&world.cache, &result).unwrap();
    let again = wrapper.as_java_object(&mut world.env, &world.cache).unwrap();
    assert_ne!(again, foreign);
}

#[test]
fn output_needs_the_handles_in_the_cache() {
    let mut world = World::new();
    let empty = JniCache::new();
    let result = AuthorizeResult {
        workload: None,
        person: None,
        principals: vec![],
        decision: true,
        request_id: "r".to_string(),
    };
    let objects_before: usize = world.env.calls().len();
    match authorization_output(&mut world.env, &empty, &result) {
        Err(CedarlingBridgeError::CachedInstanceMethodNotFound { class, method }) => {
            assert_eq!(class, RESULT_CLS);
            assert_eq!(method, "<init>");
        },
        other => panic!("unexpected: {:?}", other),
    }
    assert_eq!(world.env.calls().len(), objects_before);
    let id = "p".to_string();
    assert!(JavaPolicyId::new(&empty, &id).is_err());
    assert!(JavaAuthzError::new(&empty, &id).is_err());
    assert!(JavaAuthzDecision::as_java_object(&world.env, &empty, &Decision::Allow).is_err());
}

// -------------------------------------------------------- the entry points

#[test]
fn failed_authorization_raises_one_exception_and_returns_null() {
    let mut world = World::new();
    let failure = CedarlingBridgeError::CedarlingAuthError("policy store is empty".to_string());
    let calls_before: usize = world.env.calls().len();
    let ret = authorization_return(&mut world.env, &world.cache, Err(failure));
    assert!(ret.is_null());
    assert_eq!(world.env.calls().len(), calls_before);
    assert_eq!(world.env.thrown().len(), 1);
    assert_eq!(world.env.thrown()[0].class, AUTHZ_ERROR_CLS);
    assert_eq!(
        world.env.thrown()[0].message,
        "Cedarling authorization failed. policy store is empty"
    );

    let failure = CedarlingBridgeError::FieldCannotBeNull { field: "action", class: "C" };
    let ret = unsigned_authorization_return(&mut world.env, &world.cache, Err(failure));
    assert!(ret.is_null());
    assert_eq!(world.env.thrown().len(), 2);
    assert_eq!(
        world.env.thrown()[1].message,
        "Cedarling unsigned authorization failed. Field `action` in java class `C` cannot be null"
    );
}

#[test]
fn failed_input_is_reported_by_the_entry_point() {
    let mut world = World::new();
    let outcome = authorization_input(&world.env, &world.cache, JObject::null());
    let outcome = match outcome {
        Ok(_) => panic!("a null request converted"),
        Err(e) => Err(e),
    };
    let ret = authorization_return(&mut world.env, &world.cache, outcome);
    assert!(ret.is_null());
    assert_eq!(world.env.thrown().len(), 1);
    assert_eq!(
        world.env.thrown()[0].message,
        "Cedarling authorization failed. Java authz request cannot be null"
    );
}

#[test]
fn failed_output_is_reported_too() {
    let mut world = World::new();
    let empty = JniCache::new();
    let result = AuthorizeResult {
        workload: None,
        person: None,
        principals: vec![],
        decision: true,
        request_id: "r".to_string(),
    };
    let ret = unsigned_authorization_return(&mut world.env, &empty, Ok(result));
    assert!(ret.is_null());
    assert_eq!(world.env.thrown().len(), 1);
    assert_eq!(world.env.thrown()[0].class, AUTHZ_ERROR_CLS);
    assert_eq!(
        world.env.thrown()[0].message,
        "Cedarling unsigned authorization failed. Instance method `<init>` not found in cache for class `io/jans/cedarling/bridge/authz/AuthorizeResult`"
    );
}

#[test]
fn creation_and_cleanup_report_their_failures() {
    let mut world = World::new();
    creation_return(&mut world.env, Ok(()));
    cleanup_return(&mut world.env, Ok(()));
    assert!(world.env.thrown().is_empty());

    creation_return(
        &mut world.env,
        Err(CedarlingBridgeError::GenericError("bad policy store".to_string())),
    );
    assert_eq!(world.env.thrown().len(), 1);
    assert_eq!(world.env.thrown()[0].class, CONFIG_ERROR_CLS);
    assert_eq!(
        world.env.thrown()[0].message,
        "Could not create rust cedarling instance. bad policy store"
    );
    cleanup_return(
        &mut world.env,
        Err(CedarlingBridgeError::GenericError("no instance".to_string())),
    );
    assert_eq!(world.env.thrown().len(), 2);
    assert_eq!(world.env.thrown()[1].class, GENERAL_ERROR_CLS);
    assert_eq!(
        world.env.thrown()[1].message,
        "Could not release cedarling rust resources. no instance"
    );
}

#[test]
fn an_exception_of_an_unknown_class_is_not_raised() {
    let mut env = JavaEnv::new();
    match throw_cedarling_error(&mut env, "x") {
        Err(CedarlingBridgeError::Jni(JniError::ClassNotFound(name))) => {
            assert_eq!(name, GENERAL_ERROR_CLS)
        },
        other => panic!("unexpected: {:?}", other),
    }
    assert!(env.thrown().is_empty());
    creation_return(&mut env, Err(CedarlingBridgeError::GenericError("x".to_string())));
    assert!(env.thrown().is_empty());
}

// ------------------------------------------------------------- the runtime

#[test]
fn runtime_resolves_what_was_declared() {
    let mut env = JavaEnv::new();
    assert!(matches!(env.find_class("a/B"), Err(JniError::ClassNotFound(_))));
    let cls = env.define_class("a/B");
    assert_eq!(env.define_class("a/B"), cls);
    assert_eq!(env.find_class("a/B").unwrap(), cls);
    assert!(matches!(env.get_method_id("a/B", "m", "()V"), Err(JniError::MethodNotFound { .. })));
    assert!(matches!(env.get_method_id("a/C", "m", "()V"), Err(JniError::ClassNotFound(_))));
    let method = env.define_method(&cls, "m", "()V");
    assert_eq!(env.get_method_id("a/B", "m", "()V").unwrap(), method);
    let other = env.define_class("a/C");
    assert!(env.get_method_id("a/C", "m", "()V").is_err());
    let value = env.new_instance(&cls);
    let field = env.define_static_field(&cls, "F", "La/B;", &value);
    assert_eq!(env.get_static_field_id("a/B", "F", "La/B;").unwrap(), field);
    assert_eq!(env.get_static_field(&cls, &field).unwrap(), value);
    assert!(matches!(env.get_static_field(&other, &field), Err(JniError::InvalidReference)));
    let global = env.new_global_ref(&cls);
    assert_eq!(env.new_local_ref(&global).unwrap(), cls);
}

#[test]
fn runtime_records_constructions_and_calls() {
    let mut env = JavaEnv::new();
    let cls = env.define_class("a/B");
    let other = env.define_class("a/C");
    let ctor = env.define_method(&cls, "<init>", "(I)V");
    let set = env.define_method(&cls, "set", "(Z)V");
    assert!(env.calls().is_empty());
    let obj = env.new_object(&cls, &ctor, &one_arg(JValue::Int(5))).unwrap();
    assert!(!obj.is_null());
    env.call_void_method(&obj, &set, &one_arg(JValue::Bool(true))).unwrap();
    assert_eq!(env.calls().len(), 2);
    assert_eq!(env.calls()[0].object, obj);
    assert_eq!(env.calls()[0].method, ctor);
    assert_eq!(env.calls()[0].args, vec![JValue::Int(5)]);
    assert_eq!(env.calls()[1].method, set);
    assert_eq!(env.calls()[1].args, vec![JValue::Bool(true)]);

    // a constructor of another class, and a mutator on nothing, change nothing
    assert!(matches!(env.new_object(&other, &ctor, &no_args()), Err(JniError::InvalidReference)));
    assert!(matches!(
        env.call_void_method(&JObject::null(), &set, &no_args()),
        Err(JniError::NullPtr)
    ));
    assert!(matches!(
        env.call_void_method(&JObject { slot: 99 }, &set, &no_args()),
        Err(JniError::InvalidReference)
    ));
    assert_eq!(env.calls().len(), 2);
    let text = env.new_string("t");
    assert_eq!(env.get_string(&text).unwrap(), "t");
    assert!(matches!(env.get_string(&obj), Err(JniError::WrongValueType)));
    assert!(matches!(env.get_string(&JObject::null()), Err(JniError::NullPtr)));
}

#[test]
fn signatures_say_what_is_taken_and_returned() {
    assert_eq!(return_kind("()V"), ReturnKind::Void);
    assert_eq!(return_kind("()Z"), ReturnKind::Bool);
    assert_eq!(return_kind("()I"), ReturnKind::Int);
    assert_eq!(return_kind("()J"), ReturnKind::Long);
    assert_eq!(return_kind("(I)Ljava/lang/Object;"), ReturnKind::Object("java/lang/Object".to_string()));
    assert_eq!(
        return_kind("(Ljava/lang/String;)Ljava/lang/String;"),
        ReturnKind::Object("java/lang/String".to_string())
    );
    assert_eq!(return_kind("Lio/jans/X;"), ReturnKind::Object("io/jans/X".to_string()));
    assert_eq!(return_kind("()D"), ReturnKind::Other);
    assert_eq!(return_kind("()[I"), ReturnKind::Other);
    assert_eq!(return_kind("()"), ReturnKind::Other);
    assert_eq!(return_kind(""), ReturnKind::Other);
    assert_eq!(return_kind("()L;"), ReturnKind::Object(String::new()));
    assert!(takes_nothing("()V"));
    assert!(takes_nothing("()Ljava/util/List;"));
    assert!(!takes_nothing("(I)V"));
    assert!(!takes_nothing("("));
    assert!(!takes_nothing(""));
    assert!(is_accessor("()Z"));
    assert!(is_accessor("()Ljava/util/List;"));
    assert!(!is_accessor("()V"));
    assert!(!is_accessor("(I)Z"));
    assert_eq!(names_accessor("getToken"), "getTokenNames");
    assert!(takes_one_string("(Ljava/lang/String;)Ljava/lang/String;"));
    assert!(takes_one_string("(Ljava/lang/String;)V"));
    assert!(!takes_one_string("(Ljava/lang/String;I)V"));
    assert!(!takes_one_string("()V"));
}
