//! The converter of the token validation section.

use crate::config::jwt_algorithm::{JavaJwtAlgorithm, distinct, keep_distinct};
use crate::config::jwt_algorithm::lemma_distinct_is_a_set;
use crate::engine::config::{JwtConfig, JwtConfigView};
use crate::error::{CedarlingBridgeError, CedarlingBridgeErrorView, is_result, is_result_of, misses};
use crate::jni::env::{JMethodID, JObject, JavaEnv, JavaEnvView};
use crate::jni::jni_cache::{JniCache, JniCacheView, Registration};
use crate::jni::list::JavaList;
use crate::jni::util::{bool_result, call_jni_bool_method, call_jni_object_method};
use crate::jni::util::{call_jni_string_method, lemma_reads_never_miss};
use crate::jni::util::{lemma_registered_never_misses, no_args, null_element, null_element_error};
use crate::jni::util::{object_result, require_some, required_of, string_result};
use vstd::prelude::*;

verus! {

pub const JAVA_CLS_NAME: &'static str = "io/jans/cedarling/bridge/config/JwtConfiguration";

pub const JAVA_METHOD_NAME_GET_JWKS: &'static str = "getJwks";

pub const JAVA_METHOD_SIG_GET_JWKS: &'static str = "()Ljava/lang/String;";

pub const JAVA_METHOD_NAME_GET_JWT_CHECK_SIGN_VALIDATION: &'static str =
    "getJwtCheckSignValidation";

pub const JAVA_METHOD_SIG_GET_JWT_CHECK_SIGN_VALIDATION: &'static str = "()Z";

pub const JAVA_METHOD_NAME_GET_JWT_CHECK_STATUS_VALIDATION: &'static str =
    "getJwtCheckStatusValidation";

pub const JAVA_METHOD_SIG_GET_JWT_CHECK_STATUS_VALIDATION: &'static str = "()Z";

pub const JAVA_METHOD_NAME_GET_SUPPORTED_SIGNATURE_ALGORITHMS: &'static str =
    "getSupportedSignatureAlgorithms";

pub const JAVA_METHOD_SIG_GET_SUPPORTED_SIGNATURE_ALGORITHMS: &'static str = "()Ljava/util/List;";

pub const ALGORITHMS_FIELD: &'static str = "supportedSignatureAlgorithms";

pub const NULL_ALGORITHM: &'static str = "null value provided for jwt algorithm";

/// A foreign token validation section with the handles that read it.
#[derive(Clone, Copy, Debug)]
pub struct JavaJwtConfig {
    pub jobj: JObject,
    pub get_jwks_method: JMethodID,
    pub get_jwt_check_sign_validation_method: JMethodID,
    pub get_jwt_check_status_validation_method: JMethodID,
    pub get_supported_signature_algorithms_method: JMethodID,
}

impl JavaJwtConfig {
    /// What this converter registers: its class, then each of its methods.
    pub open spec fn registration(reg: Registration, env: JavaEnvView) -> Registration {
        reg.class(env, JAVA_CLS_NAME@)
            .method(
                env,
                JAVA_CLS_NAME@,
                JAVA_METHOD_NAME_GET_JWKS@,
                JAVA_METHOD_SIG_GET_JWKS@,
            )
            .method(
                env,
                JAVA_CLS_NAME@,
                JAVA_METHOD_NAME_GET_JWT_CHECK_SIGN_VALIDATION@,
                JAVA_METHOD_SIG_GET_JWT_CHECK_SIGN_VALIDATION@,
            )
            .method(
                env,
                JAVA_CLS_NAME@,
                JAVA_METHOD_NAME_GET_JWT_CHECK_STATUS_VALIDATION@,
                JAVA_METHOD_SIG_GET_JWT_CHECK_STATUS_VALIDATION@,
            )
            .method(
                env,
                JAVA_CLS_NAME@,
                JAVA_METHOD_NAME_GET_SUPPORTED_SIGNATURE_ALGORITHMS@,
                JAVA_METHOD_SIG_GET_SUPPORTED_SIGNATURE_ALGORITHMS@,
            )
    }

    /// Registers the class and its methods; stops at the first that the
    /// runtime cannot resolve.
    pub fn jni_cache_init(env: &JavaEnv, cache: &mut JniCache) -> (res: Result<
        (),
        CedarlingBridgeError,
    >)
        ensures
            Self::registration(Registration::start(old(cache)@), env@).is_outcome(
                res,
                final(cache)@,
            ),
    {
        cache.add_class(env, JAVA_CLS_NAME)?;
        cache.add_instance_method(
            env,
            JAVA_CLS_NAME,
            JAVA_METHOD_NAME_GET_JWKS,
            JAVA_METHOD_SIG_GET_JWKS,
        )?;
        cache.add_instance_method(
            env,
            JAVA_CLS_NAME,
            JAVA_METHOD_NAME_GET_JWT_CHECK_SIGN_VALIDATION,
            JAVA_METHOD_SIG_GET_JWT_CHECK_SIGN_VALIDATION,
        )?;
        cache.add_instance_method(
            env,
            JAVA_CLS_NAME,
            JAVA_METHOD_NAME_GET_JWT_CHECK_STATUS_VALIDATION,
            JAVA_METHOD_SIG_GET_JWT_CHECK_STATUS_VALIDATION,
        )?;
        cache.add_instance_method(
            env,
            JAVA_CLS_NAME,
            JAVA_METHOD_NAME_GET_SUPPORTED_SIGNATURE_ALGORITHMS,
            JAVA_METHOD_SIG_GET_SUPPORTED_SIGNATURE_ALGORITHMS,
        )
    }

    /// What wrapping a foreign object gives: nothing for the null reference,
    /// else the object with its handles from the cache, or the report of the
    /// first handle that the cache does not hold.
    pub open spec fn wrapped(cache: JniCacheView, jobj: JObject) -> Result<
        Option<JavaJwtConfig>,
        CedarlingBridgeErrorView,
    > {
        if jobj.is_null() {
            Ok(None)
        } else {
            match cache.method(
                JAVA_CLS_NAME@,
                JAVA_METHOD_NAME_GET_JWKS@,
                JAVA_METHOD_SIG_GET_JWKS@,
            ) {
                Err(e) => Err(e),
                Ok(get_jwks_method) => match cache.method(
                    JAVA_CLS_NAME@,
                    JAVA_METHOD_NAME_GET_JWT_CHECK_SIGN_VALIDATION@,
                    JAVA_METHOD_SIG_GET_JWT_CHECK_SIGN_VALIDATION@,
                ) {
                    Err(e) => Err(e),
                    Ok(get_jwt_check_sign_validation_method) => match cache.method(
                        JAVA_CLS_NAME@,
                        JAVA_METHOD_NAME_GET_JWT_CHECK_STATUS_VALIDATION@,
                        JAVA_METHOD_SIG_GET_JWT_CHECK_STATUS_VALIDATION@,
                    ) {
                        Err(e) => Err(e),
                        Ok(get_jwt_check_status_validation_method) => match cache.method(
                            JAVA_CLS_NAME@,
                            JAVA_METHOD_NAME_GET_SUPPORTED_SIGNATURE_ALGORITHMS@,
                            JAVA_METHOD_SIG_GET_SUPPORTED_SIGNATURE_ALGORITHMS@,
                        ) {
                            Err(e) => Err(e),
                            Ok(get_supported_signature_algorithms_method) => Ok(
                                Some(
                                    JavaJwtConfig {
                                        jobj,
                                        get_jwks_method,
                                        get_jwt_check_sign_validation_method,
                                        get_jwt_check_status_validation_method,
                                        get_supported_signature_algorithms_method,
                                    },
                                ),
                            ),
                        },
                    },
                },
            }
        }
    }

    /// Wraps a foreign object.
    pub fn new(cache: &JniCache, jobj: JObject) -> (res: Result<
        Option<JavaJwtConfig>,
        CedarlingBridgeError,
    >)
        ensures
            is_result(res, Self::wrapped(cache@, jobj)),
    {
        if jobj.is_null() {
            return Ok(None);
        }
        let get_jwks_key = (
            JAVA_CLS_NAME,
            JAVA_METHOD_NAME_GET_JWKS,
            JAVA_METHOD_SIG_GET_JWKS,
        );
        let get_jwt_check_sign_validation_key = (
            JAVA_CLS_NAME,
            JAVA_METHOD_NAME_GET_JWT_CHECK_SIGN_VALIDATION,
            JAVA_METHOD_SIG_GET_JWT_CHECK_SIGN_VALIDATION,
        );
        let get_jwt_check_status_validation_key = (
            JAVA_CLS_NAME,
            JAVA_METHOD_NAME_GET_JWT_CHECK_STATUS_VALIDATION,
            JAVA_METHOD_SIG_GET_JWT_CHECK_STATUS_VALIDATION,
        );
        let get_supported_signature_algorithms_key = (
            JAVA_CLS_NAME,
            JAVA_METHOD_NAME_GET_SUPPORTED_SIGNATURE_ALGORITHMS,
            JAVA_METHOD_SIG_GET_SUPPORTED_SIGNATURE_ALGORITHMS,
        );
        Ok(
            Some(
                JavaJwtConfig {
                    jobj: jobj,
                    get_jwks_method: cache.get_instance_method(&get_jwks_key)?,
                    get_jwt_check_sign_validation_method: cache.get_instance_method(
                        &get_jwt_check_sign_validation_key,
                    )?,
                    get_jwt_check_status_validation_method: cache.get_instance_method(
                        &get_jwt_check_status_validation_key,
                    )?,
                    get_supported_signature_algorithms_method: cache.get_instance_method(
                        &get_supported_signature_algorithms_key,
                    )?,
                },
            ),
        )
    }

    /// What asking the object for `getJwks` gives.
    pub open spec fn spec_get_jwks(self, env: JavaEnvView) -> Result<
        Option<Seq<char>>,
        CedarlingBridgeErrorView,
    > {
        string_result(env, self.jobj, self.get_jwks_method, Seq::empty())
    }

    /// Asks the object for `getJwks`.
    pub fn get_jwks(&self, env: &JavaEnv) -> (res: Result<
        Option<String>,
        CedarlingBridgeError,
    >)
        ensures
            is_result_of(res, self.spec_get_jwks(env@)),
    {
        call_jni_string_method(env, &self.jobj, &self.get_jwks_method, &no_args())
    }

    /// What asking the object for `getJwtCheckSignValidation` gives.
    pub open spec fn spec_get_jwt_check_sign_validation(self, env: JavaEnvView) -> Result<
        bool,
        CedarlingBridgeErrorView,
    > {
        bool_result(env, self.jobj, self.get_jwt_check_sign_validation_method, Seq::empty())
    }

    /// Asks the object for `getJwtCheckSignValidation`.
    pub fn get_jwt_check_sign_validation(&self, env: &JavaEnv) -> (res: Result<
        bool,
        CedarlingBridgeError,
    >)
        ensures
            is_result(res, self.spec_get_jwt_check_sign_validation(env@)),
    {
        call_jni_bool_method(
            env,
            &self.jobj,
            &self.get_jwt_check_sign_validation_method,
            &no_args(),
        )
    }

    /// What asking the object for `getJwtCheckStatusValidation` gives.
    pub open spec fn spec_get_jwt_check_status_validation(self, env: JavaEnvView) -> Result<
        bool,
        CedarlingBridgeErrorView,
    > {
        bool_result(env, self.jobj, self.get_jwt_check_status_validation_method, Seq::empty())
    }

    /// Asks the object for `getJwtCheckStatusValidation`.
    pub fn get_jwt_check_status_validation(&self, env: &JavaEnv) -> (res: Result<
        bool,
        CedarlingBridgeError,
    >)
        ensures
            is_result(res, self.spec_get_jwt_check_status_validation(env@)),
    {
        call_jni_bool_method(
            env,
            &self.jobj,
            &self.get_jwt_check_status_validation_method,
            &no_args(),
        )
    }

    /// What asking the object for `getSupportedSignatureAlgorithms` gives: the object that
    /// comes back, wrapped.
    pub open spec fn spec_get_supported_signature_algorithms(
        self,
        env: JavaEnvView,
        cache: JniCacheView,
    ) -> Result<
        Option<JavaList>,
        CedarlingBridgeErrorView,
    > {
        match object_result(
            env,
            self.jobj,
            self.get_supported_signature_algorithms_method,
            Seq::empty(),
        ) {
            Err(e) => Err(e),
            Ok(obj) => JavaList::wrapped(cache, obj),
        }
    }

    /// Asks the object for `getSupportedSignatureAlgorithms`.
    pub fn get_supported_signature_algorithms(
        &self,
        env: &JavaEnv,
        cache: &JniCache,
    ) -> (res: Result<
        Option<JavaList>,
        CedarlingBridgeError,
    >)
        ensures
            is_result(res, self.spec_get_supported_signature_algorithms(env@, cache@)),
    {
        let obj = call_jni_object_method(
            env,
            &self.jobj,
            &self.get_supported_signature_algorithms_method,
            &no_args(),
        )?;
        JavaList::new(cache, obj)
    }


    /// The algorithm that an element of the list stands for: the element
    /// must not be null and must have a name, and the name must be known.
    pub open spec fn algorithm_of(
        env: JavaEnvView,
        cache: JniCacheView,
        index: i32,
        alg_obj: JObject,
    ) -> Result<jsonwebtoken::Algorithm, CedarlingBridgeErrorView> {
        match JavaJwtAlgorithm::name_of_object(env, cache, alg_obj) {
            Err(e) => Err(e),
            Ok(None) => Err(null_element(NULL_ALGORITHM@, ALGORITHMS_FIELD@, index)),
            Ok(Some(name)) => JavaJwtAlgorithm::decoded(name),
        }
    }

    /// The conversion of one element of the list of algorithms.
    pub open spec fn algorithm_converter(env: JavaEnvView, cache: JniCacheView) -> spec_fn(
        i32,
        JObject,
    ) -> Result<jsonwebtoken::Algorithm, CedarlingBridgeErrorView> {
        |index: i32, alg_obj: JObject| Self::algorithm_of(env, cache, index, alg_obj)
    }

    /// Converts one element of the list of algorithms.
    pub fn to_algorithm(
        &self,
        env: &JavaEnv,
        cache: &JniCache,
        alg_obj: JObject,
        index: i32,
    ) -> (res:
        Result<jsonwebtoken::Algorithm, CedarlingBridgeError>)
        ensures
            is_result(res, Self::algorithm_of(env@, cache@, index, alg_obj)),
    {
        match JavaJwtAlgorithm::from_jni_object(env, cache, alg_obj)? {
            Some(algorithm) => algorithm.as_enum(),
            None => Err(null_element_error(NULL_ALGORITHM, ALGORITHMS_FIELD, index)),
        }
    }

    /// The native token validation section that the object stands for. The
    /// key set may be absent; the list of algorithms is required, each of
    /// its elements is decoded in the order of the list, and what is named
    /// more than once is kept once.
    pub open spec fn converted(self, env: JavaEnvView, cache: JniCacheView) -> Result<
        JwtConfigView,
        CedarlingBridgeErrorView,
    > {
        match self.spec_get_jwks(env) {
            Err(e) => Err(e),
            Ok(jwks) => match self.spec_get_jwt_check_sign_validation(env) {
                Err(e) => Err(e),
                Ok(jwt_sig_validation) => match self.spec_get_jwt_check_status_validation(env) {
                    Err(e) => Err(e),
                    Ok(jwt_status_validation) => match required_of(
                        self.spec_get_supported_signature_algorithms(env, cache),
                        JAVA_CLS_NAME@,
                        ALGORITHMS_FIELD@,
                    ) {
                        Err(e) => Err(e),
                        Ok(list) => match list.collect(env, Self::algorithm_converter(env, cache)) {
                            Err(e) => Err(e),
                            Ok(named) => Ok(
                                JwtConfigView {
                                    jwks,
                                    jwt_sig_validation,
                                    jwt_status_validation,
                                    signature_algorithms_supported: distinct(named),
                                },
                            ),
                        },
                    },
                },
            },
        }
    }

    /// Converts the token validation section.
    #[verifier::loop_isolation(false)]
    pub fn as_cedarling_jwt_config(&self, env: &JavaEnv, cache: &JniCache) -> (res: Result<
        JwtConfig,
        CedarlingBridgeError,
    >)
        ensures
            is_result_of(res, self.converted(env@, cache@)),
            res matches Ok(section) ==> section.deep_view().wf(),
    {
        let jwks = self.get_jwks(env)?;
        let jwt_sig_validation = self.get_jwt_check_sign_validation(env)?;
        let jwt_status_validation = self.get_jwt_check_status_validation(env)?;
        let supported_algs = require_some(
            self.get_supported_signature_algorithms(env, cache)?,
            JAVA_CLS_NAME,
            ALGORITHMS_FIELD,
        )?;
        let supported_algs_count = supported_algs.size(env)?;
        let ghost convert = Self::algorithm_converter(env@, cache@);
        let mut named: Vec<jsonwebtoken::Algorithm> = Vec::new();
        let mut i: i32 = 0;
        proof {
            supported_algs.lemma_progress_start(env@, convert, supported_algs_count);
        }
        while i < supported_algs_count
            invariant
                0 <= i,
                supported_algs.is_progress(env@, convert, supported_algs_count, i as int, named@),
            decreases supported_algs_count - i,
        {
            let tmp_alg = supported_algs.get(env, i)?;
            let alg = self.to_algorithm(env, cache, tmp_alg, i)?;
            proof {
                supported_algs.lemma_progress_step(
                    env@,
                    convert,
                    supported_algs_count,
                    i as int,
                    named@,
                    tmp_alg,
                    alg,
                );
            }
            named.push(alg);
            i += 1;
        }
        proof {
            supported_algs.lemma_progress_end(
                env@,
                convert,
                supported_algs_count,
                i as int,
                named@,
            );
        }
        proof {
            lemma_distinct_is_a_set(named@);
        }
        Ok(
            JwtConfig {
                jwks: jwks,
                jwt_sig_validation: jwt_sig_validation,
                jwt_status_validation: jwt_status_validation,
                signature_algorithms_supported: keep_distinct(&named),
            },
        )
    }

    /// Whether the cache holds the class of this converter and every one of
    /// its handles.
    pub open spec fn is_registered(cache: JniCacheView) -> bool {
        &&& cache.classes.contains_key(JAVA_CLS_NAME@)
        &&& cache.methods.contains_key(
            (JAVA_CLS_NAME@, JAVA_METHOD_NAME_GET_JWKS@, JAVA_METHOD_SIG_GET_JWKS@),
        )
        &&& cache.methods.contains_key(
            (JAVA_CLS_NAME@, JAVA_METHOD_NAME_GET_JWT_CHECK_SIGN_VALIDATION@, JAVA_METHOD_SIG_GET_JWT_CHECK_SIGN_VALIDATION@),
        )
        &&& cache.methods.contains_key(
            (JAVA_CLS_NAME@, JAVA_METHOD_NAME_GET_JWT_CHECK_STATUS_VALIDATION@, JAVA_METHOD_SIG_GET_JWT_CHECK_STATUS_VALIDATION@),
        )
        &&& cache.methods.contains_key(
            (JAVA_CLS_NAME@, JAVA_METHOD_NAME_GET_SUPPORTED_SIGNATURE_ALGORITHMS@, JAVA_METHOD_SIG_GET_SUPPORTED_SIGNATURE_ALGORITHMS@),
        )
    }

    /// A run that has gone through the registration of this converter
    /// without a failure holds every one of its handles, and has dropped
    /// nothing that it held before.
    pub proof fn lemma_registration_holds(reg: Registration, env: JavaEnvView)
        ensures
            Self::registration(reg, env).continues(reg),
            Self::registration(reg, env).failure is None ==> Self::is_registered(
                Self::registration(reg, env).cache,
            ),
    {
        let r0 = reg.class(env, JAVA_CLS_NAME@);
        reg.lemma_class_is_held(env, JAVA_CLS_NAME@);
        let r1 = r0.method(
            env,
            JAVA_CLS_NAME@,
            JAVA_METHOD_NAME_GET_JWKS@,
            JAVA_METHOD_SIG_GET_JWKS@,
        );
        r0.lemma_method_is_held(
            env,
            JAVA_CLS_NAME@,
            JAVA_METHOD_NAME_GET_JWKS@,
            JAVA_METHOD_SIG_GET_JWKS@,
        );
        let r2 = r1.method(
            env,
            JAVA_CLS_NAME@,
            JAVA_METHOD_NAME_GET_JWT_CHECK_SIGN_VALIDATION@,
            JAVA_METHOD_SIG_GET_JWT_CHECK_SIGN_VALIDATION@,
        );
        r1.lemma_method_is_held(
            env,
            JAVA_CLS_NAME@,
            JAVA_METHOD_NAME_GET_JWT_CHECK_SIGN_VALIDATION@,
            JAVA_METHOD_SIG_GET_JWT_CHECK_SIGN_VALIDATION@,
        );
        let r3 = r2.method(
            env,
            JAVA_CLS_NAME@,
            JAVA_METHOD_NAME_GET_JWT_CHECK_STATUS_VALIDATION@,
            JAVA_METHOD_SIG_GET_JWT_CHECK_STATUS_VALIDATION@,
        );
        r2.lemma_method_is_held(
            env,
            JAVA_CLS_NAME@,
            JAVA_METHOD_NAME_GET_JWT_CHECK_STATUS_VALIDATION@,
            JAVA_METHOD_SIG_GET_JWT_CHECK_STATUS_VALIDATION@,
        );
        let r4 = r3.method(
            env,
            JAVA_CLS_NAME@,
            JAVA_METHOD_NAME_GET_SUPPORTED_SIGNATURE_ALGORITHMS@,
            JAVA_METHOD_SIG_GET_SUPPORTED_SIGNATURE_ALGORITHMS@,
        );
        r3.lemma_method_is_held(
            env,
            JAVA_CLS_NAME@,
            JAVA_METHOD_NAME_GET_SUPPORTED_SIGNATURE_ALGORITHMS@,
            JAVA_METHOD_SIG_GET_SUPPORTED_SIGNATURE_ALGORITHMS@,
        );
    }

    /// What the cache holds for this converter stays when more is registered.
    pub proof fn lemma_registered_stays(earlier: JniCacheView, later: JniCacheView)
        requires
            Self::is_registered(earlier),
            later.extends(earlier),
        ensures
            Self::is_registered(later),
    {
    }

    /// With every handle in the cache, wrapping an object finds them all:
    /// it cannot miss.
    pub proof fn lemma_registered_wraps(cache: JniCacheView, jobj: JObject)
        requires
            Self::is_registered(cache),
        ensures
            Self::wrapped(cache, jobj) is Ok,
            !jobj.is_null() ==> Self::wrapped(cache, jobj)->Ok_0 is Some,
    {
    }

    /// With every handle of the bridge in the cache, the conversion fails
    /// only on what the foreign object holds or on a foreign call that
    /// fails, and never on a miss in the cache.
    pub proof fn lemma_converts_without_miss(self, env: JavaEnvView, cache: JniCacheView)
        requires
            crate::cedarling::is_registered(cache),
        ensures
            !misses(self.converted(env, cache)),
    {
        lemma_reads_never_miss(env, self.jobj, self.get_jwks_method, Seq::empty());
        lemma_reads_never_miss(
            env,
            self.jobj,
            self.get_jwt_check_sign_validation_method,
            Seq::empty(),
        );
        lemma_reads_never_miss(
            env,
            self.jobj,
            self.get_jwt_check_status_validation_method,
            Seq::empty(),
        );
        lemma_reads_never_miss(
            env,
            self.jobj,
            self.get_supported_signature_algorithms_method,
            Seq::empty(),
        );
        if let Ok(
            value,
        ) = object_result(env, self.jobj, self.get_supported_signature_algorithms_method, Seq::empty()) {
            JavaList::lemma_registered_wraps(cache, value);
        }
        if let Ok(Some(list)) = self.spec_get_supported_signature_algorithms(env, cache) {
            let convert = Self::algorithm_converter(env, cache);
            assert forall|index: i32, element: JObject| !misses(
                #[trigger] convert(index, element),
            ) by {
                lemma_registered_never_misses(
                    env,
                    cache,
                    element,
                    self.get_jwks_method,
                    Seq::empty(),
                );
            }
            list.lemma_collect_never_misses(env, convert);
        }
    }
}

} // verus!
