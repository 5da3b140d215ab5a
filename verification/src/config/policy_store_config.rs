//! The converter of the policy store section.

use crate::config::policy_store_source::{JavaPolicyStoreSource, text_result};
use crate::engine::config::{PolicyStoreConfig, PolicyStoreConfigView};
use crate::error::{CedarlingBridgeError, CedarlingBridgeErrorView, is_result, is_result_of, misses};
use crate::jni::env::{JMethodID, JObject, JavaEnv, JavaEnvView};
use crate::jni::file::JavaFile;
use crate::jni::jni_cache::{JniCache, JniCacheView, Registration};
use crate::jni::util::{call_jni_object_method, call_jni_string_method, lemma_reads_never_miss};
use crate::jni::util::{lemma_registered_never_misses, no_args, object_result, require_some};
use crate::jni::util::{required, required_of, string_result};
use vstd::prelude::*;

verus! {

pub const JAVA_CLS_NAME: &'static str = "io/jans/cedarling/bridge/config/PolicyStoreConfiguration";

pub const JAVA_METHOD_NAME_GET_SOURCE: &'static str = "getSource";

pub const JAVA_METHOD_SIG_GET_SOURCE: &'static str =
    "()Lio/jans/cedarling/bridge/config/PolicyStoreSource;";

pub const JAVA_METHOD_NAME_GET_DATA: &'static str = "getData";

pub const JAVA_METHOD_SIG_GET_DATA: &'static str = "()Ljava/lang/String;";

pub const JAVA_METHOD_NAME_GET_DATA_PATH: &'static str = "getDataPath";

pub const JAVA_METHOD_SIG_GET_DATA_PATH: &'static str = "()Ljava/io/File;";

pub const NO_FILE_PATH: &'static str = "Could not get policy store file path";

/// A foreign policy store section with the handles that read it.
#[derive(Clone, Copy, Debug)]
pub struct JavaPolicyStoreConfig {
    pub jobj: JObject,
    pub get_source_method: JMethodID,
    pub get_data_method: JMethodID,
    pub get_data_path_method: JMethodID,
}

impl JavaPolicyStoreConfig {
    /// What this converter registers: its class, then each of its methods.
    pub open spec fn registration(reg: Registration, env: JavaEnvView) -> Registration {
        reg.class(env, JAVA_CLS_NAME@)
            .method(
                env,
                JAVA_CLS_NAME@,
                JAVA_METHOD_NAME_GET_SOURCE@,
                JAVA_METHOD_SIG_GET_SOURCE@,
            )
            .method(
                env,
                JAVA_CLS_NAME@,
                JAVA_METHOD_NAME_GET_DATA@,
                JAVA_METHOD_SIG_GET_DATA@,
            )
            .method(
                env,
                JAVA_CLS_NAME@,
                JAVA_METHOD_NAME_GET_DATA_PATH@,
                JAVA_METHOD_SIG_GET_DATA_PATH@,
            )
    }

    /// Registers the class and its methods; stops at the first that the
    /// runtime cannot resolve.
    pub fn jni_cache_init(env: &JavaEnv, cache: &mut JniCache) -> (res: Result<
        (),
        CedarlingBridgeError,
    >)
        ensures
            Self::registration(Registration::start(old(cache)@), env@).is_outcome(
                res,
                final(cache)@,
            ),
    {
        cache.add_class(env, JAVA_CLS_NAME)?;
        cache.add_instance_method(
            env,
            JAVA_CLS_NAME,
            JAVA_METHOD_NAME_GET_SOURCE,
            JAVA_METHOD_SIG_GET_SOURCE,
        )?;
        cache.add_instance_method(
            env,
            JAVA_CLS_NAME,
            JAVA_METHOD_NAME_GET_DATA,
            JAVA_METHOD_SIG_GET_DATA,
        )?;
        cache.add_instance_method(
            env,
            JAVA_CLS_NAME,
            JAVA_METHOD_NAME_GET_DATA_PATH,
            JAVA_METHOD_SIG_GET_DATA_PATH,
        )
    }

    /// What wrapping a foreign object gives: nothing for the null reference,
    /// else the object with its handles from the cache, or the report of the
    /// first handle that the cache does not hold.
    pub open spec fn wrapped(cache: JniCacheView, jobj: JObject) -> Result<
        Option<JavaPolicyStoreConfig>,
        CedarlingBridgeErrorView,
    > {
        if jobj.is_null() {
            Ok(None)
        } else {
            match cache.method(
                JAVA_CLS_NAME@,
                JAVA_METHOD_NAME_GET_SOURCE@,
                JAVA_METHOD_SIG_GET_SOURCE@,
            ) {
                Err(e) => Err(e),
                Ok(get_source_method) => match cache.method(
                    JAVA_CLS_NAME@,
                    JAVA_METHOD_NAME_GET_DATA@,
                    JAVA_METHOD_SIG_GET_DATA@,
                ) {
                    Err(e) => Err(e),
                    Ok(get_data_method) => match cache.method(
                        JAVA_CLS_NAME@,
                        JAVA_METHOD_NAME_GET_DATA_PATH@,
                        JAVA_METHOD_SIG_GET_DATA_PATH@,
                    ) {
                        Err(e) => Err(e),
                        Ok(get_data_path_method) => Ok(
                            Some(
                                JavaPolicyStoreConfig {
                                    jobj,
                                    get_source_method,
                                    get_data_method,
                                    get_data_path_method,
                                },
                            ),
                        ),
                    },
                },
            }
        }
    }

    /// Wraps a foreign object.
    pub fn new(cache: &JniCache, jobj: JObject) -> (res: Result<
        Option<JavaPolicyStoreConfig>,
        CedarlingBridgeError,
    >)
        ensures
            is_result(res, Self::wrapped(cache@, jobj)),
    {
        if jobj.is_null() {
            return Ok(None);
        }
        let get_source_key = (
            JAVA_CLS_NAME,
            JAVA_METHOD_NAME_GET_SOURCE,
            JAVA_METHOD_SIG_GET_SOURCE,
        );
        let get_data_key = (
            JAVA_CLS_NAME,
            JAVA_METHOD_NAME_GET_DATA,
            JAVA_METHOD_SIG_GET_DATA,
        );
        let get_data_path_key = (
            JAVA_CLS_NAME,
            JAVA_METHOD_NAME_GET_DATA_PATH,
            JAVA_METHOD_SIG_GET_DATA_PATH,
        );
        Ok(
            Some(
                JavaPolicyStoreConfig {
                    jobj: jobj,
                    get_source_method: cache.get_instance_method(&get_source_key)?,
                    get_data_method: cache.get_instance_method(&get_data_key)?,
                    get_data_path_method: cache.get_instance_method(&get_data_path_key)?,
                },
            ),
        )
    }

    /// What asking the object for `getSource` gives: the name of the
    /// enum value that comes back.
    pub open spec fn spec_get_source(self, env: JavaEnvView, cache: JniCacheView) -> Result<
        Option<Seq<char>>,
        CedarlingBridgeErrorView,
    > {
        match object_result(env, self.jobj, self.get_source_method, Seq::empty()) {
            Err(e) => Err(e),
            Ok(obj) => JavaPolicyStoreSource::name_of_object(env, cache, obj),
        }
    }

    /// Asks the object for `getSource`.
    pub fn get_source(&self, env: &JavaEnv, cache: &JniCache) -> (res: Result<
        Option<JavaPolicyStoreSource>,
        CedarlingBridgeError,
    >)
        ensures
            is_result_of(res, self.spec_get_source(env@, cache@)),
    {
        let obj = call_jni_object_method(
            env,
            &self.jobj,
            &self.get_source_method,
            &no_args(),
        )?;
        JavaPolicyStoreSource::from_jni_object(env, cache, obj)
    }

    /// What asking the object for `getData` gives.
    pub open spec fn spec_get_data(self, env: JavaEnvView) -> Result<
        Option<Seq<char>>,
        CedarlingBridgeErrorView,
    > {
        string_result(env, self.jobj, self.get_data_method, Seq::empty())
    }

    /// Asks the object for `getData`.
    pub fn get_data(&self, env: &JavaEnv) -> (res: Result<
        Option<String>,
        CedarlingBridgeError,
    >)
        ensures
            is_result_of(res, self.spec_get_data(env@)),
    {
        call_jni_string_method(env, &self.jobj, &self.get_data_method, &no_args())
    }

    /// What asking the object for `getDataPath` gives: the object that
    /// comes back, wrapped.
    pub open spec fn spec_get_data_path(self, env: JavaEnvView, cache: JniCacheView) -> Result<
        Option<JavaFile>,
        CedarlingBridgeErrorView,
    > {
        match object_result(env, self.jobj, self.get_data_path_method, Seq::empty()) {
            Err(e) => Err(e),
            Ok(obj) => JavaFile::wrapped(cache, obj),
        }
    }

    /// Asks the object for `getDataPath`.
    pub fn get_data_path(&self, env: &JavaEnv, cache: &JniCache) -> (res: Result<
        Option<JavaFile>,
        CedarlingBridgeError,
    >)
        ensures
            is_result(res, self.spec_get_data_path(env@, cache@)),
    {
        let obj = call_jni_object_method(
            env,
            &self.jobj,
            &self.get_data_path_method,
            &no_args(),
        )?;
        JavaFile::new(cache, obj)
    }


    /// The path of the file of the store: the file is required, and so is
    /// its absolute path.
    pub open spec fn path_of(env: JavaEnvView, data_path: Option<JavaFile>) -> Result<
        Seq<char>,
        CedarlingBridgeErrorView,
    > {
        match required(data_path, JAVA_CLS_NAME@, "dataPath"@) {
            Err(e) => Err(e),
            Ok(file) => match file.spec_absolute_path(env) {
                Err(e) => Err(e),
                Ok(None) => Err(CedarlingBridgeErrorView::GenericError(NO_FILE_PATH@)),
                Ok(Some(path)) => Ok(path),
            },
        }
    }

    /// Reads the path of the file of the store.
    pub fn data_path(env: &JavaEnv, data_path: Option<JavaFile>) -> (res: Result<
        String,
        CedarlingBridgeError,
    >)
        ensures
            text_result(res) == Self::path_of(env@, data_path),
    {
        let data_path_obj = require_some(data_path, JAVA_CLS_NAME, "dataPath")?;
        match data_path_obj.get_absolute_path(env)? {
            Some(data) => Ok(data),
            None => Err(CedarlingBridgeError::GenericError(String::from_str(NO_FILE_PATH))),
        }
    }

    /// The native policy store section that the object stands for. The kind
    /// of source is required. Text and file are both read; which of the two
    /// is then required depends on the kind.
    pub open spec fn converted(self, env: JavaEnvView, cache: JniCacheView) -> Result<
        PolicyStoreConfigView,
        CedarlingBridgeErrorView,
    > {
        match required_of(self.spec_get_source(env, cache), JAVA_CLS_NAME@, "source"@) {
            Err(e) => Err(e),
            Ok(source_name) => match self.spec_get_data(env) {
                Err(e) => Err(e),
                Ok(data) => match self.spec_get_data_path(env, cache) {
                    Err(e) => Err(e),
                    Ok(data_path) => match JavaPolicyStoreSource::decoded(
                        source_name,
                        required(data, JAVA_CLS_NAME@, "data"@),
                        Self::path_of(env, data_path),
                    ) {
                        Err(e) => Err(e),
                        Ok(source) => Ok(PolicyStoreConfigView { source }),
                    },
                },
            },
        }
    }

    /// Converts the policy store section.
    pub fn as_cedarling_policy_store_config(&self, env: &JavaEnv, cache: &JniCache) -> (res: Result<
        PolicyStoreConfig,
        CedarlingBridgeError,
    >)
        ensures
            is_result_of(res, self.converted(env@, cache@)),
    {
        let policy_store_source = require_some(
            self.get_source(env, cache)?,
            JAVA_CLS_NAME,
            "source",
        )?;
        let opt_data = self.get_data(env)?;
        let opt_data_path = self.get_data_path(env, cache)?;
        let data = require_some(opt_data, JAVA_CLS_NAME, "data");
        let data_path = Self::data_path(env, opt_data_path);
        Ok(PolicyStoreConfig { source: policy_store_source.as_enum(data, data_path)? })
    }

    /// Whether the cache holds the class of this converter and every one of
    /// its handles.
    pub open spec fn is_registered(cache: JniCacheView) -> bool {
        &&& cache.classes.contains_key(JAVA_CLS_NAME@)
        &&& cache.methods.contains_key(
            (JAVA_CLS_NAME@, JAVA_METHOD_NAME_GET_SOURCE@, JAVA_METHOD_SIG_GET_SOURCE@),
        )
        &&& cache.methods.contains_key(
            (JAVA_CLS_NAME@, JAVA_METHOD_NAME_GET_DATA@, JAVA_METHOD_SIG_GET_DATA@),
        )
        &&& cache.methods.contains_key(
            (JAVA_CLS_NAME@, JAVA_METHOD_NAME_GET_DATA_PATH@, JAVA_METHOD_SIG_GET_DATA_PATH@),
        )
    }

    /// A run that has gone through the registration of this converter
    /// without a failure holds every one of its handles, and has dropped
    /// nothing that it held before.
    pub proof fn lemma_registration_holds(reg: Registration, env: JavaEnvView)
        ensures
            Self::registration(reg, env).continues(reg),
            Self::registration(reg, env).failure is None ==> Self::is_registered(
                Self::registration(reg, env).cache,
            ),
    {
        let r0 = reg.class(env, JAVA_CLS_NAME@);
        reg.lemma_class_is_held(env, JAVA_CLS_NAME@);
        let r1 = r0.method(
            env,
            JAVA_CLS_NAME@,
            JAVA_METHOD_NAME_GET_SOURCE@,
            JAVA_METHOD_SIG_GET_SOURCE@,
        );
        r0.lemma_method_is_held(
            env,
            JAVA_CLS_NAME@,
            JAVA_METHOD_NAME_GET_SOURCE@,
            JAVA_METHOD_SIG_GET_SOURCE@,
        );
        let r2 = r1.method(
            env,
            JAVA_CLS_NAME@,
            JAVA_METHOD_NAME_GET_DATA@,
            JAVA_METHOD_SIG_GET_DATA@,
        );
        r1.lemma_method_is_held(
            env,
            JAVA_CLS_NAME@,
            JAVA_METHOD_NAME_GET_DATA@,
            JAVA_METHOD_SIG_GET_DATA@,
        );
        let r3 = r2.method(
            env,
            JAVA_CLS_NAME@,
            JAVA_METHOD_NAME_GET_DATA_PATH@,
            JAVA_METHOD_SIG_GET_DATA_PATH@,
        );
        r2.lemma_method_is_held(
            env,
            JAVA_CLS_NAME@,
            JAVA_METHOD_NAME_GET_DATA_PATH@,
            JAVA_METHOD_SIG_GET_DATA_PATH@,
        );
    }

    /// What the cache holds for this converter stays when more is registered.
    pub proof fn lemma_registered_stays(earlier: JniCacheView, later: JniCacheView)
        requires
            Self::is_registered(earlier),
            later.extends(earlier),
        ensures
            Self::is_registered(later),
    {
    }

    /// With every handle in the cache, wrapping an object finds them all:
    /// it cannot miss.
    pub proof fn lemma_registered_wraps(cache: JniCacheView, jobj: JObject)
        requires
            Self::is_registered(cache),
        ensures
            Self::wrapped(cache, jobj) is Ok,
            !jobj.is_null() ==> Self::wrapped(cache, jobj)->Ok_0 is Some,
    {
    }

    /// With every handle of the bridge in the cache, the conversion fails
    /// only on what the foreign object holds or on a foreign call that
    /// fails, and never on a miss in the cache.
    pub proof fn lemma_converts_without_miss(self, env: JavaEnvView, cache: JniCacheView)
        requires
            crate::cedarling::is_registered(cache),
        ensures
            !misses(self.converted(env, cache)),
    {
        lemma_reads_never_miss(env, self.jobj, self.get_source_method, Seq::empty());
        if let Ok(value) = object_result(env, self.jobj, self.get_source_method, Seq::empty()) {
            lemma_registered_never_misses(
                env,
                cache,
                value,
                self.get_source_method,
                Seq::empty(),
            );
        }
        lemma_reads_never_miss(env, self.jobj, self.get_data_method, Seq::empty());
        lemma_reads_never_miss(env, self.jobj, self.get_data_path_method, Seq::empty());
        if let Ok(value) = object_result(env, self.jobj, self.get_data_path_method, Seq::empty()) {
            JavaFile::lemma_registered_wraps(cache, value);
        }
        if let Ok(Some(part)) = self.spec_get_data_path(env, cache) {
            part.lemma_converts_without_miss(env);
        }
    }
}

} // verus!
