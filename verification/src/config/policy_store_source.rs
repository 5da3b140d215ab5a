//! The decoder of policy store sources.

use crate::error::{CedarlingBridgeError, CedarlingBridgeErrorView, is_result_of};
use crate::jni::env::{JObject, JavaEnv, JavaEnvView};
use crate::jni::jni_cache::{JniCache, JniCacheView};
use crate::jni::util::{call_jni_method_to_string, string_form};
use crate::text::str_eq;
use crate::engine::config::{PolicyStoreSource, PolicyStoreSourceView};
use vstd::prelude::*;

verus! {

pub const JAVA_CLS_NAME: &'static str = "io/jans/cedarling/bridge/config/PolicyStoreSource";

pub const JAVA_ENUM_VALUE_JSON: &'static str = "JSON";

pub const JAVA_ENUM_VALUE_YAML: &'static str = "YAML";

pub const JAVA_ENUM_VALUE_LOCKMASTER: &'static str = "LOCKMASTER";

pub const JAVA_ENUM_VALUE_FILEJSON: &'static str = "FILEJSON";

pub const JAVA_ENUM_VALUE_FILEYAML: &'static str = "FILEYAML";

/// What a result that holds a text says, with the text as characters.
pub open spec fn text_result(res: Result<String, CedarlingBridgeError>) -> Result<
    Seq<char>,
    CedarlingBridgeErrorView,
> {
    match res {
        Ok(text) => Ok(text@),
        Err(e) => Err(e@),
    }
}

/// A foreign enum value, held by its name.
#[derive(Debug)]
pub struct JavaPolicyStoreSource {
    pub name: String,
}

impl DeepView for JavaPolicyStoreSource {
    type V = Seq<char>;

    open spec fn deep_view(&self) -> Seq<char> {
        self.name@
    }
}

impl JavaPolicyStoreSource {
    /// The name of a foreign enum value: nothing for the null reference,
    /// else the string form of the object.
    pub open spec fn name_of_object(env: JavaEnvView, cache: JniCacheView, jobj: JObject) -> Result<
        Option<Seq<char>>,
        CedarlingBridgeErrorView,
    > {
        if jobj.is_null() {
            Ok(None)
        } else {
            string_form(env, cache, jobj)
        }
    }

    /// Reads the name of a foreign enum value.
    pub fn from_jni_object(env: &JavaEnv, cache: &JniCache, jobj: JObject) -> (res: Result<
        Option<JavaPolicyStoreSource>,
        CedarlingBridgeError,
    >)
        ensures
            is_result_of(res, Self::name_of_object(env@, cache@, jobj)),
    {
        if jobj.is_null() {
            return Ok(None);
        }
        match call_jni_method_to_string(env, cache, &jobj)? {
            Some(name) => Ok(Some(JavaPolicyStoreSource { name })),
            None => Ok(None),
        }
    }

    /// What decoding a name gives, with the text of the store and the path
    /// of its file as they were found beside it: the three inline kinds take
    /// the text, the two file kinds take the path, and what was not found
    /// fails with its own error.
    pub open spec fn decoded(
        name: Seq<char>,
        data: Result<Seq<char>, CedarlingBridgeErrorView>,
        data_path: Result<Seq<char>, CedarlingBridgeErrorView>,
    ) -> Result<PolicyStoreSourceView, CedarlingBridgeErrorView> {
        if name == JAVA_ENUM_VALUE_JSON@ {
            match data {
                Ok(text) => Ok(PolicyStoreSourceView::Json(text)),
                Err(e) => Err(e),
            }
        } else if name == JAVA_ENUM_VALUE_YAML@ {
            match data {
                Ok(text) => Ok(PolicyStoreSourceView::Yaml(text)),
                Err(e) => Err(e),
            }
        } else if name == JAVA_ENUM_VALUE_LOCKMASTER@ {
            match data {
                Ok(text) => Ok(PolicyStoreSourceView::LockServer(text)),
                Err(e) => Err(e),
            }
        } else if name == JAVA_ENUM_VALUE_FILEJSON@ {
            match data_path {
                Ok(path) => Ok(PolicyStoreSourceView::FileJson(path)),
                Err(e) => Err(e),
            }
        } else if name == JAVA_ENUM_VALUE_FILEYAML@ {
            match data_path {
                Ok(path) => Ok(PolicyStoreSourceView::FileYaml(path)),
                Err(e) => Err(e),
            }
        } else {
            Err(
                CedarlingBridgeErrorView::UnknownEnumValue { enum_cls: JAVA_CLS_NAME@, value: name },
            )
        }
    }

    /// Decodes the name, with the text of the store and the path of its file
    /// as they were found beside it.
    pub fn as_enum(
        &self,
        data: Result<String, CedarlingBridgeError>,
        data_path: Result<String, CedarlingBridgeError>,
    ) -> (res: Result<PolicyStoreSource, CedarlingBridgeError>)
        ensures
            is_result_of(res, Self::decoded(self.name@, text_result(data), text_result(data_path))),
    {
        let name = self.name.as_str();
        if str_eq(name, JAVA_ENUM_VALUE_JSON) {
            Ok(PolicyStoreSource::Json(data?))
        } else if str_eq(name, JAVA_ENUM_VALUE_YAML) {
            Ok(PolicyStoreSource::Yaml(data?))
        } else if str_eq(name, JAVA_ENUM_VALUE_LOCKMASTER) {
            Ok(PolicyStoreSource::LockServer(data?))
        } else if str_eq(name, JAVA_ENUM_VALUE_FILEJSON) {
            Ok(PolicyStoreSource::FileJson(data_path?))
        } else if str_eq(name, JAVA_ENUM_VALUE_FILEYAML) {
            Ok(PolicyStoreSource::FileYaml(data_path?))
        } else {
            Err(
                CedarlingBridgeError::UnknownEnumValue {
                    enum_cls: JAVA_CLS_NAME,
                    value: self.name.clone(),
                },
            )
        }
    }

    /// The name that stands for a source.
    pub open spec fn name_of(source: PolicyStoreSourceView) -> Seq<char> {
        match source {
            PolicyStoreSourceView::Json(_) => JAVA_ENUM_VALUE_JSON@,
            PolicyStoreSourceView::Yaml(_) => JAVA_ENUM_VALUE_YAML@,
            PolicyStoreSourceView::LockServer(_) => JAVA_ENUM_VALUE_LOCKMASTER@,
            PolicyStoreSourceView::FileJson(_) => JAVA_ENUM_VALUE_FILEJSON@,
            PolicyStoreSourceView::FileYaml(_) => JAVA_ENUM_VALUE_FILEYAML@,
        }
    }

    /// Each kind of source is decoded from its own name and from no other:
    /// a recognised name, decoded and written again, is the name that came in.
    pub proof fn lemma_round_trip(
        source: PolicyStoreSourceView,
        name: Seq<char>,
        data: Result<Seq<char>, CedarlingBridgeErrorView>,
        data_path: Result<Seq<char>, CedarlingBridgeErrorView>,
    )
        ensures
            Self::decoded(name, data, data_path) == Ok::<
                PolicyStoreSourceView,
                CedarlingBridgeErrorView,
            >(source) ==> Self::name_of(source) == name,
            data is Ok && data_path is Ok ==> Self::decoded(
                Self::name_of(source),
                data,
                data_path,
            ) is Ok && Self::name_of(Self::decoded(Self::name_of(source), data, data_path)->Ok_0)
                == Self::name_of(source),
    {
        reveal_strlit("JSON");
        reveal_strlit("YAML");
        reveal_strlit("LOCKMASTER");
        reveal_strlit("FILEJSON");
        reveal_strlit("FILEYAML");
        assert(JAVA_ENUM_VALUE_JSON@[0] == 'J');
        assert(JAVA_ENUM_VALUE_YAML@[0] == 'Y');
        assert(JAVA_ENUM_VALUE_LOCKMASTER@[0] == 'L');
        assert(JAVA_ENUM_VALUE_FILEJSON@[0] == 'F');
        assert(JAVA_ENUM_VALUE_FILEYAML@[0] == 'F');
        assert(JAVA_ENUM_VALUE_FILEJSON@[4] == 'J');
        assert(JAVA_ENUM_VALUE_FILEYAML@[4] == 'Y');
    }
}

} // verus!
