//! The decoder of the trust mode for identity tokens.

use crate::error::{CedarlingBridgeError, CedarlingBridgeErrorView, is_result, is_result_of};
use crate::jni::env::{JObject, JavaEnv, JavaEnvView};
use crate::jni::jni_cache::{JniCache, JniCacheView};
use crate::jni::util::{call_jni_method_to_string, string_form};
use crate::text::str_eq;
use crate::engine::config::IdTokenTrustMode;
use vstd::prelude::*;

verus! {

pub const JAVA_CLS_NAME: &'static str = "io/jans/cedarling/bridge/config/IdTokenTrustMode";

pub const JAVA_ID_TOKEN_TRUST_MODE_VALUE_ALWAYS: &'static str = "ALWAYS";

pub const JAVA_ID_TOKEN_TRUST_MODE_VALUE_NEVER: &'static str = "NEVER";

pub const JAVA_ID_TOKEN_TRUST_MODE_VALUE_IF_PRESENT: &'static str = "IF_PRESENT";

pub const JAVA_ID_TOKEN_TRUST_MODE_VALUE_STRICT: &'static str = "STRICT";

/// A foreign enum value, held by its name.
#[derive(Debug)]
pub struct JavaIdTokenTrustMode {
    pub name: String,
}

impl DeepView for JavaIdTokenTrustMode {
    type V = Seq<char>;

    open spec fn deep_view(&self) -> Seq<char> {
        self.name@
    }
}

impl JavaIdTokenTrustMode {
    /// The name of a foreign enum value: nothing for the null reference,
    /// else the string form of the object.
    pub open spec fn name_of_object(env: JavaEnvView, cache: JniCacheView, jobj: JObject) -> Result<
        Option<Seq<char>>,
        CedarlingBridgeErrorView,
    > {
        if jobj.is_null() {
            Ok(None)
        } else {
            string_form(env, cache, jobj)
        }
    }

    /// Reads the name of a foreign enum value.
    pub fn from_jni_object(env: &JavaEnv, cache: &JniCache, jobj: JObject) -> (res: Result<
        Option<JavaIdTokenTrustMode>,
        CedarlingBridgeError,
    >)
        ensures
            is_result_of(res, Self::name_of_object(env@, cache@, jobj)),
    {
        if jobj.is_null() {
            return Ok(None);
        }
        match call_jni_method_to_string(env, cache, &jobj)? {
            Some(name) => Ok(Some(JavaIdTokenTrustMode { name })),
            None => Ok(None),
        }
    }

    /// The trust mode that a name stands for.
    pub open spec fn mode_of(name: Seq<char>) -> Option<IdTokenTrustMode> {
        if name == JAVA_ID_TOKEN_TRUST_MODE_VALUE_ALWAYS@ {
            Some(IdTokenTrustMode::Always)
        } else if name == JAVA_ID_TOKEN_TRUST_MODE_VALUE_NEVER@ {
            Some(IdTokenTrustMode::Never)
        } else if name == JAVA_ID_TOKEN_TRUST_MODE_VALUE_IF_PRESENT@ {
            Some(IdTokenTrustMode::IfPresent)
        } else if name == JAVA_ID_TOKEN_TRUST_MODE_VALUE_STRICT@ {
            Some(IdTokenTrustMode::Strict)
        } else {
            None
        }
    }

    /// The name that stands for a trust mode.
    pub open spec fn name_of(mode: IdTokenTrustMode) -> Seq<char> {
        match mode {
            IdTokenTrustMode::Always => JAVA_ID_TOKEN_TRUST_MODE_VALUE_ALWAYS@,
            IdTokenTrustMode::Never => JAVA_ID_TOKEN_TRUST_MODE_VALUE_NEVER@,
            IdTokenTrustMode::IfPresent => JAVA_ID_TOKEN_TRUST_MODE_VALUE_IF_PRESENT@,
            IdTokenTrustMode::Strict => JAVA_ID_TOKEN_TRUST_MODE_VALUE_STRICT@,
        }
    }

    /// What decoding a name gives: its trust mode, or the error that names
    /// the enum and the unknown value.
    pub open spec fn decoded(
        name: Seq<char>,
    ) -> Result<IdTokenTrustMode, CedarlingBridgeErrorView> {
        match Self::mode_of(name) {
            Some(mode) => Ok(mode),
            None => Err(
                CedarlingBridgeErrorView::UnknownEnumValue { enum_cls: JAVA_CLS_NAME@, value: name },
            ),
        }
    }

    /// Decodes the name.
    pub fn as_enum(&self) -> (res: Result<IdTokenTrustMode, CedarlingBridgeError>)
        ensures
            is_result(res, Self::decoded(self.name@)),
    {
        let name = self.name.as_str();
        if str_eq(name, JAVA_ID_TOKEN_TRUST_MODE_VALUE_ALWAYS) {
            Ok(IdTokenTrustMode::Always)
        } else if str_eq(name, JAVA_ID_TOKEN_TRUST_MODE_VALUE_NEVER) {
            Ok(IdTokenTrustMode::Never)
        } else if str_eq(name, JAVA_ID_TOKEN_TRUST_MODE_VALUE_IF_PRESENT) {
            Ok(IdTokenTrustMode::IfPresent)
        } else if str_eq(name, JAVA_ID_TOKEN_TRUST_MODE_VALUE_STRICT) {
            Ok(IdTokenTrustMode::Strict)
        } else {
            Err(
                CedarlingBridgeError::UnknownEnumValue {
                    enum_cls: JAVA_CLS_NAME,
                    value: self.name.clone(),
                },
            )
        }
    }

    /// Each trust mode is decoded from its own name and from no other: a
    /// recognised name, decoded and written again, is the name that came in.
    pub proof fn lemma_round_trip(mode: IdTokenTrustMode, name: Seq<char>)
        ensures
            Self::mode_of(Self::name_of(mode)) == Some(mode),
            Self::mode_of(name) == Some(mode) ==> Self::name_of(mode) == name,
    {
        reveal_strlit("ALWAYS");
        reveal_strlit("NEVER");
        reveal_strlit("IF_PRESENT");
        reveal_strlit("STRICT");
        assert(JAVA_ID_TOKEN_TRUST_MODE_VALUE_ALWAYS@[0] == 'A');
        assert(JAVA_ID_TOKEN_TRUST_MODE_VALUE_NEVER@[0] == 'N');
        assert(JAVA_ID_TOKEN_TRUST_MODE_VALUE_IF_PRESENT@[0] == 'I');
        assert(JAVA_ID_TOKEN_TRUST_MODE_VALUE_STRICT@[0] == 'S');
    }
}

} // verus!
