//! Foreign URIs, read through their string form.

use crate::error::{CedarlingBridgeError, CedarlingBridgeErrorView, is_result, misses};
use crate::jni::env::{JMethodID, JObject, JavaEnv, JavaEnvView};
use crate::jni::jni_cache::{JniCache, JniCacheView, Registration};
use crate::jni::util::{call_jni_method_to_string, lemma_registered_never_misses, string_form};
use crate::outside::{parse_url, url_of};
use vstd::prelude::*;

verus! {

pub const JAVA_CLS_NAME: &'static str = "java/net/URI";

pub const NO_STRING_VALUE: &'static str = "Could not get string value of java/net/URI object";

/// A foreign URI.
#[derive(Clone, Copy, Debug)]
pub struct JavaURI {
    pub jobj: JObject,
}

impl JavaURI {
    /// What the URI converter registers.
    pub open spec fn registration(reg: Registration, env: JavaEnvView) -> Registration {
        reg.class(env, JAVA_CLS_NAME@)
    }

    /// Registers the URI class.
    pub fn jni_cache_init(env: &JavaEnv, cache: &mut JniCache) -> (res: Result<
        (),
        CedarlingBridgeError,
    >)
        ensures
            Self::registration(Registration::start(old(cache)@), env@).is_outcome(
                res,
                final(cache)@,
            ),
    {
        cache.add_class(env, JAVA_CLS_NAME)
    }

    /// What wrapping a foreign URI gives: nothing for the null reference.
    pub open spec fn wrapped(jobj: JObject) -> Result<Option<JavaURI>, CedarlingBridgeErrorView> {
        if jobj.is_null() {
            Ok(None)
        } else {
            Ok(Some(JavaURI { jobj }))
        }
    }

    /// Wraps a foreign URI.
    pub fn new(jobj: JObject) -> (res: Result<Option<JavaURI>, CedarlingBridgeError>)
        ensures
            is_result(res, Self::wrapped(jobj)),
    {
        if jobj.is_null() {
            return Ok(None);
        }
        Ok(Some(JavaURI { jobj: jobj }))
    }

    /// What the outcome of parsing stands for: the URL, or the parse error
    /// as an error of the bridge.
    pub open spec fn parsed(outcome: Result<url::Url, url::ParseError>) -> Result<
        url::Url,
        CedarlingBridgeErrorView,
    > {
        match outcome {
            Ok(url) => Ok(url),
            Err(e) => Err(CedarlingBridgeErrorView::UrlParseError(e)),
        }
    }

    /// Turns the outcome of parsing into the result of the conversion.
    pub fn from_parsed(outcome: Result<url::Url, url::ParseError>) -> (res: Result<
        url::Url,
        CedarlingBridgeError,
    >)
        ensures
            is_result(res, Self::parsed(outcome)),
    {
        match outcome {
            Ok(url) => Ok(url),
            Err(e) => Err(CedarlingBridgeError::UrlParseError(e)),
        }
    }

    /// The URL that the URI stands for: its string form, parsed. An object
    /// whose string form is null has no URL.
    pub open spec fn spec_url(self, env: JavaEnvView, cache: JniCacheView) -> Result<
        url::Url,
        CedarlingBridgeErrorView,
    > {
        match string_form(env, cache, self.jobj) {
            Err(e) => Err(e),
            Ok(None) => Err(CedarlingBridgeErrorView::GenericError(NO_STRING_VALUE@)),
            Ok(Some(text)) => Self::parsed(url_of(text)),
        }
    }

    /// Converts the URI into a URL.
    pub fn as_url(&self, env: &JavaEnv, cache: &JniCache) -> (res: Result<
        url::Url,
        CedarlingBridgeError,
    >)
        ensures
            is_result(res, self.spec_url(env@, cache@)),
    {
        let urlstr = match call_jni_method_to_string(env, cache, &self.jobj)? {
            Some(text) => text,
            None => {
                return Err(CedarlingBridgeError::GenericError(String::from_str(NO_STRING_VALUE)));
            },
        };
        Self::from_parsed(parse_url(urlstr.as_str()))
    }

    /// Whether the cache holds the class of this converter and every one of
    /// its handles.
    pub open spec fn is_registered(cache: JniCacheView) -> bool {
        &&& cache.classes.contains_key(JAVA_CLS_NAME@)
    }

    /// A run that has gone through the registration of this converter
    /// without a failure holds every one of its handles, and has dropped
    /// nothing that it held before.
    pub proof fn lemma_registration_holds(reg: Registration, env: JavaEnvView)
        ensures
            Self::registration(reg, env).continues(reg),
            Self::registration(reg, env).failure is None ==> Self::is_registered(
                Self::registration(reg, env).cache,
            ),
    {
        let r0 = reg.class(env, JAVA_CLS_NAME@);
        reg.lemma_class_is_held(env, JAVA_CLS_NAME@);
    }

    /// What the cache holds for this converter stays when more is registered.
    pub proof fn lemma_registered_stays(earlier: JniCacheView, later: JniCacheView)
        requires
            Self::is_registered(earlier),
            later.extends(earlier),
        ensures
            Self::is_registered(later),
    {
    }

    /// With every handle of the bridge in the cache, the conversion of a URI
    /// never fails on a miss in the cache.
    pub proof fn lemma_converts_without_miss(self, env: JavaEnvView, cache: JniCacheView)
        requires
            crate::cedarling::is_registered(cache),
        ensures
            !misses(self.spec_url(env, cache)),
    {
        lemma_registered_never_misses(env, cache, self.jobj, JMethodID { index: 0 }, Seq::empty());
    }
}

} // verus!
