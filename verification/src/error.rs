//! The errors of the bridge, and the text that each one reports.

use crate::outside::{json_error_text, json_error_to_string, url_error_text, url_error_to_string};
use vstd::prelude::*;

verus! {

/// A failure of a call into the foreign runtime itself.
#[derive(Debug)]
pub enum JniError {
    /// The runtime knows no class of this name.
    ClassNotFound(String),
    /// The class has no method of this name and signature.
    MethodNotFound { class: String, method: String },
    /// The class has no static field of this name and signature.
    FieldNotFound { class: String, field: String },
    /// A null reference stood where the call needs an object.
    NullPtr,
    /// The reference leads to nothing that the call can work on.
    InvalidReference,
    /// The invoked method did not return.
    CallFailed,
    /// The call returned a value of another type than the one asked for.
    WrongValueType,
}

/// What a [`JniError`] says, with its texts as sequences of characters.
pub enum JniErrorView {
    ClassNotFound(Seq<char>),
    MethodNotFound { class: Seq<char>, method: Seq<char> },
    FieldNotFound { class: Seq<char>, field: Seq<char> },
    NullPtr,
    InvalidReference,
    CallFailed,
    WrongValueType,
}

impl View for JniError {
    type V = JniErrorView;

    open spec fn view(&self) -> JniErrorView {
        match *self {
            JniError::ClassNotFound(name) => JniErrorView::ClassNotFound(name@),
            JniError::MethodNotFound { class, method } => JniErrorView::MethodNotFound {
                class: class@,
                method: method@,
            },
            JniError::FieldNotFound { class, field } => JniErrorView::FieldNotFound {
                class: class@,
                field: field@,
            },
            JniError::NullPtr => JniErrorView::NullPtr,
            JniError::InvalidReference => JniErrorView::InvalidReference,
            JniError::CallFailed => JniErrorView::CallFailed,
            JniError::WrongValueType => JniErrorView::WrongValueType,
        }
    }
}

impl JniErrorView {
    /// The text that the error reports.
    pub open spec fn message(self) -> Seq<char> {
        match self {
            JniErrorView::ClassNotFound(name) => "Class not found: "@ + name,
            JniErrorView::MethodNotFound { class, method } => "Method `"@ + method
                + "` not found in class `"@ + class + "`"@,
            JniErrorView::FieldNotFound { class, field } => "Static field `"@ + field
                + "` not found in class `"@ + class + "`"@,
            JniErrorView::NullPtr => "Null reference in a foreign call"@,
            JniErrorView::InvalidReference => "Invalid reference in a foreign call"@,
            JniErrorView::CallFailed => "Foreign call failed"@,
            JniErrorView::WrongValueType => "Foreign call returned a value of another type"@,
        }
    }
}

impl JniError {
    /// Writes the text that the error reports.
    pub fn message(&self) -> (res: String)
        ensures
            res@ == self@.message(),
    {
        match self {
            JniError::ClassNotFound(name) => {
                let mut s = String::from_str("Class not found: ");
                s.append(name.as_str());
                s
            },
            JniError::MethodNotFound { class, method } => {
                let mut s = String::from_str("Method `");
                s.append(method.as_str());
                s.append("` not found in class `");
                s.append(class.as_str());
                s.append("`");
                s
            },
            JniError::FieldNotFound { class, field } => {
                let mut s = String::from_str("Static field `");
                s.append(field.as_str());
                s.append("` not found in class `");
                s.append(class.as_str());
                s.append("`");
                s
            },
            JniError::NullPtr => String::from_str("Null reference in a foreign call"),
            JniError::InvalidReference => String::from_str("Invalid reference in a foreign call"),
            JniError::CallFailed => String::from_str("Foreign call failed"),
            JniError::WrongValueType => String::from_str(
                "Foreign call returned a value of another type",
            ),
        }
    }
}

/// Every way in which the bridge can fail.
#[derive(Debug)]
#[allow(inconsistent_fields)]
pub enum CedarlingBridgeError {
    /// A failure described only by its text.
    GenericError(String),
    /// The foreign call itself failed.
    Jni(JniError),
    /// A foreign enum value whose name the bridge does not recognise.
    UnknownEnumValue { enum_cls: &'static str, value: String },
    /// A required field of a foreign object was null.
    FieldCannotBeNull { field: &'static str, class: &'static str },
    /// A text that should hold JSON could not be read.
    JsonError { additional_description: String, json_err: serde_json::Error },
    /// The engine refused the request; its own report is kept as it came.
    CedarlingAuthError(String),
    /// The class was looked up in the cache before it was registered.
    CachedClassNotFound(String),
    /// The method was looked up in the cache before it was registered.
    CachedInstanceMethodNotFound { class: String, method: String },
    /// The static field was looked up in the cache before it was registered.
    CachedStaticFieldNotFound { class: String, field: String },
    /// The lock that guards the cache was left poisoned; the report is kept as it came.
    CacheMutexError(String),
    /// A text that should hold an absolute URL could not be read.
    UrlParseError(url::ParseError),
}

/// What a [`CedarlingBridgeError`] says, with its texts as sequences of characters.
#[allow(inconsistent_fields)]
pub enum CedarlingBridgeErrorView {
    GenericError(Seq<char>),
    Jni(JniErrorView),
    UnknownEnumValue { enum_cls: Seq<char>, value: Seq<char> },
    FieldCannotBeNull { field: Seq<char>, class: Seq<char> },
    JsonError { additional_description: Seq<char>, json_err: serde_json::Error },
    CedarlingAuthError(Seq<char>),
    CachedClassNotFound(Seq<char>),
    CachedInstanceMethodNotFound { class: Seq<char>, method: Seq<char> },
    CachedStaticFieldNotFound { class: Seq<char>, field: Seq<char> },
    CacheMutexError(Seq<char>),
    UrlParseError(url::ParseError),
}

impl View for CedarlingBridgeError {
    type V = CedarlingBridgeErrorView;

    open spec fn view(&self) -> CedarlingBridgeErrorView {
        match *self {
            CedarlingBridgeError::GenericError(text) => CedarlingBridgeErrorView::GenericError(
                text@,
            ),
            CedarlingBridgeError::Jni(err) => CedarlingBridgeErrorView::Jni(err@),
            CedarlingBridgeError::UnknownEnumValue {
                enum_cls,
                value,
            } => CedarlingBridgeErrorView::UnknownEnumValue { enum_cls: enum_cls@, value: value@ },
            CedarlingBridgeError::FieldCannotBeNull {
                field,
                class,
            } => CedarlingBridgeErrorView::FieldCannotBeNull { field: field@, class: class@ },
            CedarlingBridgeError::JsonError {
                additional_description,
                json_err,
            } => CedarlingBridgeErrorView::JsonError {
                additional_description: additional_description@,
                json_err,
            },
            CedarlingBridgeError::CedarlingAuthError(text) => {
                CedarlingBridgeErrorView::CedarlingAuthError(text@)
            },
            CedarlingBridgeError::CachedClassNotFound(name) => {
                CedarlingBridgeErrorView::CachedClassNotFound(name@)
            },
            CedarlingBridgeError::CachedInstanceMethodNotFound {
                class,
                method,
            } => CedarlingBridgeErrorView::CachedInstanceMethodNotFound {
                class: class@,
                method: method@,
            },
            CedarlingBridgeError::CachedStaticFieldNotFound {
                class,
                field,
            } => CedarlingBridgeErrorView::CachedStaticFieldNotFound {
                class: class@,
                field: field@,
            },
            CedarlingBridgeError::CacheMutexError(text) => {
                CedarlingBridgeErrorView::CacheMutexError(text@)
            },
            CedarlingBridgeError::UrlParseError(err) => CedarlingBridgeErrorView::UrlParseError(
                err,
            ),
        }
    }
}

impl CedarlingBridgeErrorView {
    /// The text that the error reports.
    pub open spec fn message(self) -> Seq<char> {
        match self {
            CedarlingBridgeErrorView::GenericError(text) => text,
            CedarlingBridgeErrorView::Jni(err) => "JNI error: "@ + err.message(),
            CedarlingBridgeErrorView::UnknownEnumValue { enum_cls, value } => {
                "Unknown value specified for java enum `"@ + enum_cls + "`. Value: `"@ + value
                    + "`"@
            },
            CedarlingBridgeErrorView::FieldCannotBeNull { field, class } => "Field `"@ + field
                + "` in java class `"@ + class + "` cannot be null"@,
            CedarlingBridgeErrorView::JsonError { additional_description, json_err } => {
                "Json error: "@ + additional_description + ". "@ + json_error_text(json_err)
            },
            CedarlingBridgeErrorView::CedarlingAuthError(text) => text,
            CedarlingBridgeErrorView::CachedClassNotFound(name) => "Class `"@ + name
                + "` not found in cache"@,
            CedarlingBridgeErrorView::CachedInstanceMethodNotFound { class, method } => {
                "Instance method `"@ + method + "` not found in cache for class `"@ + class + "`"@
            },
            CedarlingBridgeErrorView::CachedStaticFieldNotFound { class, field } => {
                "Static field `"@ + field + "` not found in cache for class `"@ + class + "`"@
            },
            CedarlingBridgeErrorView::CacheMutexError(text) => text,
            CedarlingBridgeErrorView::UrlParseError(err) => url_error_text(err),
        }
    }
}

impl CedarlingBridgeErrorView {
    /// Whether the error reports a lookup in the cache of what was never
    /// registered.
    pub open spec fn is_cache_miss(self) -> bool {
        self is CachedClassNotFound || self is CachedInstanceMethodNotFound
            || self is CachedStaticFieldNotFound
    }
}

/// Whether a result is the failure of a lookup in the cache.
pub open spec fn misses<T>(res: Result<T, CedarlingBridgeErrorView>) -> bool {
    res matches Err(e) && e.is_cache_miss()
}

impl CedarlingBridgeError {
    /// Writes the text that the error reports, the cause included.
    pub fn message(&self) -> (res: String)
        ensures
            res@ == self@.message(),
    {
        match self {
            CedarlingBridgeError::GenericError(text) => text.clone(),
            CedarlingBridgeError::Jni(err) => {
                let mut s = String::from_str("JNI error: ");
                let inner = err.message();
                s.append(inner.as_str());
                s
            },
            CedarlingBridgeError::UnknownEnumValue { enum_cls, value } => {
                let mut s = String::from_str("Unknown value specified for java enum `");
                s.append(enum_cls);
                s.append("`. Value: `");
                s.append(value.as_str());
                s.append("`");
                s
            },
            CedarlingBridgeError::FieldCannotBeNull { field, class } => {
                let mut s = String::from_str("Field `");
                s.append(field);
                s.append("` in java class `");
                s.append(class);
                s.append("` cannot be null");
                s
            },
            CedarlingBridgeError::JsonError { additional_description, json_err } => {
                let mut s = String::from_str("Json error: ");
                s.append(additional_description.as_str());
                s.append(". ");
                let cause = json_error_to_string(json_err);
                s.append(cause.as_str());
                s
            },
            CedarlingBridgeError::CedarlingAuthError(text) => text.clone(),
            CedarlingBridgeError::CachedClassNotFound(name) => {
                let mut s = String::from_str("Class `");
                s.append(name.as_str());
                s.append("` not found in cache");
                s
            },
            CedarlingBridgeError::CachedInstanceMethodNotFound { class, method } => {
                let mut s = String::from_str("Instance method `");
                s.append(method.as_str());
                s.append("` not found in cache for class `");
                s.append(class.as_str());
                s.append("`");
                s
            },
            CedarlingBridgeError::CachedStaticFieldNotFound { class, field } => {
                let mut s = String::from_str("Static field `");
                s.append(field.as_str());
                s.append("` not found in cache for class `");
                s.append(class.as_str());
                s.append("`");
                s
            },
            CedarlingBridgeError::CacheMutexError(text) => text.clone(),
            CedarlingBridgeError::UrlParseError(err) => url_error_to_string(err),
        }
    }
}

/// Holds when a result is the one that a contract describes: the same value
/// on success, an error that says the same on failure.
pub open spec fn is_result<T>(
    res: Result<T, CedarlingBridgeError>,
    expected: Result<T, CedarlingBridgeErrorView>,
) -> bool {
    match res {
        Ok(v) => expected == Ok::<T, CedarlingBridgeErrorView>(v),
        Err(e) => expected == Err::<T, CedarlingBridgeErrorView>(e@),
    }
}

/// As [`is_result`], for a value that a contract describes by its view.
pub open spec fn is_result_of<T: DeepView>(
    res: Result<T, CedarlingBridgeError>,
    expected: Result<T::V, CedarlingBridgeErrorView>,
) -> bool {
    match res {
        Ok(v) => expected == Ok::<T::V, CedarlingBridgeErrorView>(v.deep_view()),
        Err(e) => expected == Err::<T::V, CedarlingBridgeErrorView>(e@),
    }
}

} // verus!
