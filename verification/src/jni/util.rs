//! The conversion primitives: each invokes a method through a cached handle
//! and turns what comes back into a native value.

use crate::error::{CedarlingBridgeError, CedarlingBridgeErrorView, is_result, is_result_of, misses};
use crate::error::JniErrorView;
use crate::jni::env::{JClass, JMethodID, JObject, JStaticFieldID, JValue, JavaEnv, JavaEnvView};
use crate::jni::env::JavaThrownView;
use crate::jni::jni_cache::{JniCache, JniCacheView, Registration};
use crate::text::{signed_decimal, signed_decimal_text};
use vstd::prelude::*;

verus! {

pub const CEDARLING_ERROR_CLSNAME: &'static str = "io/jans/cedarling/bridge/config/CedarlingError";

pub const CEDARLING_CONFIGURATION_ERROR_CLSNAME: &'static str =
    "io/jans/cedarling/bridge/config/CedarlingConfigurationError";

pub const CEDARLING_AUTHORIZATION_ERROR_CLSNAME: &'static str =
    "io/jans/cedarling/bridge/authz/CedarlingAuthorizationError";

pub const JAVA_OBJECT_CLSNAME: &'static str = "java/lang/Object";

pub const JAVA_OBJECT_METHOD_NAME_TO_STRING: &'static str = "toString";

pub const JAVA_OBJECT_METHOD_SIG_TO_STRING: &'static str = "()Ljava/lang/String;";

pub const JAVA_LONG_CLSNAME: &'static str = "java/lang/Long";

pub const JAVA_LONG_METHOD_NAME_LONG_VALUE: &'static str = "longValue";

pub const JAVA_LONG_METHOD_SIG_LONG_VALUE: &'static str = "()J";

/// What the primitives themselves register: the class of all objects with
/// its string form, and the unboxing of a boxed long.
pub open spec fn registration(reg: Registration, env: JavaEnvView) -> Registration {
    reg.class(env, JAVA_OBJECT_CLSNAME@).method(
        env,
        JAVA_OBJECT_CLSNAME@,
        JAVA_OBJECT_METHOD_NAME_TO_STRING@,
        JAVA_OBJECT_METHOD_SIG_TO_STRING@,
    ).method(
        env,
        JAVA_LONG_CLSNAME@,
        JAVA_LONG_METHOD_NAME_LONG_VALUE@,
        JAVA_LONG_METHOD_SIG_LONG_VALUE@,
    )
}

/// Whether the cache holds what the primitives themselves need.
pub open spec fn is_registered(cache: JniCacheView) -> bool {
    &&& cache.classes.contains_key(JAVA_OBJECT_CLSNAME@)
    &&& cache.methods.contains_key(
        (
            JAVA_OBJECT_CLSNAME@,
            JAVA_OBJECT_METHOD_NAME_TO_STRING@,
            JAVA_OBJECT_METHOD_SIG_TO_STRING@,
        ),
    )
    &&& cache.methods.contains_key(
        (JAVA_LONG_CLSNAME@, JAVA_LONG_METHOD_NAME_LONG_VALUE@, JAVA_LONG_METHOD_SIG_LONG_VALUE@),
    )
}

/// A run that has gone through the registration of the primitives without
/// a failure holds what they need, and has dropped nothing that it held
/// before.
pub proof fn lemma_registration_holds(reg: Registration, env: JavaEnvView)
    ensures
        registration(reg, env).continues(reg),
        registration(reg, env).failure is None ==> is_registered(registration(reg, env).cache),
{
    let r0 = reg.class(env, JAVA_OBJECT_CLSNAME@);
    reg.lemma_class_is_held(env, JAVA_OBJECT_CLSNAME@);
    let r1 = r0.method(
        env,
        JAVA_OBJECT_CLSNAME@,
        JAVA_OBJECT_METHOD_NAME_TO_STRING@,
        JAVA_OBJECT_METHOD_SIG_TO_STRING@,
    );
    r0.lemma_method_is_held(
        env,
        JAVA_OBJECT_CLSNAME@,
        JAVA_OBJECT_METHOD_NAME_TO_STRING@,
        JAVA_OBJECT_METHOD_SIG_TO_STRING@,
    );
    r1.lemma_method_is_held(
        env,
        JAVA_LONG_CLSNAME@,
        JAVA_LONG_METHOD_NAME_LONG_VALUE@,
        JAVA_LONG_METHOD_SIG_LONG_VALUE@,
    );
}

/// What the cache holds for the primitives stays when more is registered.
pub proof fn lemma_registered_stays(earlier: JniCacheView, later: JniCacheView)
    requires
        is_registered(earlier),
        later.extends(earlier),
    ensures
        is_registered(later),
{
}

/// With what the primitives need in the cache, asking an object for its
/// string form and unboxing a number fail only where the foreign call
/// fails: the cache cannot miss.
pub proof fn lemma_registered_reads(cache: JniCacheView)
    requires
        is_registered(cache),
    ensures
        cache.method(
            JAVA_OBJECT_CLSNAME@,
            JAVA_OBJECT_METHOD_NAME_TO_STRING@,
            JAVA_OBJECT_METHOD_SIG_TO_STRING@,
        ) is Ok,
        cache.method(
            JAVA_LONG_CLSNAME@,
            JAVA_LONG_METHOD_NAME_LONG_VALUE@,
            JAVA_LONG_METHOD_SIG_LONG_VALUE@,
        ) is Ok,
{
}

/// A foreign call that fails, fails as a foreign call: the primitives that
/// do not consult the cache never report a miss.
pub proof fn lemma_reads_never_miss(
    env: JavaEnvView,
    obj: JObject,
    method: JMethodID,
    args: Seq<JValue>,
)
    ensures
        !misses(object_result(env, obj, method, args)),
        !misses(long_result(env, obj, method, args)),
        !misses(int_result(env, obj, method, args)),
        !misses(bool_result(env, obj, method, args)),
        !misses(string_result(env, obj, method, args)),
        !misses(native_string(env, obj)),
{
}

/// With what the primitives need in the cache, the primitives that consult
/// the cache never report a miss either.
pub proof fn lemma_registered_never_misses(
    env: JavaEnvView,
    cache: JniCacheView,
    obj: JObject,
    method: JMethodID,
    args: Seq<JValue>,
)
    requires
        is_registered(cache),
    ensures
        !misses(opt_long_result(env, cache, obj, method, args)),
        !misses(string_form(env, cache, obj)),
{
    lemma_registered_reads(cache);
    match object_result(env, obj, method, args) {
        Ok(boxed) => {
            let long_value = cache.method(
                JAVA_LONG_CLSNAME@,
                JAVA_LONG_METHOD_NAME_LONG_VALUE@,
                JAVA_LONG_METHOD_SIG_LONG_VALUE@,
            )->Ok_0;
            lemma_reads_never_miss(env, boxed, long_value, Seq::empty());
        },
        Err(_) => {},
    }
    let to_string = cache.method(
        JAVA_OBJECT_CLSNAME@,
        JAVA_OBJECT_METHOD_NAME_TO_STRING@,
        JAVA_OBJECT_METHOD_SIG_TO_STRING@,
    )->Ok_0;
    lemma_reads_never_miss(env, obj, to_string, Seq::empty());
}

/// Registers what the primitives themselves need.
pub fn jni_cache_init(env: &JavaEnv, cache: &mut JniCache) -> (res: Result<
    (),
    CedarlingBridgeError,
>)
    ensures
        registration(Registration::start(old(cache)@), env@).is_outcome(res, final(cache)@),
{
    cache.add_class(env, JAVA_OBJECT_CLSNAME)?;
    cache.add_instance_method(
        env,
        JAVA_OBJECT_CLSNAME,
        JAVA_OBJECT_METHOD_NAME_TO_STRING,
        JAVA_OBJECT_METHOD_SIG_TO_STRING,
    )?;
    cache.add_instance_method(
        env,
        JAVA_LONG_CLSNAME,
        JAVA_LONG_METHOD_NAME_LONG_VALUE,
        JAVA_LONG_METHOD_SIG_LONG_VALUE,
    )
}

/// An argument list without arguments.
pub fn no_args() -> (args: Vec<JValue>)
    ensures
        args@ == Seq::<JValue>::empty(),
{
    Vec::new()
}

/// An argument list of one argument.
pub fn one_arg(arg: JValue) -> (args: Vec<JValue>)
    ensures
        args@ == seq![arg],
{
    let mut args: Vec<JValue> = Vec::new();
    args.push(arg);
    assert(args@ =~= seq![arg]);
    args
}

/// An argument list of two arguments.
pub fn two_args(first: JValue, second: JValue) -> (args: Vec<JValue>)
    ensures
        args@ == seq![first, second],
{
    let mut args: Vec<JValue> = Vec::new();
    args.push(first);
    args.push(second);
    assert(args@ =~= seq![first, second]);
    args
}

/// What a method that returns an object gives.
pub open spec fn object_result(
    env: JavaEnvView,
    obj: JObject,
    method: JMethodID,
    args: Seq<JValue>,
) -> Result<JObject, CedarlingBridgeErrorView> {
    match env.call(obj, method, args) {
        Ok(JValue::Object(value)) => Ok(value),
        Ok(_) => Err(CedarlingBridgeErrorView::Jni(JniErrorView::WrongValueType)),
        Err(e) => Err(CedarlingBridgeErrorView::Jni(e)),
    }
}

/// What a method that returns a 64-bit integer gives.
pub open spec fn long_result(
    env: JavaEnvView,
    obj: JObject,
    method: JMethodID,
    args: Seq<JValue>,
) -> Result<i64, CedarlingBridgeErrorView> {
    match env.call(obj, method, args) {
        Ok(JValue::Long(value)) => Ok(value),
        Ok(_) => Err(CedarlingBridgeErrorView::Jni(JniErrorView::WrongValueType)),
        Err(e) => Err(CedarlingBridgeErrorView::Jni(e)),
    }
}

/// What a method that returns a 32-bit integer gives.
pub open spec fn int_result(
    env: JavaEnvView,
    obj: JObject,
    method: JMethodID,
    args: Seq<JValue>,
) -> Result<i32, CedarlingBridgeErrorView> {
    match env.call(obj, method, args) {
        Ok(JValue::Int(value)) => Ok(value),
        Ok(_) => Err(CedarlingBridgeErrorView::Jni(JniErrorView::WrongValueType)),
        Err(e) => Err(CedarlingBridgeErrorView::Jni(e)),
    }
}

/// What a method that returns a boolean gives.
pub open spec fn bool_result(
    env: JavaEnvView,
    obj: JObject,
    method: JMethodID,
    args: Seq<JValue>,
) -> Result<bool, CedarlingBridgeErrorView> {
    match env.call(obj, method, args) {
        Ok(JValue::Bool(value)) => Ok(value),
        Ok(_) => Err(CedarlingBridgeErrorView::Jni(JniErrorView::WrongValueType)),
        Err(e) => Err(CedarlingBridgeErrorView::Jni(e)),
    }
}

/// The native text of a foreign string: nothing for the null reference.
pub open spec fn native_string(env: JavaEnvView, obj: JObject) -> Result<
    Option<Seq<char>>,
    CedarlingBridgeErrorView,
> {
    if obj.is_null() {
        Ok(None)
    } else {
        match env.string_of(obj) {
            Ok(text) => Ok(Some(text)),
            Err(e) => Err(CedarlingBridgeErrorView::Jni(e)),
        }
    }
}

/// What a method that returns a string gives: nothing for a null string.
pub open spec fn string_result(
    env: JavaEnvView,
    obj: JObject,
    method: JMethodID,
    args: Seq<JValue>,
) -> Result<Option<Seq<char>>, CedarlingBridgeErrorView> {
    match object_result(env, obj, method, args) {
        Ok(value) => native_string(env, value),
        Err(e) => Err(e),
    }
}

/// What a method that returns a boxed 64-bit integer gives: nothing for a
/// null box, else what unboxing it through the cached handle gives.
pub open spec fn opt_long_result(
    env: JavaEnvView,
    cache: JniCacheView,
    obj: JObject,
    method: JMethodID,
    args: Seq<JValue>,
) -> Result<Option<i64>, CedarlingBridgeErrorView> {
    match object_result(env, obj, method, args) {
        Err(e) => Err(e),
        Ok(boxed) => if boxed.is_null() {
            Ok(None)
        } else {
            match cache.method(
                JAVA_LONG_CLSNAME@,
                JAVA_LONG_METHOD_NAME_LONG_VALUE@,
                JAVA_LONG_METHOD_SIG_LONG_VALUE@,
            ) {
                Err(e) => Err(e),
                Ok(long_value) => match long_result(env, boxed, long_value, Seq::empty()) {
                    Ok(value) => Ok(Some(value)),
                    Err(e) => Err(e),
                },
            }
        },
    }
}

/// The string form of an object, asked for through the cached handle.
pub open spec fn string_form(env: JavaEnvView, cache: JniCacheView, obj: JObject) -> Result<
    Option<Seq<char>>,
    CedarlingBridgeErrorView,
> {
    match cache.method(
        JAVA_OBJECT_CLSNAME@,
        JAVA_OBJECT_METHOD_NAME_TO_STRING@,
        JAVA_OBJECT_METHOD_SIG_TO_STRING@,
    ) {
        Err(e) => Err(e),
        Ok(to_string) => string_result(env, obj, to_string, Seq::empty()),
    }
}

/// What reading an object out of a static field gives.
pub open spec fn static_field_object(
    env: JavaEnvView,
    class: JClass,
    field: JStaticFieldID,
) -> Result<JObject, CedarlingBridgeErrorView> {
    match env.static_field(class, field) {
        Ok(value) => Ok(value),
        Err(e) => Err(CedarlingBridgeErrorView::Jni(e)),
    }
}

/// The rule for a required field: the value if there is one, else the
/// error that names the field and its class.
pub open spec fn required<T>(val: Option<T>, class: Seq<char>, field: Seq<char>) -> Result<
    T,
    CedarlingBridgeErrorView,
> {
    match val {
        Some(v) => Ok(v),
        None => Err(CedarlingBridgeErrorView::FieldCannotBeNull { field, class }),
    }
}

/// The rule for a required field, applied to what the accessor of the field
/// gave: a failure of the accessor stays what it is.
pub open spec fn required_of<T>(
    got: Result<Option<T>, CedarlingBridgeErrorView>,
    class: Seq<char>,
    field: Seq<char>,
) -> Result<T, CedarlingBridgeErrorView> {
    match got {
        Err(e) => Err(e),
        Ok(val) => required(val, class, field),
    }
}

/// The rule for a required field lets a value through as it is, turns the
/// null result of the accessor into the error that names the class and the
/// field, and leaves a failure of the accessor as it is. It never makes up a
/// value.
pub proof fn lemma_required_field<T>(
    got: Result<Option<T>, CedarlingBridgeErrorView>,
    class: Seq<char>,
    field: Seq<char>,
)
    ensures
        got == Ok::<Option<T>, CedarlingBridgeErrorView>(None) ==> required_of(got, class, field)
            == Err::<T, CedarlingBridgeErrorView>(
            CedarlingBridgeErrorView::FieldCannotBeNull { field, class },
        ),
        got matches Ok(Some(value)) ==> required_of(got, class, field) == Ok::<
            T,
            CedarlingBridgeErrorView,
        >(value),
        got matches Err(e) ==> required_of(got, class, field) == Err::<
            T,
            CedarlingBridgeErrorView,
        >(e),
        required_of(got, class, field) is Ok ==> got == Ok::<Option<T>, CedarlingBridgeErrorView>(
            Some(required_of(got, class, field)->Ok_0),
        ),
{
}

/// An accessor that gives the null reference where a string or a boxed
/// number may stand gives an absent value, and no failure.
pub proof fn lemma_null_is_absent(
    env: JavaEnvView,
    cache: JniCacheView,
    obj: JObject,
    method: JMethodID,
    args: Seq<JValue>,
)
    requires
        object_result(env, obj, method, args) == Ok::<JObject, CedarlingBridgeErrorView>(
            JObject { slot: 0 },
        ),
    ensures
        string_result(env, obj, method, args) == Ok::<Option<Seq<char>>, CedarlingBridgeErrorView>(
            None,
        ),
        opt_long_result(env, cache, obj, method, args) == Ok::<
            Option<i64>,
            CedarlingBridgeErrorView,
        >(None),
{
}

/// The text of the error for a null element of a list: what was expected,
/// the field that holds the list, and the index of the element.
pub open spec fn null_element_text(what: Seq<char>, field: Seq<char>, index: i32) -> Seq<char> {
    what + " (field `"@ + field + "`, index "@ + signed_decimal(index as int) + ")"@
}

/// The error for a null element of a list.
pub open spec fn null_element(
    what: Seq<char>,
    field: Seq<char>,
    index: i32,
) -> CedarlingBridgeErrorView {
    CedarlingBridgeErrorView::GenericError(null_element_text(what, field, index))
}

/// Makes the error for a null element of a list.
pub fn null_element_error(what: &str, field: &str, index: i32) -> (err: CedarlingBridgeError)
    ensures
        err@ == null_element(what@, field@, index),
{
    let mut text = String::from_str(what);
    text.append(" (field `");
    text.append(field);
    text.append("`, index ");
    let number = signed_decimal_text(index);
    text.append(number.as_str());
    text.append(")");
    CedarlingBridgeError::GenericError(text)
}

/// What a step that changes the runtime leaves behind: the runtime after
/// it, and what it returns.
pub struct Effect<T> {
    pub env: JavaEnvView,
    pub result: Result<T, CedarlingBridgeErrorView>,
}

/// Holds when a function that changes the runtime has done what a contract
/// describes: the runtime is as described, and so is the result.
pub open spec fn is_effect<T>(
    res: Result<T, CedarlingBridgeError>,
    after: JavaEnvView,
    effect: Effect<T>,
) -> bool {
    after == effect.env && is_result(res, effect.result)
}

/// A step that fails and leaves the runtime as it was.
pub open spec fn failed<T>(env: JavaEnvView, err: CedarlingBridgeErrorView) -> Effect<T> {
    Effect { env, result: Err(err) }
}

/// What constructing an object does: the object is on the heap and the
/// constructor call on record, or, where the class or the handle is unknown
/// or the handle belongs to another class, nothing has changed.
pub open spec fn constructed(
    env: JavaEnvView,
    class: JClass,
    ctor: JMethodID,
    args: Seq<JValue>,
) -> Effect<JObject> {
    if env.can_construct(class, ctor) {
        Effect { env: env.after_new_object(class, ctor, args), result: Ok(env.next_object()) }
    } else {
        failed(env, CedarlingBridgeErrorView::Jni(JniErrorView::InvalidReference))
    }
}

/// What invoking a mutator does: the call is on record, or, for the null
/// reference and for a reference or a handle that leads nowhere, nothing has
/// changed.
pub open spec fn invoked(
    env: JavaEnvView,
    obj: JObject,
    method: JMethodID,
    args: Seq<JValue>,
) -> Effect<()> {
    if env.can_mutate(obj, method) {
        Effect { env: env.after_void_call(obj, method, args), result: Ok(()) }
    } else if obj.is_null() {
        failed(env, CedarlingBridgeErrorView::Jni(JniErrorView::NullPtr))
    } else {
        failed(env, CedarlingBridgeErrorView::Jni(JniErrorView::InvalidReference))
    }
}

/// What handing over the items of a native list one by one does, from the
/// item at `from` on: each step starts from the runtime that the step before
/// left, and the first failure ends the walk.
pub open spec fn each_added<A>(
    env: JavaEnvView,
    items: Seq<A>,
    from: int,
    hand_over: spec_fn(JavaEnvView, A) -> Effect<()>,
) -> Effect<()>
    decreases items.len() - from,
{
    if from < 0 || from >= items.len() {
        Effect { env, result: Ok(()) }
    } else {
        let step = hand_over(env, items[from]);
        match step.result {
            Err(_) => step,
            Ok(()) => each_added(step.env, items, from + 1, hand_over),
        }
    }
}

/// Handing over the items of a list never reports a miss in the cache
/// where handing over one item never does.
pub proof fn lemma_each_added_never_misses<A>(
    env: JavaEnvView,
    items: Seq<A>,
    from: int,
    hand_over: spec_fn(JavaEnvView, A) -> Effect<()>,
)
    requires
        forall|before: JavaEnvView, item: A| !misses(#[trigger] hand_over(before, item).result),
    ensures
        !misses(each_added(env, items, from, hand_over).result),
    decreases items.len() - from,
{
    if 0 <= from < items.len() {
        let step = hand_over(env, items[from]);
        if step.result is Ok {
            lemma_each_added_never_misses(step.env, items, from + 1, hand_over);
        }
    }
}

/// Constructs a foreign object through a cached constructor handle.
pub fn call_jni_object_constructor(
    env: &mut JavaEnv,
    class: &JClass,
    ctor_id: &JMethodID,
    args: &Vec<JValue>,
) -> (res: Result<JObject, CedarlingBridgeError>)
    ensures
        is_effect(res, final(env)@, constructed(old(env)@, *class, *ctor_id, args@)),
{
    match env.new_object(class, ctor_id, args) {
        Ok(obj) => Ok(obj),
        Err(e) => Err(CedarlingBridgeError::Jni(e)),
    }
}

/// Invokes a method that returns an object.
pub fn call_jni_object_method(
    env: &JavaEnv,
    obj: &JObject,
    method: &JMethodID,
    args: &Vec<JValue>,
) -> (res: Result<JObject, CedarlingBridgeError>)
    ensures
        is_result(res, object_result(env@, *obj, *method, args@)),
{
    match env.call_method(obj, method, args) {
        Ok(JValue::Object(value)) => Ok(value),
        Ok(_) => Err(CedarlingBridgeError::Jni(crate::error::JniError::WrongValueType)),
        Err(e) => Err(CedarlingBridgeError::Jni(e)),
    }
}

/// Invokes a method that returns nothing.
pub fn call_jni_void_method(
    env: &mut JavaEnv,
    obj: &JObject,
    method: &JMethodID,
    args: &Vec<JValue>,
) -> (res: Result<(), CedarlingBridgeError>)
    ensures
        is_effect(res, final(env)@, invoked(old(env)@, *obj, *method, args@)),
{
    match env.call_void_method(obj, method, args) {
        Ok(()) => Ok(()),
        Err(e) => Err(CedarlingBridgeError::Jni(e)),
    }
}

/// Invokes a method that returns a 64-bit integer.
pub fn call_jni_long_method(
    env: &JavaEnv,
    obj: &JObject,
    method: &JMethodID,
    args: &Vec<JValue>,
) -> (res: Result<i64, CedarlingBridgeError>)
    ensures
        is_result(res, long_result(env@, *obj, *method, args@)),
{
    match env.call_method(obj, method, args) {
        Ok(JValue::Long(value)) => Ok(value),
        Ok(_) => Err(CedarlingBridgeError::Jni(crate::error::JniError::WrongValueType)),
        Err(e) => Err(CedarlingBridgeError::Jni(e)),
    }
}

/// Invokes a method that returns a boxed 64-bit integer, which may be null.
pub fn call_jni_opt_long_method(
    env: &JavaEnv,
    cache: &JniCache,
    obj: &JObject,
    method: &JMethodID,
    args: &Vec<JValue>,
) -> (res: Result<Option<i64>, CedarlingBridgeError>)
    ensures
        is_result(res, opt_long_result(env@, cache@, *obj, *method, args@)),
{
    let tmp_obj = call_jni_object_method(env, obj, method, args)?;
    if tmp_obj.is_null() {
        return Ok(None);
    }
    let long_value_key = (
        JAVA_LONG_CLSNAME,
        JAVA_LONG_METHOD_NAME_LONG_VALUE,
        JAVA_LONG_METHOD_SIG_LONG_VALUE,
    );
    let long_value_method = cache.get_instance_method(&long_value_key)?;
    let value = call_jni_long_method(env, &tmp_obj, &long_value_method, &no_args())?;
    Ok(Some(value))
}

/// Invokes a method that returns a 32-bit integer.
pub fn call_jni_int_method(
    env: &JavaEnv,
    obj: &JObject,
    method: &JMethodID,
    args: &Vec<JValue>,
) -> (res: Result<i32, CedarlingBridgeError>)
    ensures
        is_result(res, int_result(env@, *obj, *method, args@)),
{
    match env.call_method(obj, method, args) {
        Ok(JValue::Int(value)) => Ok(value),
        Ok(_) => Err(CedarlingBridgeError::Jni(crate::error::JniError::WrongValueType)),
        Err(e) => Err(CedarlingBridgeError::Jni(e)),
    }
}

/// Invokes a method that returns a string, which may be null.
pub fn call_jni_string_method(
    env: &JavaEnv,
    obj: &JObject,
    method: &JMethodID,
    args: &Vec<JValue>,
) -> (res: Result<Option<String>, CedarlingBridgeError>)
    ensures
        is_result_of(res, string_result(env@, *obj, *method, args@)),
{
    let ret = call_jni_object_method(env, obj, method, args)?;
    java_string_to_native_string(env, &ret)
}

/// Invokes a method that returns a boolean.
pub fn call_jni_bool_method(
    env: &JavaEnv,
    obj: &JObject,
    method: &JMethodID,
    args: &Vec<JValue>,
) -> (res: Result<bool, CedarlingBridgeError>)
    ensures
        is_result(res, bool_result(env@, *obj, *method, args@)),
{
    match env.call_method(obj, method, args) {
        Ok(JValue::Bool(value)) => Ok(value),
        Ok(_) => Err(CedarlingBridgeError::Jni(crate::error::JniError::WrongValueType)),
        Err(e) => Err(CedarlingBridgeError::Jni(e)),
    }
}

/// Turns a foreign string into a native one: nothing for the null reference.
pub fn java_string_to_native_string(env: &JavaEnv, java_string: &JObject) -> (res: Result<
    Option<String>,
    CedarlingBridgeError,
>)
    ensures
        is_result_of(res, native_string(env@, *java_string)),
{
    if java_string.is_null() {
        return Ok(None);
    }
    match env.get_string(java_string) {
        Ok(text) => Ok(Some(text)),
        Err(e) => Err(CedarlingBridgeError::Jni(e)),
    }
}

/// Asks an object for its string form.
pub fn call_jni_method_to_string(env: &JavaEnv, cache: &JniCache, obj: &JObject) -> (res: Result<
    Option<String>,
    CedarlingBridgeError,
>)
    ensures
        is_result_of(res, string_form(env@, cache@, *obj)),
{
    let to_string_key = (
        JAVA_OBJECT_CLSNAME,
        JAVA_OBJECT_METHOD_NAME_TO_STRING,
        JAVA_OBJECT_METHOD_SIG_TO_STRING,
    );
    let method_id = cache.get_instance_method(&to_string_key)?;
    let res_as_obj = call_jni_object_method(env, obj, &method_id, &no_args())?;
    java_string_to_native_string(env, &res_as_obj)
}

/// Reads the object that a static field of a class holds.
pub fn get_static_field_object_value(
    env: &JavaEnv,
    class: &JClass,
    field_id: &JStaticFieldID,
    object_type: &str,
) -> (res: Result<JObject, CedarlingBridgeError>)
    ensures
        is_result(res, static_field_object(env@, *class, *field_id)),
{
    match env.get_static_field(class, field_id) {
        Ok(value) => Ok(value),
        Err(e) => Err(CedarlingBridgeError::Jni(e)),
    }
}

/// Holds when raising an exception of the named class did what it should:
/// the exception is on record, or the runtime does not know the class,
/// nothing is on record and the failure says so.
pub open spec fn is_thrown(
    res: Result<(), CedarlingBridgeError>,
    before: JavaEnvView,
    after: JavaEnvView,
    class: Seq<char>,
    message: Seq<char>,
) -> bool {
    match res {
        Ok(()) => before.class_named(class) is Some && after == before.with_thrown(
            JavaThrownView { class, message },
        ),
        Err(e) => before.class_named(class) is None && after == before && e@
            == CedarlingBridgeErrorView::Jni(JniErrorView::ClassNotFound(class)),
    }
}

/// Raises the bridge's general exception with a message.
pub fn throw_cedarling_error(env: &mut JavaEnv, message: &str) -> (res: Result<
    (),
    CedarlingBridgeError,
>)
    ensures
        is_thrown(res, old(env)@, final(env)@, CEDARLING_ERROR_CLSNAME@, message@),
{
    match env.throw_new(CEDARLING_ERROR_CLSNAME, message) {
        Ok(()) => Ok(()),
        Err(e) => Err(CedarlingBridgeError::Jni(e)),
    }
}

/// Raises the bridge's configuration exception with a message.
pub fn throw_cedarling_configuration_error(env: &mut JavaEnv, message: &str) -> (res: Result<
    (),
    CedarlingBridgeError,
>)
    ensures
        is_thrown(res, old(env)@, final(env)@, CEDARLING_CONFIGURATION_ERROR_CLSNAME@, message@),
{
    match env.throw_new(CEDARLING_CONFIGURATION_ERROR_CLSNAME, message) {
        Ok(()) => Ok(()),
        Err(e) => Err(CedarlingBridgeError::Jni(e)),
    }
}

/// Raises the bridge's authorization exception with a message.
pub fn throw_cedarling_authorization_error(env: &mut JavaEnv, message: &str) -> (res: Result<
    (),
    CedarlingBridgeError,
>)
    ensures
        is_thrown(res, old(env)@, final(env)@, CEDARLING_AUTHORIZATION_ERROR_CLSNAME@, message@),
{
    match env.throw_new(CEDARLING_AUTHORIZATION_ERROR_CLSNAME, message) {
        Ok(()) => Ok(()),
        Err(e) => Err(CedarlingBridgeError::Jni(e)),
    }
}

/// Lets a required value through and turns a missing one into the error
/// that names the field and its class.
pub fn require_some<T>(val: Option<T>, class: &'static str, field: &'static str) -> (res: Result<
    T,
    CedarlingBridgeError,
>)
    ensures
        is_result(res, required(val, class@, field@)),
{
    match val {
        Some(v) => Ok(v),
        None => Err(CedarlingBridgeError::FieldCannotBeNull { field, class }),
    }
}

} // verus!
