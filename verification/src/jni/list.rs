//! Foreign lists: walked by asking for the size and then for each element
//! by index, from the first to the last.

use crate::error::{CedarlingBridgeError, CedarlingBridgeErrorView, is_result, misses};
use crate::jni::env::{JMethodID, JObject, JValue, JavaEnv, JavaEnvView};
use crate::jni::jni_cache::{JniCache, JniCacheView, Registration};
use crate::jni::util::{call_jni_int_method, call_jni_object_method, int_result, no_args};
use crate::jni::util::{lemma_reads_never_miss, object_result, one_arg};
use vstd::prelude::*;

verus! {

pub const JAVA_CLS_NAME: &'static str = "java/util/List";

pub const JAVA_METHOD_NAME_SIZE: &'static str = "size";

pub const JAVA_METHOD_SIG_SIZE: &'static str = "()I";

pub const JAVA_METHOD_NAME_GET: &'static str = "get";

pub const JAVA_METHOD_SIG_GET: &'static str = "(I)Ljava/lang/Object;";

/// A foreign list with the handles that walk it.
#[derive(Clone, Copy, Debug)]
pub struct JavaList {
    pub jobj: JObject,
    pub size_method: JMethodID,
    pub get_method: JMethodID,
}

impl JavaList {
    /// What the list converter registers.
    pub open spec fn registration(reg: Registration, env: JavaEnvView) -> Registration {
        reg.class(env, JAVA_CLS_NAME@).method(
            env,
            JAVA_CLS_NAME@,
            JAVA_METHOD_NAME_SIZE@,
            JAVA_METHOD_SIG_SIZE@,
        ).method(env, JAVA_CLS_NAME@, JAVA_METHOD_NAME_GET@, JAVA_METHOD_SIG_GET@)
    }

    /// Registers the list class and its two accessors.
    pub fn jni_cache_init(env: &JavaEnv, cache: &mut JniCache) -> (res: Result<
        (),
        CedarlingBridgeError,
    >)
        ensures
            Self::registration(Registration::start(old(cache)@), env@).is_outcome(
                res,
                final(cache)@,
            ),
    {
        cache.add_class(env, JAVA_CLS_NAME)?;
        cache.add_instance_method(env, JAVA_CLS_NAME, JAVA_METHOD_NAME_SIZE, JAVA_METHOD_SIG_SIZE)?;
        cache.add_instance_method(env, JAVA_CLS_NAME, JAVA_METHOD_NAME_GET, JAVA_METHOD_SIG_GET)
    }

    /// What wrapping a foreign list gives: nothing for the null reference,
    /// else the list with its handles from the cache.
    pub open spec fn wrapped(cache: JniCacheView, jobj: JObject) -> Result<
        Option<JavaList>,
        CedarlingBridgeErrorView,
    > {
        if jobj.is_null() {
            Ok(None)
        } else {
            match cache.method(JAVA_CLS_NAME@, JAVA_METHOD_NAME_SIZE@, JAVA_METHOD_SIG_SIZE@) {
                Err(e) => Err(e),
                Ok(size_method) => match cache.method(
                    JAVA_CLS_NAME@,
                    JAVA_METHOD_NAME_GET@,
                    JAVA_METHOD_SIG_GET@,
                ) {
                    Err(e) => Err(e),
                    Ok(get_method) => Ok(Some(JavaList { jobj, size_method, get_method })),
                },
            }
        }
    }

    /// Wraps a foreign list.
    pub fn new(cache: &JniCache, jobj: JObject) -> (res: Result<
        Option<JavaList>,
        CedarlingBridgeError,
    >)
        ensures
            is_result(res, Self::wrapped(cache@, jobj)),
    {
        if jobj.is_null() {
            return Ok(None);
        }
        let size_key = (JAVA_CLS_NAME, JAVA_METHOD_NAME_SIZE, JAVA_METHOD_SIG_SIZE);
        let get_key = (JAVA_CLS_NAME, JAVA_METHOD_NAME_GET, JAVA_METHOD_SIG_GET);
        Ok(
            Some(
                JavaList {
                    jobj: jobj,
                    size_method: cache.get_instance_method(&size_key)?,
                    get_method: cache.get_instance_method(&get_key)?,
                },
            ),
        )
    }

    /// What asking the list for its size gives.
    pub open spec fn spec_size(self, env: JavaEnvView) -> Result<i32, CedarlingBridgeErrorView> {
        int_result(env, self.jobj, self.size_method, Seq::empty())
    }

    /// Asks the list for its size.
    pub fn size(&self, env: &JavaEnv) -> (res: Result<i32, CedarlingBridgeError>)
        ensures
            is_result(res, self.spec_size(env@)),
    {
        call_jni_int_method(env, &self.jobj, &self.size_method, &no_args())
    }

    /// What asking the list for the element at an index gives.
    pub open spec fn spec_get(self, env: JavaEnvView, index: i32) -> Result<
        JObject,
        CedarlingBridgeErrorView,
    > {
        object_result(env, self.jobj, self.get_method, seq![JValue::Int(index)])
    }

    /// Asks the list for the element at an index.
    pub fn get(&self, env: &JavaEnv, index: i32) -> (res: Result<JObject, CedarlingBridgeError>)
        ensures
            is_result(res, self.spec_get(env@, index)),
    {
        let params = one_arg(JValue::Int(index));
        call_jni_object_method(env, &self.jobj, &self.get_method, &params)
    }

    /// The conversion of the elements from index `from` up to `count`, in
    /// the order of the list: each element is fetched and handed to
    /// `convert` with its index; the first failure ends the walk.
    pub open spec fn collect_from<T>(
        self,
        env: JavaEnvView,
        convert: spec_fn(i32, JObject) -> Result<T, CedarlingBridgeErrorView>,
        from: int,
        count: i32,
    ) -> Result<Seq<T>, CedarlingBridgeErrorView>
        decreases count - from,
    {
        if from < 0 || from >= count {
            Ok(Seq::empty())
        } else {
            match self.spec_get(env, from as i32) {
                Err(e) => Err(e),
                Ok(element) => match convert(from as i32, element) {
                    Err(e) => Err(e),
                    Ok(value) => match self.collect_from(env, convert, from + 1, count) {
                        Err(e) => Err(e),
                        Ok(rest) => Ok(seq![value] + rest),
                    },
                },
            }
        }
    }

    /// The conversion of the whole list: its size is asked for first, then
    /// each element from index 0 on.
    pub open spec fn collect<T>(
        self,
        env: JavaEnvView,
        convert: spec_fn(i32, JObject) -> Result<T, CedarlingBridgeErrorView>,
    ) -> Result<Seq<T>, CedarlingBridgeErrorView> {
        match self.spec_size(env) {
            Err(e) => Err(e),
            Ok(count) => self.collect_from(env, convert, 0, count),
        }
    }

    /// In a loop over the list that has converted the elements before
    /// `index` into `done`, the whole conversion is `done` followed by the
    /// conversion of what is left.
    pub open spec fn is_progress<T>(
        self,
        env: JavaEnvView,
        convert: spec_fn(i32, JObject) -> Result<T, CedarlingBridgeErrorView>,
        count: i32,
        index: int,
        done: Seq<T>,
    ) -> bool {
        self.collect_from(env, convert, 0, count) == match self.collect_from(
            env,
            convert,
            index,
            count,
        ) {
            Err(e) => Err::<Seq<T>, CedarlingBridgeErrorView>(e),
            Ok(rest) => Ok(done + rest),
        }
    }

    /// Before the first element nothing is done.
    pub proof fn lemma_progress_start<T>(
        self,
        env: JavaEnvView,
        convert: spec_fn(i32, JObject) -> Result<T, CedarlingBridgeErrorView>,
        count: i32,
    )
        ensures
            self.is_progress(env, convert, count, 0, Seq::empty()),
    {
        match self.collect_from(env, convert, 0, count) {
            Ok(rest) => {
                assert(Seq::<T>::empty() + rest =~= rest);
            },
            Err(_) => {},
        }
    }

    /// After the last element what is done is the whole conversion.
    pub proof fn lemma_progress_end<T>(
        self,
        env: JavaEnvView,
        convert: spec_fn(i32, JObject) -> Result<T, CedarlingBridgeErrorView>,
        count: i32,
        index: int,
        done: Seq<T>,
    )
        requires
            index >= count,
            self.is_progress(env, convert, count, index, done),
        ensures
            self.collect_from(env, convert, 0, count) == Ok::<Seq<T>, CedarlingBridgeErrorView>(
                done,
            ),
    {
        assert(done + Seq::<T>::empty() =~= done);
    }

    /// One more element converted keeps the walk on course.
    pub proof fn lemma_progress_step<T>(
        self,
        env: JavaEnvView,
        convert: spec_fn(i32, JObject) -> Result<T, CedarlingBridgeErrorView>,
        count: i32,
        index: int,
        done: Seq<T>,
        element: JObject,
        value: T,
    )
        requires
            0 <= index < count,
            self.is_progress(env, convert, count, index, done),
            self.spec_get(env, index as i32) == Ok::<JObject, CedarlingBridgeErrorView>(element),
            convert(index as i32, element) == Ok::<T, CedarlingBridgeErrorView>(value),
        ensures
            self.is_progress(env, convert, count, index + 1, done.push(value)),
    {
        match self.collect_from(env, convert, index + 1, count) {
            Ok(rest) => {
                assert(done + (seq![value] + rest) =~= done.push(value) + rest);
            },
            Err(_) => {},
        }
    }

    /// A list that was converted whole holds, at each index and in the order
    /// of the source, the conversion of the element that the source holds
    /// at that index.
    pub proof fn lemma_collect_keeps_order<T>(
        self,
        env: JavaEnvView,
        convert: spec_fn(i32, JObject) -> Result<T, CedarlingBridgeErrorView>,
        from: int,
        count: i32,
        out: Seq<T>,
    )
        requires
            0 <= from,
            self.collect_from(env, convert, from, count) == Ok::<Seq<T>, CedarlingBridgeErrorView>(
                out,
            ),
        ensures
            out.len() == (if from < count {
                count - from
            } else {
                0
            }),
            forall|i: int|
                from <= i < count ==> (#[trigger] self.spec_get(env, i as i32)) is Ok && convert(
                    i as i32,
                    self.spec_get(env, i as i32)->Ok_0,
                ) == Ok::<T, CedarlingBridgeErrorView>(out[i - from]),
        decreases count - from,
    {
        if from < count {
            let element = self.spec_get(env, from as i32)->Ok_0;
            let rest = self.collect_from(env, convert, from + 1, count)->Ok_0;
            self.lemma_collect_keeps_order(env, convert, from + 1, count, rest);
            assert(out == seq![convert(from as i32, element)->Ok_0] + rest);
            assert forall|i: int| from <= i < count implies (#[trigger] self.spec_get(
                env,
                i as i32,
            )) is Ok && convert(i as i32, self.spec_get(env, i as i32)->Ok_0) == Ok::<
                T,
                CedarlingBridgeErrorView,
            >(out[i - from]) by {
                if i > from {
                    assert(out[i - from] == rest[i - (from + 1)]);
                }
            }
        }
    }

    /// A walk whose steps never report a miss in the cache never reports
    /// one, from whichever index it starts.
    pub proof fn lemma_collect_from_never_misses<T>(
        self,
        env: JavaEnvView,
        convert: spec_fn(i32, JObject) -> Result<T, CedarlingBridgeErrorView>,
        from: int,
        count: i32,
    )
        requires
            forall|index: i32, element: JObject| !misses(#[trigger] convert(index, element)),
        ensures
            !misses(self.collect_from(env, convert, from, count)),
        decreases count - from,
    {
        if 0 <= from < count {
            lemma_reads_never_miss(
                env,
                self.jobj,
                self.get_method,
                seq![JValue::Int(from as i32)],
            );
            self.lemma_collect_from_never_misses(env, convert, from + 1, count);
        }
    }

    /// The conversion of a whole list never reports a miss in the cache
    /// where the conversion of an element never does.
    pub proof fn lemma_collect_never_misses<T>(
        self,
        env: JavaEnvView,
        convert: spec_fn(i32, JObject) -> Result<T, CedarlingBridgeErrorView>,
    )
        requires
            forall|index: i32, element: JObject| !misses(#[trigger] convert(index, element)),
        ensures
            !misses(self.collect(env, convert)),
    {
        lemma_reads_never_miss(env, self.jobj, self.size_method, Seq::empty());
        match self.spec_size(env) {
            Ok(count) => {
                self.lemma_collect_from_never_misses(env, convert, 0, count);
            },
            Err(_) => {},
        }
    }

    /// Whether the cache holds the class of this converter and every one of
    /// its handles.
    pub open spec fn is_registered(cache: JniCacheView) -> bool {
        &&& cache.classes.contains_key(JAVA_CLS_NAME@)
        &&& cache.methods.contains_key(
            (JAVA_CLS_NAME@, JAVA_METHOD_NAME_SIZE@, JAVA_METHOD_SIG_SIZE@),
        )
        &&& cache.methods.contains_key(
            (JAVA_CLS_NAME@, JAVA_METHOD_NAME_GET@, JAVA_METHOD_SIG_GET@),
        )
    }

    /// A run that has gone through the registration of this converter
    /// without a failure holds every one of its handles, and has dropped
    /// nothing that it held before.
    pub proof fn lemma_registration_holds(reg: Registration, env: JavaEnvView)
        ensures
            Self::registration(reg, env).continues(reg),
            Self::registration(reg, env).failure is None ==> Self::is_registered(
                Self::registration(reg, env).cache,
            ),
    {
        let r0 = reg.class(env, JAVA_CLS_NAME@);
        reg.lemma_class_is_held(env, JAVA_CLS_NAME@);
        let r1 = r0.method(env, JAVA_CLS_NAME@, JAVA_METHOD_NAME_SIZE@, JAVA_METHOD_SIG_SIZE@);
        r0.lemma_method_is_held(env, JAVA_CLS_NAME@, JAVA_METHOD_NAME_SIZE@, JAVA_METHOD_SIG_SIZE@);
        let r2 = r1.method(env, JAVA_CLS_NAME@, JAVA_METHOD_NAME_GET@, JAVA_METHOD_SIG_GET@);
        r1.lemma_method_is_held(env, JAVA_CLS_NAME@, JAVA_METHOD_NAME_GET@, JAVA_METHOD_SIG_GET@);
    }

    /// What the cache holds for this converter stays when more is registered.
    pub proof fn lemma_registered_stays(earlier: JniCacheView, later: JniCacheView)
        requires
            Self::is_registered(earlier),
            later.extends(earlier),
        ensures
            Self::is_registered(later),
    {
    }

    /// With every handle in the cache, wrapping an object finds them all:
    /// it cannot miss.
    pub proof fn lemma_registered_wraps(cache: JniCacheView, jobj: JObject)
        requires
            Self::is_registered(cache),
        ensures
            Self::wrapped(cache, jobj) is Ok,
            !jobj.is_null() ==> Self::wrapped(cache, jobj)->Ok_0 is Some,
    {
    }
}

} // verus!
