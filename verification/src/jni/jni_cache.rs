//! The cache of resolved handles.
//!
//! Classes are kept by name as durable references; methods and static fields
//! are kept by class name, member name and signature. Registration resolves
//! against the runtime and stores; lookup only reads.

use crate::error::{CedarlingBridgeError, CedarlingBridgeErrorView, is_result};
use crate::jni::env::{GlobalRef, JClass, JMethodID, JStaticFieldID, JavaEnv, JavaEnvView};
use crate::text::str_eq;
use vstd::prelude::*;

verus! {

/// A class as the cache keeps it.
#[derive(Debug)]
pub struct ClassEntry {
    pub name: String,
    pub class: GlobalRef,
}

/// A method or a static field as the cache keeps it.
#[derive(Debug)]
pub struct MemberEntry<H> {
    pub class: String,
    pub name: String,
    pub signature: String,
    pub handle: H,
}

/// The key of a member: class name, member name, signature.
pub type MemberKey = (Seq<char>, Seq<char>, Seq<char>);

/// The cache of resolved classes, methods and static fields.
#[derive(Debug)]
pub struct JniCache {
    classes: Vec<ClassEntry>,
    methods: Vec<MemberEntry<JMethodID>>,
    static_fields: Vec<MemberEntry<JStaticFieldID>>,
}

/// What a [`JniCache`] holds, as three maps.
pub struct JniCacheView {
    pub classes: Map<Seq<char>, GlobalRef>,
    pub methods: Map<MemberKey, JMethodID>,
    pub static_fields: Map<MemberKey, JStaticFieldID>,
}

/// The map that a list of class entries stands for: a later entry replaces
/// an earlier one of the same name.
pub open spec fn class_map(entries: Seq<ClassEntry>) -> Map<Seq<char>, GlobalRef>
    decreases entries.len(),
{
    if entries.len() == 0 {
        Map::empty()
    } else {
        class_map(entries.drop_last()).insert(entries.last().name@, entries.last().class)
    }
}

/// The map that a list of member entries stands for: a later entry replaces
/// an earlier one of the same key.
pub open spec fn member_map<H>(entries: Seq<MemberEntry<H>>) -> Map<MemberKey, H>
    decreases entries.len(),
{
    if entries.len() == 0 {
        Map::empty()
    } else {
        member_map(entries.drop_last()).insert(
            (entries.last().class@, entries.last().name@, entries.last().signature@),
            entries.last().handle,
        )
    }
}

impl View for JniCache {
    type V = JniCacheView;

    closed spec fn view(&self) -> JniCacheView {
        JniCacheView {
            classes: class_map(self.classes@),
            methods: member_map(self.methods@),
            static_fields: member_map(self.static_fields@),
        }
    }
}

impl JniCacheView {
    /// The cache with a class stored under its name.
    pub open spec fn with_class(self, name: Seq<char>, class: GlobalRef) -> JniCacheView {
        JniCacheView { classes: self.classes.insert(name, class), ..self }
    }

    /// The cache with a method handle stored under its key.
    pub open spec fn with_method(self, key: MemberKey, id: JMethodID) -> JniCacheView {
        JniCacheView { methods: self.methods.insert(key, id), ..self }
    }

    /// The cache with a static field handle stored under its key.
    pub open spec fn with_static_field(self, key: MemberKey, id: JStaticFieldID) -> JniCacheView {
        JniCacheView { static_fields: self.static_fields.insert(key, id), ..self }
    }

    /// Whether this cache holds every key that an earlier state of it held.
    pub open spec fn extends(self, earlier: JniCacheView) -> bool {
        &&& forall|name: Seq<char>| #[trigger]
            earlier.classes.contains_key(name) ==> self.classes.contains_key(name)
        &&& forall|key: MemberKey| #[trigger]
            earlier.methods.contains_key(key) ==> self.methods.contains_key(key)
        &&& forall|key: MemberKey| #[trigger]
            earlier.static_fields.contains_key(key) ==> self.static_fields.contains_key(key)
    }

    /// What looking up a class gives: the stored reference re-homed into the
    /// call context, or the report that the class was never registered.
    pub open spec fn class(self, env: JavaEnvView, name: Seq<char>) -> Result<
        JClass,
        CedarlingBridgeErrorView,
    > {
        if self.classes.contains_key(name) {
            match env.local_class(self.classes[name]) {
                Ok(class) => Ok(class),
                Err(e) => Err(CedarlingBridgeErrorView::Jni(e)),
            }
        } else {
            Err(CedarlingBridgeErrorView::CachedClassNotFound(name))
        }
    }

    /// What looking up a method gives: the stored handle, or the report that
    /// the method was never registered.
    pub open spec fn method(
        self,
        class: Seq<char>,
        name: Seq<char>,
        signature: Seq<char>,
    ) -> Result<
        JMethodID,
        CedarlingBridgeErrorView,
    > {
        if self.methods.contains_key((class, name, signature)) {
            Ok(self.methods[(class, name, signature)])
        } else {
            Err(CedarlingBridgeErrorView::CachedInstanceMethodNotFound { class, method: name })
        }
    }

    /// What looking up a static field gives: the stored handle, or the report
    /// that the field was never registered.
    pub open spec fn static_field(
        self,
        class: Seq<char>,
        name: Seq<char>,
        signature: Seq<char>,
    ) -> Result<JStaticFieldID, CedarlingBridgeErrorView> {
        if self.static_fields.contains_key((class, name, signature)) {
            Ok(self.static_fields[(class, name, signature)])
        } else {
            Err(CedarlingBridgeErrorView::CachedStaticFieldNotFound { class, field: name })
        }
    }
}

/// Where a run of registrations stands: what the cache holds, and the
/// failure that stopped the run, if one did. After a failure nothing more is
/// registered.
pub struct Registration {
    pub cache: JniCacheView,
    pub failure: Option<CedarlingBridgeErrorView>,
}

impl Registration {
    /// A run that has registered nothing yet.
    pub open spec fn start(cache: JniCacheView) -> Registration {
        Registration { cache, failure: None }
    }

    /// The run after one more class: resolved by the runtime and stored, or
    /// stopped by the runtime's failure.
    pub open spec fn class(self, env: JavaEnvView, name: Seq<char>) -> Registration {
        if self.failure is Some {
            self
        } else {
            match env.find_class(name) {
                Ok(class) => Registration {
                    cache: self.cache.with_class(name, GlobalRef { class: class.index }),
                    failure: None,
                },
                Err(e) => Registration {
                    cache: self.cache,
                    failure: Some(CedarlingBridgeErrorView::Jni(e)),
                },
            }
        }
    }

    /// The run after one more method: resolved by the runtime and stored, or
    /// stopped by the runtime's failure.
    pub open spec fn method(
        self,
        env: JavaEnvView,
        class: Seq<char>,
        name: Seq<char>,
        signature: Seq<char>,
    ) -> Registration {
        if self.failure is Some {
            self
        } else {
            match env.method_id(class, name, signature) {
                Ok(id) => Registration {
                    cache: self.cache.with_method((class, name, signature), id),
                    failure: None,
                },
                Err(e) => Registration {
                    cache: self.cache,
                    failure: Some(CedarlingBridgeErrorView::Jni(e)),
                },
            }
        }
    }

    /// The run after one more static field: resolved by the runtime and
    /// stored, or stopped by the runtime's failure.
    pub open spec fn static_field(
        self,
        env: JavaEnvView,
        class: Seq<char>,
        name: Seq<char>,
        signature: Seq<char>,
    ) -> Registration {
        if self.failure is Some {
            self
        } else {
            match env.static_field_id(class, name, signature) {
                Ok(id) => Registration {
                    cache: self.cache.with_static_field((class, name, signature), id),
                    failure: None,
                },
                Err(e) => Registration {
                    cache: self.cache,
                    failure: Some(CedarlingBridgeErrorView::Jni(e)),
                },
            }
        }
    }

    /// Whether this run has come this far from an earlier one without a
    /// failure: then the earlier one had not failed either, and every key
    /// that it held is still held.
    pub open spec fn continues(self, earlier: Registration) -> bool {
        self.failure is None ==> earlier.failure is None && self.cache.extends(earlier.cache)
    }

    /// A class that a run has registered is held, and the run has dropped
    /// nothing.
    pub proof fn lemma_class_is_held(self, env: JavaEnvView, name: Seq<char>)
        ensures
            self.class(env, name).continues(self),
            self.class(env, name).failure is None ==> self.class(
                env,
                name,
            ).cache.classes.contains_key(name),
    {
    }

    /// A method that a run has registered is held, and the run has dropped
    /// nothing.
    pub proof fn lemma_method_is_held(
        self,
        env: JavaEnvView,
        class: Seq<char>,
        name: Seq<char>,
        signature: Seq<char>,
    )
        ensures
            self.method(env, class, name, signature).continues(self),
            self.method(env, class, name, signature).failure is None ==> self.method(
                env,
                class,
                name,
                signature,
            ).cache.methods.contains_key((class, name, signature)),
    {
    }

    /// A static field that a run has registered is held, and the run has
    /// dropped nothing.
    pub proof fn lemma_static_field_is_held(
        self,
        env: JavaEnvView,
        class: Seq<char>,
        name: Seq<char>,
        signature: Seq<char>,
    )
        ensures
            self.static_field(env, class, name, signature).continues(self),
            self.static_field(env, class, name, signature).failure is None ==> self.static_field(
                env,
                class,
                name,
                signature,
            ).cache.static_fields.contains_key((class, name, signature)),
    {
    }

    /// A run that continues a run that continues a third continues the third.
    pub proof fn lemma_continues_on(self, middle: Registration, earlier: Registration)
        requires
            self.continues(middle),
            middle.continues(earlier),
        ensures
            self.continues(earlier),
    {
    }

    /// Holds when a registering function has done what the run describes: the
    /// cache is as the run left it, and the function reports the run's
    /// failure, or success where there was none.
    pub open spec fn is_outcome(
        self,
        res: Result<(), CedarlingBridgeError>,
        cache: JniCacheView,
    ) -> bool {
        &&& cache == self.cache
        &&& match res {
            Ok(()) => self.failure is None,
            Err(e) => self.failure == Some(e@),
        }
    }
}

/// A class that was registered is found by a lookup, and the lookup gives
/// the class that the runtime resolved; where the runtime could not resolve
/// it, the registration failed and stored nothing.
pub proof fn lemma_class_found_after_register(
    cache: JniCacheView,
    env: JavaEnvView,
    name: Seq<char>,
)
    requires
        env.wf(),
    ensures
        ({
            let run = Registration::start(cache).class(env, name);
            match env.find_class(name) {
                Ok(class) => run.failure is None && env.knows_class(class) && run.cache.class(
                    env,
                    name,
                ) == Ok::<JClass, CedarlingBridgeErrorView>(class),
                Err(e) => run.failure == Some(CedarlingBridgeErrorView::Jni(e)) && run.cache
                    == cache,
            }
        }),
{
    env.lemma_class_upto_known(name, env.classes.len() as int);
}

/// A method that was registered is found by a lookup, and the lookup gives
/// the handle that the runtime resolved, through which a call can be made;
/// where the runtime could not resolve it, the registration failed and
/// stored nothing.
pub proof fn lemma_method_found_after_register(
    cache: JniCacheView,
    env: JavaEnvView,
    class: Seq<char>,
    name: Seq<char>,
    signature: Seq<char>,
)
    requires
        env.wf(),
    ensures
        ({
            let run = Registration::start(cache).method(env, class, name, signature);
            match env.method_id(class, name, signature) {
                Ok(id) => run.failure is None && env.knows_method(id) && run.cache.method(
                    class,
                    name,
                    signature,
                ) == Ok::<JMethodID, CedarlingBridgeErrorView>(id),
                Err(e) => run.failure == Some(CedarlingBridgeErrorView::Jni(e)) && run.cache
                    == cache,
            }
        }),
{
    if let Some(c) = env.class_named(class) {
        env.lemma_method_upto_known(c, name, signature, env.methods.len() as int);
    }
}

/// A static field that was registered is found by a lookup, and the lookup
/// gives the handle that the runtime resolved, through which the field can
/// be read; where the runtime could not resolve it, the registration failed
/// and stored nothing.
pub proof fn lemma_static_field_found_after_register(
    cache: JniCacheView,
    env: JavaEnvView,
    class: Seq<char>,
    name: Seq<char>,
    signature: Seq<char>,
)
    requires
        env.wf(),
    ensures
        ({
            let run = Registration::start(cache).static_field(env, class, name, signature);
            match env.static_field_id(class, name, signature) {
                Ok(id) => run.failure is None && env.knows_field(id) && run.cache.static_field(
                    class,
                    name,
                    signature,
                ) == Ok::<JStaticFieldID, CedarlingBridgeErrorView>(id),
                Err(e) => run.failure == Some(CedarlingBridgeErrorView::Jni(e)) && run.cache
                    == cache,
            }
        }),
{
    if let Some(c) = env.class_named(class) {
        env.lemma_field_upto_known(c, name, signature, env.static_fields.len() as int);
    }
}

/// A lookup of what was never registered fails with the error of its kind,
/// which names what was looked for. In a cache that holds nothing every
/// lookup fails so.
pub proof fn lemma_unregistered_is_not_found(
    cache: JniCacheView,
    env: JavaEnvView,
    class: Seq<char>,
    name: Seq<char>,
    signature: Seq<char>,
)
    ensures
        !cache.classes.contains_key(class) ==> cache.class(env, class) == Err::<
            JClass,
            CedarlingBridgeErrorView,
        >(CedarlingBridgeErrorView::CachedClassNotFound(class)),
        !cache.methods.contains_key((class, name, signature)) ==> cache.method(
            class,
            name,
            signature,
        ) == Err::<JMethodID, CedarlingBridgeErrorView>(
            CedarlingBridgeErrorView::CachedInstanceMethodNotFound { class, method: name },
        ),
        !cache.static_fields.contains_key((class, name, signature)) ==> cache.static_field(
            class,
            name,
            signature,
        ) == Err::<JStaticFieldID, CedarlingBridgeErrorView>(
            CedarlingBridgeErrorView::CachedStaticFieldNotFound { class, field: name },
        ),
{
}

/// Registering one member leaves the lookup of every other member as it was.
pub proof fn lemma_register_keeps_others(
    cache: JniCacheView,
    env: JavaEnvView,
    class: Seq<char>,
    name: Seq<char>,
    signature: Seq<char>,
    other: MemberKey,
)
    requires
        other != (class, name, signature),
    ensures
        Registration::start(cache).method(env, class, name, signature).cache.method(
            other.0,
            other.1,
            other.2,
        ) == cache.method(other.0, other.1, other.2),
        Registration::start(cache).static_field(
            env,
            class,
            name,
            signature,
        ).cache.static_field(other.0, other.1, other.2) == cache.static_field(
            other.0,
            other.1,
            other.2,
        ),
        Registration::start(cache).method(env, class, name, signature).cache.static_field(
            other.0,
            other.1,
            other.2,
        ) == cache.static_field(other.0, other.1, other.2),
{
}

/// Finds the handle stored last under a key.
fn find_member<H: Copy>(
    entries: &Vec<MemberEntry<H>>,
    class: &str,
    name: &str,
    signature: &str,
) -> (res: Option<H>)
    ensures
        match res {
            Some(handle) => member_map(entries@).contains_key((class@, name@, signature@))
                && member_map(entries@)[(class@, name@, signature@)] == handle,
            None => !member_map(entries@).contains_key((class@, name@, signature@)),
        },
{
    let ghost key = (class@, name@, signature@);
    let mut i: usize = entries.len();
    assert(entries@.take(i as int) == entries@);
    while i > 0
        invariant
            i <= entries.len(),
            key == (class@, name@, signature@),
            member_map(entries@).contains_key(key) == member_map(
                entries@.take(i as int),
            ).contains_key(key),
            member_map(entries@).contains_key(key) ==> member_map(entries@)[key] == member_map(
                entries@.take(i as int),
            )[key],
        decreases i,
    {
        i -= 1;
        assert(entries@.take(i + 1).drop_last() == entries@.take(i as int));
        if str_eq(entries[i].class.as_str(), class) && str_eq(entries[i].name.as_str(), name)
            && str_eq(entries[i].signature.as_str(), signature) {
            return Some(entries[i].handle);
        }
    }
    None
}

impl JniCache {
    /// A cache that holds nothing.
    pub fn new() -> (cache: JniCache)
        ensures
            cache@.classes == Map::<Seq<char>, GlobalRef>::empty(),
            cache@.methods == Map::<MemberKey, JMethodID>::empty(),
            cache@.static_fields == Map::<MemberKey, JStaticFieldID>::empty(),
    {
        JniCache { classes: Vec::new(), methods: Vec::new(), static_fields: Vec::new() }
    }

    /// Resolves a class by name in the current call context, promotes it to
    /// a durable reference and stores it under the name.
    pub fn add_class(&mut self, env: &JavaEnv, name: &str) -> (res: Result<
        (),
        CedarlingBridgeError,
    >)
        ensures
            Registration::start(old(self)@).class(env@, name@).is_outcome(res, final(self)@),
    {
        let class = match env.find_class(name) {
            Ok(class) => class,
            Err(e) => {
                return Err(CedarlingBridgeError::Jni(e));
            },
        };
        let globalref = env.new_global_ref(&class);
        self.classes.push(ClassEntry { name: String::from_str(name), class: globalref });
        assert(self.classes@.drop_last() == old(self).classes@);
        Ok(())
    }

    /// Looks up a registered class and re-homes its durable reference into
    /// the current call context.
    pub fn get_class(&self, env: &JavaEnv, clsname: &str) -> (res: Result<
        JClass,
        CedarlingBridgeError,
    >)
        ensures
            is_result(res, self@.class(env@, clsname@)),
    {
        let mut i: usize = self.classes.len();
        assert(self.classes@.take(i as int) == self.classes@);
        while i > 0
            invariant
                i <= self.classes.len(),
                class_map(self.classes@).contains_key(clsname@) == class_map(
                    self.classes@.take(i as int),
                ).contains_key(clsname@),
                class_map(self.classes@).contains_key(clsname@) ==> class_map(
                    self.classes@,
                )[clsname@] == class_map(self.classes@.take(i as int))[clsname@],
            decreases i,
        {
            i -= 1;
            assert(self.classes@.take(i + 1).drop_last() == self.classes@.take(i as int));
            if str_eq(self.classes[i].name.as_str(), clsname) {
                return match env.new_local_ref(&self.classes[i].class) {
                    Ok(class) => Ok(class),
                    Err(e) => Err(CedarlingBridgeError::Jni(e)),
                };
            }
        }
        Err(CedarlingBridgeError::CachedClassNotFound(String::from_str(clsname)))
    }

    /// Resolves a method of a class against the runtime and stores its
    /// handle under class name, method name and signature.
    pub fn add_instance_method(
        &mut self,
        env: &JavaEnv,
        class: &str,
        name: &str,
        signature: &str,
    ) -> (res: Result<(), CedarlingBridgeError>)
        ensures
            Registration::start(old(self)@).method(env@, class@, name@, signature@).is_outcome(
                res,
                final(self)@,
            ),
    {
        let method_id = match env.get_method_id(class, name, signature) {
            Ok(id) => id,
            Err(e) => {
                return Err(CedarlingBridgeError::Jni(e));
            },
        };
        self.methods.push(
            MemberEntry {
                class: String::from_str(class),
                name: String::from_str(name),
                signature: String::from_str(signature),
                handle: method_id,
            },
        );
        assert(self.methods@.drop_last() == old(self).methods@);
        Ok(())
    }

    /// Looks up a registered method by class name, method name and signature.
    pub fn get_instance_method(&self, method: &(&str, &str, &str)) -> (res: Result<
        JMethodID,
        CedarlingBridgeError,
    >)
        ensures
            is_result(res, self@.method(method.0@, method.1@, method.2@)),
    {
        match find_member(&self.methods, method.0, method.1, method.2) {
            Some(id) => Ok(id),
            None => Err(
                CedarlingBridgeError::CachedInstanceMethodNotFound {
                    class: String::from_str(method.0),
                    method: String::from_str(method.1),
                },
            ),
        }
    }

    /// Resolves a static field of a class against the runtime and stores its
    /// handle under class name, field name and signature.
    pub fn add_static_field(
        &mut self,
        env: &JavaEnv,
        class: &str,
        name: &str,
        signature: &str,
    ) -> (res: Result<(), CedarlingBridgeError>)
        ensures
            Registration::start(old(self)@).static_field(
                env@,
                class@,
                name@,
                signature@,
            ).is_outcome(res, final(self)@),
    {
        let static_field_id = match env.get_static_field_id(class, name, signature) {
            Ok(id) => id,
            Err(e) => {
                return Err(CedarlingBridgeError::Jni(e));
            },
        };
        self.static_fields.push(
            MemberEntry {
                class: String::from_str(class),
                name: String::from_str(name),
                signature: String::from_str(signature),
                handle: static_field_id,
            },
        );
        assert(self.static_fields@.drop_last() == old(self).static_fields@);
        Ok(())
    }

    /// Looks up a registered static field by class name, field name and signature.
    pub fn get_static_field(&self, field: &(&str, &str, &str)) -> (res: Result<
        JStaticFieldID,
        CedarlingBridgeError,
    >)
        ensures
            is_result(res, self@.static_field(field.0@, field.1@, field.2@)),
    {
        match find_member(&self.static_fields, field.0, field.1, field.2) {
            Some(id) => Ok(id),
            None => Err(
                CedarlingBridgeError::CachedStaticFieldNotFound {
                    class: String::from_str(field.0),
                    field: String::from_str(field.1),
                },
            ),
        }
    }
}

} // verus!
