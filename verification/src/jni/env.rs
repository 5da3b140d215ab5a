//! The foreign runtime as the bridge sees it.
//!
//! A [`JavaEnv`] holds what a call context of the runtime can be asked for:
//! the classes it knows with their methods and static fields, the objects
//! that are alive, what each object answers when a method is invoked on it,
//! and a record of every constructor and mutator call that was made and of
//! every exception that was raised. Handles are plain indices into these
//! tables, so a handle that leads nowhere is an error and never a crash.

use crate::error::{JniError, JniErrorView};
use crate::text::str_eq;
use vstd::prelude::*;

verus! {

/// A reference to a foreign object, valid in the current call context.
/// Slot 0 is the null reference.
#[derive(Clone, Copy, Debug, PartialEq, Eq, Structural)]
pub struct JObject {
    pub slot: usize,
}

/// A reference to a class, valid in the current call context.
#[derive(Clone, Copy, Debug, PartialEq, Eq, Structural)]
pub struct JClass {
    pub index: usize,
}

/// A durable reference to a class: it stays valid after the call that made it.
#[derive(Clone, Copy, Debug, PartialEq, Eq, Structural)]
pub struct GlobalRef {
    pub class: usize,
}

/// The handle of a resolved method or constructor.
#[derive(Clone, Copy, Debug, PartialEq, Eq, Structural)]
pub struct JMethodID {
    pub index: usize,
}

/// The handle of a resolved static field.
#[derive(Clone, Copy, Debug, PartialEq, Eq, Structural)]
pub struct JStaticFieldID {
    pub index: usize,
}

/// A value that crosses the boundary as an argument or as a result.
#[derive(Clone, Copy, Debug, PartialEq, Eq, Structural)]
pub enum JValue {
    Void,
    Bool(bool),
    Int(i32),
    Long(i64),
    Object(JObject),
}

impl JObject {
    /// The null reference.
    pub fn null() -> (obj: JObject)
        ensures
            obj.slot == 0,
            obj.is_null(),
    {
        JObject { slot: 0 }
    }

    /// Whether this is the null reference.
    pub open spec fn spec_is_null(&self) -> bool {
        self.slot == 0
    }

    /// Whether this is the null reference.
    #[verifier::when_used_as_spec(spec_is_null)]
    pub fn is_null(&self) -> (null: bool)
        ensures
            null == self.spec_is_null(),
    {
        self.slot == 0
    }
}

/// A method or constructor that a class declares.
#[derive(Debug)]
pub struct JavaMethod {
    pub class: JClass,
    pub name: String,
    pub signature: String,
}

pub struct JavaMethodView {
    pub class: JClass,
    pub name: Seq<char>,
    pub signature: Seq<char>,
}

impl DeepView for JavaMethod {
    type V = JavaMethodView;

    open spec fn deep_view(&self) -> JavaMethodView {
        JavaMethodView { class: self.class, name: self.name@, signature: self.signature@ }
    }
}

/// A static field that a class declares, with the object it holds.
#[derive(Debug)]
pub struct JavaStaticField {
    pub class: JClass,
    pub name: String,
    pub signature: String,
    pub value: JObject,
}

pub struct JavaStaticFieldView {
    pub class: JClass,
    pub name: Seq<char>,
    pub signature: Seq<char>,
    pub value: JObject,
}

impl DeepView for JavaStaticField {
    type V = JavaStaticFieldView;

    open spec fn deep_view(&self) -> JavaStaticFieldView {
        JavaStaticFieldView {
            class: self.class,
            name: self.name@,
            signature: self.signature@,
            value: self.value,
        }
    }
}

/// What lives in one slot of the runtime's heap.
#[derive(Debug)]
pub enum JavaObject {
    /// Slot 0: what the null reference leads to.
    Null,
    /// A string with its characters.
    Text(String),
    /// An instance of a class.
    Instance(JClass),
}

pub enum JavaObjectView {
    Null,
    Text(Seq<char>),
    Instance(JClass),
}

impl DeepView for JavaObject {
    type V = JavaObjectView;

    open spec fn deep_view(&self) -> JavaObjectView {
        match *self {
            JavaObject::Null => JavaObjectView::Null,
            JavaObject::Text(text) => JavaObjectView::Text(text@),
            JavaObject::Instance(class) => JavaObjectView::Instance(class),
        }
    }
}

/// What an object returns when a method is invoked on it with given arguments.
#[derive(Debug)]
pub struct JavaAnswer {
    pub object: JObject,
    pub method: JMethodID,
    pub args: Vec<JValue>,
    pub value: JValue,
}

pub struct JavaAnswerView {
    pub object: JObject,
    pub method: JMethodID,
    pub args: Seq<JValue>,
    pub value: JValue,
}

impl DeepView for JavaAnswer {
    type V = JavaAnswerView;

    open spec fn deep_view(&self) -> JavaAnswerView {
        JavaAnswerView {
            object: self.object,
            method: self.method,
            args: self.args@,
            value: self.value,
        }
    }
}

/// A constructor or mutator call that was made: on which object (for a
/// constructor, the object that it made), through which handle, with which
/// arguments.
#[derive(Debug)]
pub struct JavaCall {
    pub object: JObject,
    pub method: JMethodID,
    pub args: Vec<JValue>,
}

pub struct JavaCallView {
    pub object: JObject,
    pub method: JMethodID,
    pub args: Seq<JValue>,
}

impl DeepView for JavaCall {
    type V = JavaCallView;

    open spec fn deep_view(&self) -> JavaCallView {
        JavaCallView { object: self.object, method: self.method, args: self.args@ }
    }
}

/// An exception that was raised: the name of its class and its message.
#[derive(Debug)]
pub struct JavaThrown {
    pub class: String,
    pub message: String,
}

pub struct JavaThrownView {
    pub class: Seq<char>,
    pub message: Seq<char>,
}

impl DeepView for JavaThrown {
    type V = JavaThrownView;

    open spec fn deep_view(&self) -> JavaThrownView {
        JavaThrownView { class: self.class@, message: self.message@ }
    }
}

/// One call context of the foreign runtime.
#[derive(Debug)]
pub struct JavaEnv {
    classes: Vec<String>,
    methods: Vec<JavaMethod>,
    static_fields: Vec<JavaStaticField>,
    objects: Vec<JavaObject>,
    answers: Vec<JavaAnswer>,
    calls: Vec<JavaCall>,
    thrown: Vec<JavaThrown>,
}

/// The state of a [`JavaEnv`] as contracts speak of it.
pub struct JavaEnvView {
    /// The names of the classes, by class index.
    pub classes: Seq<Seq<char>>,
    /// The declared methods and constructors, by handle.
    pub methods: Seq<JavaMethodView>,
    /// The declared static fields, by handle.
    pub static_fields: Seq<JavaStaticFieldView>,
    /// The heap, by slot.
    pub objects: Seq<JavaObjectView>,
    /// What the objects answer; of two answers to the same call the later holds.
    pub answers: Seq<JavaAnswerView>,
    /// The constructor and mutator calls made so far, oldest first.
    pub calls: Seq<JavaCallView>,
    /// The exceptions raised so far, oldest first.
    pub thrown: Seq<JavaThrownView>,
}

impl View for JavaEnv {
    type V = JavaEnvView;

    closed spec fn view(&self) -> JavaEnvView {
        JavaEnvView {
            classes: self.classes.deep_view(),
            methods: self.methods.deep_view(),
            static_fields: self.static_fields.deep_view(),
            objects: self.objects.deep_view(),
            answers: self.answers.deep_view(),
            calls: self.calls.deep_view(),
            thrown: self.thrown.deep_view(),
        }
    }
}

/// Holds when a result of a foreign call is the one that a contract describes.
pub open spec fn is_foreign_result<T>(
    res: Result<T, JniError>,
    expected: Result<T, JniErrorView>,
) -> bool {
    match res {
        Ok(v) => expected == Ok::<T, JniErrorView>(v),
        Err(e) => expected == Err::<T, JniErrorView>(e@),
    }
}

impl JavaEnvView {
    /// The class of the given name among the first `upto` classes, the last
    /// one if there are several.
    pub open spec fn class_upto(self, name: Seq<char>, upto: int) -> Option<JClass>
        decreases upto,
    {
        if upto <= 0 || upto > self.classes.len() {
            None
        } else if self.classes[upto - 1] == name {
            Some(JClass { index: (upto - 1) as usize })
        } else {
            self.class_upto(name, upto - 1)
        }
    }

    /// The class that the runtime resolves a name to.
    pub open spec fn class_named(self, name: Seq<char>) -> Option<JClass> {
        self.class_upto(name, self.classes.len() as int)
    }

    /// The method of a class with the given name and signature among the
    /// first `upto` methods.
    pub open spec fn method_upto(
        self,
        class: JClass,
        name: Seq<char>,
        signature: Seq<char>,
        upto: int,
    ) -> Option<JMethodID>
        decreases upto,
    {
        if upto <= 0 || upto > self.methods.len() {
            None
        } else if self.methods[upto - 1].class == class && self.methods[upto - 1].name == name
            && self.methods[upto - 1].signature == signature {
            Some(JMethodID { index: (upto - 1) as usize })
        } else {
            self.method_upto(class, name, signature, upto - 1)
        }
    }

    /// The static field of a class with the given name and signature among
    /// the first `upto` fields.
    pub open spec fn field_upto(
        self,
        class: JClass,
        name: Seq<char>,
        signature: Seq<char>,
        upto: int,
    ) -> Option<JStaticFieldID>
        decreases upto,
    {
        if upto <= 0 || upto > self.static_fields.len() {
            None
        } else if self.static_fields[upto - 1].class == class && self.static_fields[upto
            - 1].name == name && self.static_fields[upto - 1].signature == signature {
            Some(JStaticFieldID { index: (upto - 1) as usize })
        } else {
            self.field_upto(class, name, signature, upto - 1)
        }
    }

    /// What resolving a class by name gives.
    pub open spec fn find_class(self, name: Seq<char>) -> Result<JClass, JniErrorView> {
        match self.class_named(name) {
            Some(class) => Ok(class),
            None => Err(JniErrorView::ClassNotFound(name)),
        }
    }

    /// What resolving a method by class name, name and signature gives.
    pub open spec fn method_id(
        self,
        class: Seq<char>,
        name: Seq<char>,
        signature: Seq<char>,
    ) -> Result<JMethodID, JniErrorView> {
        match self.class_named(class) {
            None => Err(JniErrorView::ClassNotFound(class)),
            Some(c) => match self.method_upto(c, name, signature, self.methods.len() as int) {
                Some(id) => Ok(id),
                None => Err(JniErrorView::MethodNotFound { class, method: name }),
            },
        }
    }

    /// What resolving a static field by class name, name and signature gives.
    pub open spec fn static_field_id(
        self,
        class: Seq<char>,
        name: Seq<char>,
        signature: Seq<char>,
    ) -> Result<JStaticFieldID, JniErrorView> {
        match self.class_named(class) {
            None => Err(JniErrorView::ClassNotFound(class)),
            Some(c) => match self.field_upto(c, name, signature, self.static_fields.len() as int) {
                Some(id) => Ok(id),
                None => Err(JniErrorView::FieldNotFound { class, field: name }),
            },
        }
    }

    /// Whether the class handle leads to a class of this runtime.
    pub open spec fn knows_class(self, class: JClass) -> bool {
        class.index < self.classes.len()
    }

    /// Whether the method handle leads to a method of this runtime, so that a
    /// call can be made through it.
    pub open spec fn knows_method(self, method: JMethodID) -> bool {
        method.index < self.methods.len()
    }

    /// Whether the field handle leads to a static field of this runtime.
    pub open spec fn knows_field(self, field: JStaticFieldID) -> bool {
        field.index < self.static_fields.len()
    }

    /// Whether the reference leads to a live object.
    pub open spec fn is_live(self, obj: JObject) -> bool {
        0 < obj.slot < self.objects.len()
    }

    /// The answer of an object to a call, looked for among the first `upto` answers.
    pub open spec fn answer_upto(
        self,
        obj: JObject,
        method: JMethodID,
        args: Seq<JValue>,
        upto: int,
    ) -> Option<JValue>
        decreases upto,
    {
        if upto <= 0 || upto > self.answers.len() {
            None
        } else if self.answers[upto - 1].object == obj && self.answers[upto - 1].method == method
            && self.answers[upto - 1].args == args {
            Some(self.answers[upto - 1].value)
        } else {
            self.answer_upto(obj, method, args, upto - 1)
        }
    }

    /// The answer of an object to a call, if it has one.
    pub open spec fn answer(self, obj: JObject, method: JMethodID, args: Seq<JValue>) -> Option<
        JValue,
    > {
        self.answer_upto(obj, method, args, self.answers.len() as int)
    }

    /// What invoking a method on an object gives: a failure for the null
    /// reference, for a reference or a handle that leads nowhere and for a
    /// call that the object has no answer to, else the object's answer.
    pub open spec fn call(self, obj: JObject, method: JMethodID, args: Seq<JValue>) -> Result<
        JValue,
        JniErrorView,
    > {
        if obj.is_null() {
            Err(JniErrorView::NullPtr)
        } else if !self.is_live(obj) || !self.knows_method(method) {
            Err(JniErrorView::InvalidReference)
        } else {
            match self.answer(obj, method, args) {
                Some(value) => Ok(value),
                None => Err(JniErrorView::CallFailed),
            }
        }
    }

    /// What reading the characters of a string object gives.
    pub open spec fn string_of(self, obj: JObject) -> Result<Seq<char>, JniErrorView> {
        if obj.is_null() {
            Err(JniErrorView::NullPtr)
        } else if !self.is_live(obj) {
            Err(JniErrorView::InvalidReference)
        } else {
            match self.objects[obj.slot as int] {
                JavaObjectView::Text(text) => Ok(text),
                _ => Err(JniErrorView::WrongValueType),
            }
        }
    }

    /// What reading a static field of a class gives.
    pub open spec fn static_field(self, class: JClass, field: JStaticFieldID) -> Result<
        JObject,
        JniErrorView,
    > {
        if self.knows_field(field) && self.static_fields[field.index as int].class == class {
            Ok(self.static_fields[field.index as int].value)
        } else {
            Err(JniErrorView::InvalidReference)
        }
    }

    /// What re-homing a durable class reference into the call context gives.
    pub open spec fn local_class(self, global: GlobalRef) -> Result<JClass, JniErrorView> {
        if global.class < self.classes.len() {
            Ok(JClass { index: global.class })
        } else {
            Err(JniErrorView::InvalidReference)
        }
    }

    /// Whether a constructor call on this class through this handle can be made.
    pub open spec fn can_construct(self, class: JClass, ctor: JMethodID) -> bool {
        self.knows_class(class) && self.knows_method(ctor) && self.methods[ctor.index as int].class
            == class
    }

    /// Whether a mutator call on this object through this handle can be made.
    pub open spec fn can_mutate(self, obj: JObject, method: JMethodID) -> bool {
        self.is_live(obj) && self.knows_method(method)
    }

    /// Whether the tables are of a size that handles can index: true of
    /// the state of every runtime.
    pub open spec fn wf(self) -> bool {
        &&& self.classes.len() <= usize::MAX
        &&& self.methods.len() <= usize::MAX
        &&& self.static_fields.len() <= usize::MAX
        &&& self.objects.len() <= usize::MAX
    }

    /// A class that a name resolves to is a class of this runtime and bears
    /// the name.
    pub proof fn lemma_class_upto_known(self, name: Seq<char>, upto: int)
        requires
            self.wf(),
        ensures
            self.class_upto(name, upto) matches Some(class) ==> self.knows_class(class)
                && self.classes[class.index as int] == name,
        decreases upto,
    {
        if 0 < upto <= self.classes.len() && self.classes[upto - 1] != name {
            self.lemma_class_upto_known(name, upto - 1);
        }
    }

    /// A method that a key resolves to is a method of this runtime and
    /// bears the key.
    pub proof fn lemma_method_upto_known(
        self,
        class: JClass,
        name: Seq<char>,
        signature: Seq<char>,
        upto: int,
    )
        requires
            self.wf(),
        ensures
            self.method_upto(class, name, signature, upto) matches Some(id) ==> self.knows_method(
                id,
            ) && self.methods[id.index as int] == (JavaMethodView { class, name, signature }),
        decreases upto,
    {
        if 0 < upto <= self.methods.len() && !(self.methods[upto - 1].class == class
            && self.methods[upto - 1].name == name && self.methods[upto - 1].signature
            == signature) {
            self.lemma_method_upto_known(class, name, signature, upto - 1);
        }
    }

    /// A static field that a key resolves to is a field of this runtime and
    /// bears the key.
    pub proof fn lemma_field_upto_known(
        self,
        class: JClass,
        name: Seq<char>,
        signature: Seq<char>,
        upto: int,
    )
        requires
            self.wf(),
        ensures
            self.field_upto(class, name, signature, upto) matches Some(id) ==> self.knows_field(id)
                && self.static_fields[id.index as int].class == class
                && self.static_fields[id.index as int].name == name
                && self.static_fields[id.index as int].signature == signature,
        decreases upto,
    {
        if 0 < upto <= self.static_fields.len() && !(self.static_fields[upto - 1].class == class
            && self.static_fields[upto - 1].name == name && self.static_fields[upto
            - 1].signature == signature) {
            self.lemma_field_upto_known(class, name, signature, upto - 1);
        }
    }

    /// The runtime with one more class.
    pub open spec fn with_class(self, name: Seq<char>) -> JavaEnvView {
        JavaEnvView { classes: self.classes.push(name), ..self }
    }

    /// The runtime with one more method.
    pub open spec fn with_method(self, method: JavaMethodView) -> JavaEnvView {
        JavaEnvView { methods: self.methods.push(method), ..self }
    }

    /// The runtime with one more static field.
    pub open spec fn with_static_field(self, field: JavaStaticFieldView) -> JavaEnvView {
        JavaEnvView { static_fields: self.static_fields.push(field), ..self }
    }

    /// The runtime with one more object on its heap.
    pub open spec fn with_object(self, obj: JavaObjectView) -> JavaEnvView {
        JavaEnvView { objects: self.objects.push(obj), ..self }
    }

    /// The runtime with one more answer.
    pub open spec fn with_answer(self, answer: JavaAnswerView) -> JavaEnvView {
        JavaEnvView { answers: self.answers.push(answer), ..self }
    }

    /// The runtime with one more recorded call.
    pub open spec fn with_call(self, call: JavaCallView) -> JavaEnvView {
        JavaEnvView { calls: self.calls.push(call), ..self }
    }

    /// The runtime with one more raised exception.
    pub open spec fn with_thrown(self, thrown: JavaThrownView) -> JavaEnvView {
        JavaEnvView { thrown: self.thrown.push(thrown), ..self }
    }

    /// The reference to the object that the next allocation makes.
    pub open spec fn next_object(self) -> JObject {
        JObject { slot: self.objects.len() as usize }
    }

    /// The runtime after a string was made.
    pub open spec fn after_new_string(self, text: Seq<char>) -> JavaEnvView {
        self.with_object(JavaObjectView::Text(text))
    }

    /// The runtime after an object was constructed: the object is on the
    /// heap and the constructor call is on record.
    pub open spec fn after_new_object(
        self,
        class: JClass,
        ctor: JMethodID,
        args: Seq<JValue>,
    ) -> JavaEnvView {
        self.with_object(JavaObjectView::Instance(class)).with_call(
            JavaCallView { object: self.next_object(), method: ctor, args },
        )
    }

    /// The runtime after a mutator was invoked: the call is on record.
    pub open spec fn after_void_call(
        self,
        obj: JObject,
        method: JMethodID,
        args: Seq<JValue>,
    ) -> JavaEnvView {
        self.with_call(JavaCallView { object: obj, method, args })
    }
}

/// Copies a list of values.
pub fn copy_values(values: &Vec<JValue>) -> (copy: Vec<JValue>)
    ensures
        copy@ == values@,
{
    let mut copy: Vec<JValue> = Vec::new();
    let mut i: usize = 0;
    while i < values.len()
        invariant
            i <= values.len(),
            copy@ == values@.take(i as int),
        decreases values.len() - i,
    {
        copy.push(values[i]);
        assert(values@.take(i + 1) == values@.take(i as int).push(values@[i as int]));
        i += 1;
    }
    assert(values@.take(values.len() as int) == values@);
    copy
}

/// Tells whether two lists hold the same values in the same order.
pub fn same_values(a: &Vec<JValue>, b: &Vec<JValue>) -> (same: bool)
    ensures
        same == (a@ == b@),
{
    if a.len() != b.len() {
        return false;
    }
    let mut i: usize = 0;
    while i < a.len()
        invariant
            i <= a.len(),
            a.len() == b.len(),
            a@.take(i as int) == b@.take(i as int),
        decreases a.len() - i,
    {
        if a[i] != b[i] {
            return false;
        }
        assert(a@.take(i + 1) == a@.take(i as int).push(a@[i as int]));
        assert(b@.take(i + 1) == b@.take(i as int).push(b@[i as int]));
        i += 1;
    }
    assert(a@.take(a.len() as int) == a@);
    assert(b@.take(b.len() as int) == b@);
    true
}

impl JavaEnv {
    /// A runtime that knows no class and holds no object.
    pub fn new() -> (env: JavaEnv)
        ensures
            env@.classes.len() == 0,
            env@.methods.len() == 0,
            env@.static_fields.len() == 0,
            env@.objects == seq![JavaObjectView::Null],
            env@.answers.len() == 0,
            env@.calls.len() == 0,
            env@.thrown.len() == 0,
    {
        let mut objects: Vec<JavaObject> = Vec::new();
        objects.push(JavaObject::Null);
        let env = JavaEnv {
            classes: Vec::new(),
            methods: Vec::new(),
            static_fields: Vec::new(),
            objects,
            answers: Vec::new(),
            calls: Vec::new(),
            thrown: Vec::new(),
        };
        assert(env@.objects =~= seq![JavaObjectView::Null]);
        env
    }

    /// The state of a runtime is well formed.
    pub proof fn lemma_wf(&self)
        ensures
            self@.wf(),
    {
        assert(self.classes.deep_view().len() == self.classes.len());
        assert(self.methods.deep_view().len() == self.methods.len());
        assert(self.static_fields.deep_view().len() == self.static_fields.len());
        assert(self.objects.deep_view().len() == self.objects.len());
    }

    /// Resolves a class by its fully qualified name.
    pub fn find_class(&self, name: &str) -> (res: Result<JClass, JniError>)
        ensures
            is_foreign_result(res, self@.find_class(name@)),
    {
        let mut i: usize = self.classes.len();
        while i > 0
            invariant
                i <= self.classes.len(),
                self@.class_named(name@) == self@.class_upto(name@, i as int),
            decreases i,
        {
            i -= 1;
            if str_eq(self.classes[i].as_str(), name) {
                return Ok(JClass { index: i });
            }
        }
        Err(JniError::ClassNotFound(String::from_str(name)))
    }

    /// Resolves a method or constructor of a class.
    pub fn get_method_id(&self, class: &str, name: &str, signature: &str) -> (res: Result<
        JMethodID,
        JniError,
    >)
        ensures
            is_foreign_result(res, self@.method_id(class@, name@, signature@)),
    {
        let c = match self.find_class(class) {
            Ok(c) => c,
            Err(e) => {
                return Err(e);
            },
        };
        let mut i: usize = self.methods.len();
        while i > 0
            invariant
                i <= self.methods.len(),
                self@.class_named(class@) == Some(c),
                self@.method_upto(c, name@, signature@, self@.methods.len() as int)
                    == self@.method_upto(c, name@, signature@, i as int),
            decreases i,
        {
            i -= 1;
            if self.methods[i].class == c && str_eq(self.methods[i].name.as_str(), name) && str_eq(
                self.methods[i].signature.as_str(),
                signature,
            ) {
                return Ok(JMethodID { index: i });
            }
        }
        Err(
            JniError::MethodNotFound {
                class: String::from_str(class),
                method: String::from_str(name),
            },
        )
    }

    /// Resolves a static field of a class.
    pub fn get_static_field_id(&self, class: &str, name: &str, signature: &str) -> (res: Result<
        JStaticFieldID,
        JniError,
    >)
        ensures
            is_foreign_result(res, self@.static_field_id(class@, name@, signature@)),
    {
        let c = match self.find_class(class) {
            Ok(c) => c,
            Err(e) => {
                return Err(e);
            },
        };
        let mut i: usize = self.static_fields.len();
        while i > 0
            invariant
                i <= self.static_fields.len(),
                self@.class_named(class@) == Some(c),
                self@.field_upto(c, name@, signature@, self@.static_fields.len() as int)
                    == self@.field_upto(c, name@, signature@, i as int),
            decreases i,
        {
            i -= 1;
            if self.static_fields[i].class == c && str_eq(self.static_fields[i].name.as_str(), name)
                && str_eq(self.static_fields[i].signature.as_str(), signature) {
                return Ok(JStaticFieldID { index: i });
            }
        }
        Err(
            JniError::FieldNotFound {
                class: String::from_str(class),
                field: String::from_str(name),
            },
        )
    }

    /// Promotes a class reference to a durable one.
    pub fn new_global_ref(&self, class: &JClass) -> (global: GlobalRef)
        ensures
            global.class == class.index,
    {
        GlobalRef { class: class.index }
    }

    /// Re-homes a durable class reference into this call context.
    pub fn new_local_ref(&self, global: &GlobalRef) -> (res: Result<JClass, JniError>)
        ensures
            is_foreign_result(res, self@.local_class(*global)),
    {
        if global.class < self.classes.len() {
            Ok(JClass { index: global.class })
        } else {
            Err(JniError::InvalidReference)
        }
    }

    /// Invokes a method that returns a value and changes nothing.
    pub fn call_method(&self, obj: &JObject, method: &JMethodID, args: &Vec<JValue>) -> (res:
        Result<JValue, JniError>)
        ensures
            is_foreign_result(res, self@.call(*obj, *method, args@)),
    {
        if obj.is_null() {
            return Err(JniError::NullPtr);
        }
        if obj.slot >= self.objects.len() || method.index >= self.methods.len() {
            return Err(JniError::InvalidReference);
        }
        let mut i: usize = self.answers.len();
        while i > 0
            invariant
                i <= self.answers.len(),
                !obj.is_null(),
                self@.is_live(*obj),
                self@.knows_method(*method),
                self@.answer(*obj, *method, args@) == self@.answer_upto(
                    *obj,
                    *method,
                    args@,
                    i as int,
                ),
            decreases i,
        {
            i -= 1;
            if self.answers[i].object == *obj && self.answers[i].method == *method && same_values(
                &self.answers[i].args,
                args,
            ) {
                return Ok(self.answers[i].value);
            }
        }
        Err(JniError::CallFailed)
    }

    /// Reads the characters of a string object.
    pub fn get_string(&self, obj: &JObject) -> (res: Result<String, JniError>)
        ensures
            match res {
                Ok(text) => self@.string_of(*obj) == Ok::<Seq<char>, JniErrorView>(text@),
                Err(e) => self@.string_of(*obj) == Err::<Seq<char>, JniErrorView>(e@),
            },
    {
        if obj.is_null() {
            return Err(JniError::NullPtr);
        }
        if obj.slot >= self.objects.len() {
            return Err(JniError::InvalidReference);
        }
        match &self.objects[obj.slot] {
            JavaObject::Text(text) => Ok(text.clone()),
            _ => Err(JniError::WrongValueType),
        }
    }

    /// Reads a static field of a class.
    pub fn get_static_field(&self, class: &JClass, field: &JStaticFieldID) -> (res: Result<
        JObject,
        JniError,
    >)
        ensures
            is_foreign_result(res, self@.static_field(*class, *field)),
    {
        if field.index < self.static_fields.len() && self.static_fields[field.index].class
            == *class {
            Ok(self.static_fields[field.index].value)
        } else {
            Err(JniError::InvalidReference)
        }
    }

    /// Makes a string object.
    pub fn new_string(&mut self, text: &str) -> (obj: JObject)
        ensures
            final(self)@ == old(self)@.after_new_string(text@),
            obj == old(self)@.next_object(),
    {
        let slot = self.objects.len();
        self.objects.push(JavaObject::Text(String::from_str(text)));
        assert(self.objects.deep_view() =~= old(self).objects.deep_view().push(
            JavaObjectView::Text(text@),
        ));
        JObject { slot }
    }

    /// Constructs an object of a class through a constructor handle. Fails,
    /// and changes nothing, where the class or the handle is unknown or the
    /// handle belongs to another class.
    pub fn new_object(&mut self, class: &JClass, ctor: &JMethodID, args: &Vec<JValue>) -> (res:
        Result<JObject, JniError>)
        ensures
            match res {
                Ok(obj) => old(self)@.can_construct(*class, *ctor) && obj == old(
                    self,
                )@.next_object() && final(self)@ == old(self)@.after_new_object(
                    *class,
                    *ctor,
                    args@,
                ),
                Err(e) => !old(self)@.can_construct(*class, *ctor) && e@
                    == JniErrorView::InvalidReference && final(self)@ == old(self)@,
            },
    {
        if class.index >= self.classes.len() || ctor.index >= self.methods.len() {
            return Err(JniError::InvalidReference);
        }
        if self.methods[ctor.index].class != *class {
            return Err(JniError::InvalidReference);
        }
        let slot = self.objects.len();
        let obj = JObject { slot };
        self.objects.push(JavaObject::Instance(*class));
        self.calls.push(JavaCall { object: obj, method: *ctor, args: copy_values(args) });
        assert(self.objects.deep_view() =~= old(self).objects.deep_view().push(
            JavaObjectView::Instance(*class),
        ));
        assert(self.calls.deep_view() =~= old(self).calls.deep_view().push(
            JavaCallView { object: obj, method: *ctor, args: args@ },
        ));
        Ok(obj)
    }

    /// Invokes a method that returns nothing; the call goes on record. Fails,
    /// and changes nothing, for the null reference and for a reference or a
    /// handle that leads nowhere.
    pub fn call_void_method(
        &mut self,
        obj: &JObject,
        method: &JMethodID,
        args: &Vec<JValue>,
    ) -> (res:
        Result<(), JniError>)
        ensures
            match res {
                Ok(()) => old(self)@.can_mutate(*obj, *method) && final(self)@ == old(
                    self,
                )@.after_void_call(*obj, *method, args@),
                Err(e) => !old(self)@.can_mutate(*obj, *method) && final(self)@ == old(self)@
                    && e@ == (if obj.is_null() {
                    JniErrorView::NullPtr
                } else {
                    JniErrorView::InvalidReference
                }),
            },
    {
        if obj.is_null() {
            return Err(JniError::NullPtr);
        }
        if obj.slot >= self.objects.len() || method.index >= self.methods.len() {
            return Err(JniError::InvalidReference);
        }
        self.calls.push(JavaCall { object: *obj, method: *method, args: copy_values(args) });
        assert(self.calls.deep_view() =~= old(self).calls.deep_view().push(
            JavaCallView { object: *obj, method: *method, args: args@ },
        ));
        Ok(())
    }

    /// Raises an exception of the named class with a message. Fails, and
    /// raises nothing, where the runtime does not know the class.
    pub fn throw_new(&mut self, class: &str, message: &str) -> (res: Result<(), JniError>)
        ensures
            match res {
                Ok(()) => old(self)@.class_named(class@) is Some && final(self)@ == old(
                    self,
                )@.with_thrown(JavaThrownView { class: class@, message: message@ }),
                Err(e) => old(self)@.class_named(class@) is None && final(self)@ == old(self)@
                    && e@ == JniErrorView::ClassNotFound(class@),
            },
    {
        match self.find_class(class) {
            Ok(_) => {},
            Err(e) => {
                return Err(e);
            },
        }
        self.thrown.push(
            JavaThrown { class: String::from_str(class), message: String::from_str(message) },
        );
        assert(self.thrown.deep_view() =~= old(self).thrown.deep_view().push(
            JavaThrownView { class: class@, message: message@ },
        ));
        Ok(())
    }

    /// Declares a class, or finds it if the runtime knows one of this name.
    pub fn define_class(&mut self, name: &str) -> (class: JClass)
        ensures
            final(self)@.class_named(name@) == Some(class),
            match old(self)@.class_named(name@) {
                Some(known) => class == known && final(self)@ == old(self)@,
                None => class.index == old(self)@.classes.len() && final(self)@ == old(
                    self,
                )@.with_class(name@),
            },
    {
        match self.find_class(name) {
            Ok(class) => class,
            Err(_) => {
                let index = self.classes.len();
                self.classes.push(String::from_str(name));
                assert(self.classes.deep_view() =~= old(self).classes.deep_view().push(name@));
                JClass { index }
            },
        }
    }

    /// Declares a method or constructor of a class and hands out its handle.
    pub fn define_method(&mut self, class: &JClass, name: &str, signature: &str) -> (id: JMethodID)
        ensures
            id.index == old(self)@.methods.len(),
            final(self)@ == old(self)@.with_method(
                JavaMethodView { class: *class, name: name@, signature: signature@ },
            ),
            final(self)@.method_upto(*class, name@, signature@, final(self)@.methods.len() as int)
                == Some(id),
    {
        let index = self.methods.len();
        self.methods.push(
            JavaMethod {
                class: *class,
                name: String::from_str(name),
                signature: String::from_str(signature),
            },
        );
        assert(self.methods.deep_view() =~= old(self).methods.deep_view().push(
            JavaMethodView { class: *class, name: name@, signature: signature@ },
        ));
        JMethodID { index }
    }

    /// Declares a static field of a class, with the object it holds, and
    /// hands out its handle.
    pub fn define_static_field(
        &mut self,
        class: &JClass,
        name: &str,
        signature: &str,
        value: &JObject,
    ) -> (id: JStaticFieldID)
        ensures
            id.index == old(self)@.static_fields.len(),
            final(self)@ == old(self)@.with_static_field(
                JavaStaticFieldView {
                    class: *class,
                    name: name@,
                    signature: signature@,
                    value: *value,
                },
            ),
    {
        let index = self.static_fields.len();
        self.static_fields.push(
            JavaStaticField {
                class: *class,
                name: String::from_str(name),
                signature: String::from_str(signature),
                value: *value,
            },
        );
        assert(self.static_fields.deep_view() =~= old(self).static_fields.deep_view().push(
            JavaStaticFieldView {
                class: *class,
                name: name@,
                signature: signature@,
                value: *value,
            },
        ));
        JStaticFieldID { index }
    }

    /// Puts an instance of a class on the heap without any constructor call.
    pub fn new_instance(&mut self, class: &JClass) -> (obj: JObject)
        ensures
            obj == old(self)@.next_object(),
            final(self)@ == old(self)@.with_object(JavaObjectView::Instance(*class)),
    {
        let slot = self.objects.len();
        self.objects.push(JavaObject::Instance(*class));
        assert(self.objects.deep_view() =~= old(self).objects.deep_view().push(
            JavaObjectView::Instance(*class),
        ));
        JObject { slot }
    }

    /// Fixes what an object returns when the method is invoked on it with
    /// these arguments. A later answer to the same call replaces an earlier one.
    pub fn set_answer(
        &mut self,
        obj: &JObject,
        method: &JMethodID,
        args: &Vec<JValue>,
        value: JValue,
    )
        ensures
            final(self)@ == old(self)@.with_answer(
                JavaAnswerView { object: *obj, method: *method, args: args@, value },
            ),
            final(self)@.answer(*obj, *method, args@) == Some(value),
    {
        self.answers.push(
            JavaAnswer { object: *obj, method: *method, args: copy_values(args), value },
        );
        assert(self.answers.deep_view() =~= old(self).answers.deep_view().push(
            JavaAnswerView { object: *obj, method: *method, args: args@, value },
        ));
    }

    /// The declaration behind a method handle, if the handle leads to one.
    pub fn method_at(&self, method: &JMethodID) -> (res: Option<&JavaMethod>)
        ensures
            match res {
                Some(found) => self@.knows_method(*method) && found.deep_view()
                    == self@.methods[method.index as int],
                None => !self@.knows_method(*method),
            },
    {
        if method.index < self.methods.len() {
            Some(&self.methods[method.index])
        } else {
            None
        }
    }

    /// The name of a class, if the reference leads to one.
    pub fn class_name(&self, class: &JClass) -> (res: Option<&String>)
        ensures
            match res {
                Some(
                    name,
                ) => self@.knows_class(*class) && name@ == self@.classes[class.index as int],
                None => !self@.knows_class(*class),
            },
    {
        if class.index < self.classes.len() {
            Some(&self.classes[class.index])
        } else {
            None
        }
    }

    /// What lives in the slot that a reference leads to, if it leads to one.
    /// The null reference leads to slot 0.
    pub fn object_at(&self, obj: &JObject) -> (res: Option<&JavaObject>)
        ensures
            match res {
                Some(found) => obj.slot < self@.objects.len() && found.deep_view()
                    == self@.objects[obj.slot as int],
                None => obj.slot >= self@.objects.len(),
            },
    {
        if obj.slot < self.objects.len() {
            Some(&self.objects[obj.slot])
        } else {
            None
        }
    }

    /// The constructor and mutator calls made so far, oldest first.
    pub fn calls(&self) -> (calls: &Vec<JavaCall>)
        ensures
            calls.deep_view() == self@.calls,
    {
        &self.calls
    }

    /// The exceptions raised so far, oldest first.
    pub fn thrown(&self) -> (thrown: &Vec<JavaThrown>)
        ensures
            thrown.deep_view() == self@.thrown,
    {
        &self.thrown
    }
}

} // verus!
