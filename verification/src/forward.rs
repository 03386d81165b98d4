//! Requests to the runtime and how they are carried out.
//!
//! A request starts at a module or at an object, follows a chain of
//! attribute names, and ends in one operation on what it reached: reading it,
//! assigning to one of its attributes, or invoking it.

use vstd::prelude::*;
use crate::error::{classify, kind_of, BindingError, ErrorKind, ErrorModel, Stage};
use crate::runtime::{
    py_as_bool,
    py_as_index,
    py_as_int,
    py_as_list,
    py_as_text,
    py_bool,
    py_call,
    py_dict,
    py_getattr,
    py_import,
    py_index,
    py_int,
    py_is_missing,
    py_items,
    py_iterator,
    py_list,
    py_locked,
    py_message,
    py_next,
    py_none,
    py_setattr,
    py_share,
    py_text,
};
use crate::value::{models, named_models, Handle, Shape, Unread, Value, ValueModel};

verus! {

/// Where a request starts.
#[derive(Debug)]
pub enum Root {
    /// The module of this dotted name.
    Module(String),
    /// This object.
    Object(Handle),
}

/// What a request does with what it reached.
#[derive(Debug)]
pub enum Op {
    /// Hands it back.
    Read,
    /// Assigns `value` to its attribute `name`.
    Write { name: String, value: Value },
    /// Invokes it with positional and named arguments.
    Invoke { args: Vec<Value>, kwargs: Vec<(String, Value)> },
}

/// One request, made on behalf of the facade type `facade`.
#[derive(Debug)]
pub struct Call {
    pub facade: String,
    pub root: Root,
    pub path: Vec<String>,
    pub op: Op,
}

/// The mathematical content of a [`Root`].
pub enum RootModel {
    Module(Seq<char>),
    Object(Handle),
}

/// The mathematical content of an [`Op`].
pub enum OpModel {
    Read,
    Write { name: Seq<char>, value: ValueModel },
    Invoke { args: Seq<ValueModel>, kwargs: Seq<(Seq<char>, ValueModel)> },
}

/// The mathematical content of a [`Call`].
pub struct CallModel {
    pub facade: Seq<char>,
    pub root: RootModel,
    pub path: Seq<Seq<char>>,
    pub op: OpModel,
}

impl View for Root {
    type V = RootModel;

    open spec fn view(&self) -> RootModel {
        match self {
            Root::Module(m) => RootModel::Module(m@),
            Root::Object(h) => RootModel::Object(*h),
        }
    }
}

impl View for Op {
    type V = OpModel;

    open spec fn view(&self) -> OpModel {
        match self {
            Op::Read => OpModel::Read,
            Op::Write { name, value } => OpModel::Write { name: name@, value: value@ },
            Op::Invoke { args, kwargs } => OpModel::Invoke {
                args: models(args@),
                kwargs: named_models(kwargs@),
            },
        }
    }
}

impl View for Call {
    type V = CallModel;

    open spec fn view(&self) -> CallModel {
        CallModel {
            facade: self.facade@,
            root: self.root@,
            path: self.path.deep_view(),
            op: self.op@,
        }
    }
}

impl CallModel {
    /// The member that the request is about: the attribute it assigns to, or
    /// else the last name of its path, or else the module it starts from.
    pub open spec fn member(self) -> Seq<char> {
        match self.op {
            OpModel::Write { name, .. } => name,
            _ => if self.path.len() > 0 {
                self.path.last()
            } else {
                match self.root {
                    RootModel::Module(m) => m,
                    RootModel::Object(_) => Seq::empty(),
                }
            },
        }
    }

    /// The stage at which the `i`-th name of the path is looked up.
    pub open spec fn lookup_stage(self, i: int) -> Stage {
        if self.op is Invoke && i == self.path.len() - 1 {
            Stage::MethodLookup
        } else {
            Stage::Lookup
        }
    }

    /// Whether nothing that the request hands to the runtime holds a real
    /// number.
    pub open spec fn real_free(self) -> bool {
        match self.op {
            OpModel::Read => true,
            OpModel::Write { value, .. } => value.real_free(),
            OpModel::Invoke { args, kwargs } => {
                &&& forall|i: int| 0 <= i < args.len() ==> (#[trigger] args[i]).real_free()
                &&& forall|i: int| 0 <= i < kwargs.len() ==> (#[trigger] kwargs[i]).1.real_free()
            },
        }
    }

    /// Whether the request, made for a value of shape `expect`, can end in
    /// an error of this kind about this member with this message:
    /// - the module could not be loaded;
    /// - a name of the path could not be looked up;
    /// - a value for the runtime could not be built, which needs a real
    ///   number among what is handed over;
    /// - the assignment or the invocation was refused;
    /// - the reply does not have the shape, which cannot be where the reply
    ///   is dropped or an object is expected; this error is the library's
    ///   own and has no message, every other message is the runtime's;
    /// - the runtime refused a walk over the reply, or raised at a step of
    ///   it, which needs a walk in the shape.
    pub open spec fn may_fail_with(
        self,
        expect: Shape,
        kind: ErrorKind,
        member: Seq<char>,
        message: Seq<char>,
    ) -> bool {
        ||| self.root == RootModel::Module(member) && kind == kind_of(Stage::Import, false)
        ||| exists|i: int, missing: bool|
            0 <= i < self.path.len() && member == self.path[i] && kind == kind_of(
                self.lookup_stage(i),
                missing,
            )
        ||| !(self.op is Read) && !self.real_free() && member == self.member() && kind == kind_of(
            Stage::Marshal,
            false,
        )
        ||| self.op is Write && member == self.member() && exists|missing: bool|
            kind == kind_of(Stage::Assign, missing)
        ||| self.op is Invoke && member == self.member() && kind == kind_of(Stage::Invoke, false)
        ||| !(expect is Ignored) && !(expect is Object) && member == self.member() && kind
            == kind_of(Stage::Extract, false) && message.len() == 0
        ||| expect.walks() && member == self.member() && (kind == kind_of(Stage::Iterate, false)
            || kind == kind_of(Stage::Step, false))
    }

    /// Whether the request only hands back the object it starts from.
    pub open spec fn reads_root(self) -> bool {
        self.root is Object && self.path.len() == 0 && self.op is Read
    }

    /// What holds of every reply to the request when a value of shape
    /// `expect` is asked for: a value has that shape, and is the very object
    /// that the request starts from where the request only hands that
    /// object back; an error names the request's facade and is one the
    /// request can end in.
    pub open spec fn answered_by(self, expect: Shape, reply: Result<Value, BindingError>) -> bool {
        match reply {
            Ok(v) => {
                &&& v@.conforms(expect)
                &&& self.reads_root() && expect is Object ==> v@ == ValueModel::Object(
                    self.root->Object_0,
                )
            },
            Err(e) => e@.facade == self.facade && self.may_fail_with(
                expect,
                e@.kind,
                e@.member,
                e@.message,
            ),
        }
    }
}

/// Builds the runtime's real number for a decimal literal, with the
/// runtime's own `float`. The error is the runtime's message.
fn marshal_real(text: &str) -> (r: Result<pyo3::Py<pyo3::PyAny>, String>) {
    let builtins = match py_import("builtins") {
        Ok(m) => m,
        Err(e) => {
            return Err(py_message(&e));
        },
    };
    let float = match py_getattr(&builtins, "float") {
        Ok(f) => f,
        Err(e) => {
            return Err(py_message(&e));
        },
    };
    let mut args: Vec<pyo3::Py<pyo3::PyAny>> = Vec::new();
    args.push(py_text(text));
    match py_call(&float, args, Vec::new()) {
        Ok(x) => Ok(x),
        Err(e) => Err(py_message(&e)),
    }
}

/// Builds the runtime's representation of a value. Only a real number whose
/// literal the runtime does not accept can fail, so a value without real
/// numbers always has a representation; the error is the runtime's message.
/// A reference to an object is represented by that very object.
fn marshal(value: &Value) -> (r: Result<pyo3::Py<pyo3::PyAny>, String>)
    ensures
        value@.real_free() ==> r is Ok,
        r matches Ok(object) ==> value@.carried_by(object),
    decreases value, 0nat,
{
    match value {
        Value::Nothing => Ok(py_none()),
        Value::Bool(b) => Ok(py_bool(*b)),
        Value::Int(i) => Ok(py_int(*i)),
        Value::Index(i) => Ok(py_index(*i)),
        Value::Real(s) => marshal_real(s.as_str()),
        Value::Text(s) => Ok(py_text(s.as_str())),
        Value::List(items) => {
            proof {
                value.view_of_list();
                assert forall|i: int| 0 <= i < items@.len() && value@.real_free() implies (
                #[trigger] items@[i])@.real_free() by {
                    assert(value@->List_0[i] == items@[i]@);
                }
            }
            match marshal_all(items) {
                Ok(objects) => Ok(py_list(objects)),
                Err(m) => Err(m),
            }
        },
        Value::Dict(entries) => {
            proof {
                value.view_of_dict();
                assert forall|i: int| 0 <= i < entries@.len() && value@.real_free() implies (
                #[trigger] entries@[i]).1@.real_free() by {
                    assert(value@->Dict_0[i] == (entries@[i].0@, entries@[i].1@));
                }
            }
            match marshal_named(entries) {
                Ok(objects) => Ok(py_dict(objects)),
                Err(m) => Err(m),
            }
        },
        Value::Object(h) => Ok(py_share(&h.object)),
    }
}

/// Builds the runtime's representation of each value of a list: as many
/// objects as there are values, in their order. It fails where one of the
/// values has no representation, which a list without real numbers never
/// does.
#[verifier::loop_isolation(false)]
fn marshal_all(values: &Vec<Value>) -> (r: Result<Vec<pyo3::Py<pyo3::PyAny>>, String>)
    ensures
        (forall|i: int| 0 <= i < values@.len() ==> (#[trigger] values@[i])@.real_free()) ==> r is Ok,
        r matches Ok(objects) ==> {
            &&& objects@.len() == values@.len()
            &&& forall|i: int|
                0 <= i < values@.len() ==> (#[trigger] values@[i])@.carried_by(objects@[i])
        },
    decreases values, 1nat,
{
    let mut objects: Vec<pyo3::Py<pyo3::PyAny>> = Vec::new();
    let mut i: usize = 0;
    while i < values.len()
        invariant
            i <= values.len(),
            objects@.len() == i,
            forall|j: int| 0 <= j < i ==> (#[trigger] values@[j])@.carried_by(objects@[j]),
        decreases values.len() - i,
    {
        match marshal(&values[i]) {
            Ok(o) => objects.push(o),
            Err(m) => {
                assert(!values@[i as int]@.real_free());
                return Err(m);
            },
        }
        i = i + 1;
    }
    Ok(objects)
}

/// Builds the runtime's representation of each value of a list of named
/// values: as many named objects as there are named values, in their order
/// and under their names. It fails where one of the values has no
/// representation, which a list without real numbers never does.
#[verifier::loop_isolation(false)]
fn marshal_named(values: &Vec<(String, Value)>) -> (r: Result<
    Vec<(String, pyo3::Py<pyo3::PyAny>)>,
    String,
>)
    ensures
        (forall|i: int| 0 <= i < values@.len() ==> (#[trigger] values@[i]).1@.real_free()) ==> r is Ok,
        r matches Ok(objects) ==> {
            &&& objects@.len() == values@.len()
            &&& forall|i: int|
                0 <= i < values@.len() ==> (#[trigger] objects@[i]).0@ == values@[i].0@
                    && values@[i].1@.carried_by(objects@[i].1)
        },
    decreases values, 1nat,
{
    let mut objects: Vec<(String, pyo3::Py<pyo3::PyAny>)> = Vec::new();
    let mut i: usize = 0;
    while i < values.len()
        invariant
            i <= values.len(),
            objects@.len() == i,
            forall|j: int|
                0 <= j < i ==> (#[trigger] objects@[j]).0@ == values@[j].0@
                    && values@[j].1@.carried_by(objects@[j].1),
        decreases values.len() - i,
    {
        match marshal(&values[i].1) {
            Ok(o) => objects.push((values[i].0.clone(), o)),
            Err(m) => {
                assert(!values@[i as int].1@.real_free());
                return Err(m);
            },
        }
        i = i + 1;
    }
    Ok(objects)
}

/// Converts an object of the runtime into a plain value of the expected
/// shape, or says why it cannot be read. Two shapes fit every object: where
/// the reply is dropped the value is `Nothing`, and where an object is
/// expected the value is a handle to this very object. What the runtime
/// lists for a sequence, for a walk or for a mapping is read by `read_all`
/// and `read_named`; a walk is listed step by step by `walk_step`.
fn unmarshal(object: pyo3::Py<pyo3::PyAny>, expect: &Shape) -> (r: Result<Value, Unread>)
    ensures
        r matches Ok(v) ==> v@.read_from(object, *expect),
        *expect is Ignored ==> r == Ok::<Value, Unread>(Value::Nothing),
        *expect is Object ==> r == Ok::<Value, Unread>(Value::Object(Handle { object })),
        r matches Err(why) ==> why is Mismatch || expect.walks(),
    decreases expect, 0nat,
{
    match expect {
        Shape::Ignored => Ok(Value::Nothing),
        Shape::Bool => match py_as_bool(&object) {
            Some(b) => Ok(Value::Bool(b)),
            None => Err(Unread::Mismatch),
        },
        Shape::Int => match py_as_int(&object) {
            Some(i) => Ok(Value::Int(i)),
            None => Err(Unread::Mismatch),
        },
        Shape::Index => match py_as_index(&object) {
            Some(i) => Ok(Value::Index(i)),
            None => Err(Unread::Mismatch),
        },
        Shape::Text => match py_as_text(&object) {
            Some(s) => Ok(Value::Text(s)),
            None => Err(Unread::Mismatch),
        },
        Shape::Object => Ok(Value::Object(Handle { object })),
        Shape::List(inner) => {
            let objects = match py_as_list(&object) {
                Some(objects) => objects,
                None => {
                    return Err(Unread::Mismatch);
                },
            };
            match read_all(objects, inner) {
                Ok(items) => Ok(list_of(items, Ghost(**inner))),
                Err(why) => Err(why),
            }
        },
        Shape::Iterable(inner) => {
            let walk = match py_iterator(&object) {
                Ok(walk) => walk,
                Err(e) => {
                    return Err(Unread::Unwalkable(py_message(&e)));
                },
            };
            let objects = match walked(&walk) {
                Ok(objects) => objects,
                Err(e) => {
                    return Err(Unread::Raised(py_message(&e)));
                },
            };
            match read_all(objects, inner) {
                Ok(items) => Ok(list_of(items, Ghost(**inner))),
                Err(why) => Err(why),
            }
        },
        Shape::Dict(inner) => {
            let items = match py_items(&object) {
                Some(items) => items,
                None => {
                    return Err(Unread::Mismatch);
                },
            };
            let named = match named_items(items) {
                Some(named) => named,
                None => {
                    return Err(Unread::Mismatch);
                },
            };
            match read_named(named, inner) {
                Ok(entries) => {
                    let value = Value::Dict(entries);
                    proof {
                        value.view_of_dict();
                        assert forall|j: int| 0 <= j < value@->Dict_0.len() implies (
                        #[trigger] value@->Dict_0[j]).1.conforms(**inner) by {
                            assert(entries@[j].1@.conforms(**inner));
                        }
                    }
                    Ok(value)
                },
                Err(why) => Err(why),
            }
        },
    }
}

/// The list of the given values, all of which have the shape `inner`.
fn list_of(items: Vec<Value>, Ghost(inner): Ghost<Shape>) -> (value: Value)
    requires
        forall|i: int| 0 <= i < items@.len() ==> (#[trigger] items@[i])@.conforms(inner),
    ensures
        value == Value::List(items),
        value@.conforms(Shape::List(Box::new(inner))),
        value@.conforms(Shape::Iterable(Box::new(inner))),
{
    let value = Value::List(items);
    proof {
        value.view_of_list();
        assert forall|j: int| 0 <= j < value@->List_0.len() implies (
        #[trigger] value@->List_0[j]).conforms(inner) by {
            assert(items@[j]@.conforms(inner));
        }
    }
    value
}

/// What one step of a walk makes of the objects listed so far. At the end
/// of the walk the list is complete as it stands. An object that the step
/// gives joins the list as its last, and the walk goes on. A step at which
/// the runtime raised ends the walk with that exception: nothing is passed
/// over.
pub fn walk_step(
    listed: Vec<pyo3::Py<pyo3::PyAny>>,
    step: Option<Result<pyo3::Py<pyo3::PyAny>, pyo3::PyErr>>,
) -> (r: Result<(Vec<pyo3::Py<pyo3::PyAny>>, bool), pyo3::PyErr>)
    ensures
        step is None ==> (r matches Ok(pair) && pair.0@ == listed@ && !pair.1),
        step matches Some(Ok(object)) ==> (r matches Ok(pair) && pair.0@ == listed@.push(object)
            && pair.1),
        step matches Some(Err(e)) ==> (r matches Err(f) && f == e),
{
    match step {
        None => Ok((listed, false)),
        Some(Ok(object)) => {
            let mut longer = listed;
            longer.push(object);
            Ok((longer, true))
        },
        Some(Err(e)) => Err(e),
    }
}

/// Walks to the end of what `walk` gives and lists the objects met, in the
/// order of the walk: takes a step, lets `walk_step` decide, and goes on
/// while there is more. The runtime decides what each step gives.
fn walked(walk: &pyo3::Py<pyo3::PyAny>) -> (r: Result<Vec<pyo3::Py<pyo3::PyAny>>, pyo3::PyErr>) {
    let mut listed: Vec<pyo3::Py<pyo3::PyAny>> = Vec::new();
    let mut steps: usize = 0;
    while steps < usize::MAX
        invariant
            steps <= usize::MAX,
        decreases usize::MAX - steps,
    {
        match walk_step(listed, py_next(walk)) {
            Ok((longer, more)) => {
                if !more {
                    return Ok(longer);
                }
                listed = longer;
            },
            Err(e) => {
                return Err(e);
            },
        }
        steps = steps + 1;
    }
    Ok(listed)
}

/// Reads the key of each entry that the runtime listed for a mapping as a
/// name; `None` where a key is no text. The values stay as they are: as
/// many entries come back as went in, in their order, each with the very
/// object that was its value.
fn named_items(items: Vec<(pyo3::Py<pyo3::PyAny>, pyo3::Py<pyo3::PyAny>)>) -> (r: Option<
    Vec<(String, pyo3::Py<pyo3::PyAny>)>,
>)
    ensures
        r matches Some(named) ==> {
            &&& named@.len() == items@.len()
            &&& forall|i: int| 0 <= i < items@.len() ==> (#[trigger] named@[i]).1 == items@[i].1
        },
{
    let mut named: Vec<(String, pyo3::Py<pyo3::PyAny>)> = Vec::new();
    let mut i: usize = 0;
    while i < items.len()
        invariant
            i <= items.len(),
            named@.len() == i,
            forall|j: int| 0 <= j < i ==> (#[trigger] named@[j]).1 == items@[j].1,
        decreases items.len() - i,
    {
        match py_as_text(&items[i].0) {
            Some(name) => named.push((name, py_share(&items[i].1))),
            None => {
                return None;
            },
        }
        i = i + 1;
    }
    Some(named)
}

/// Reads the objects that the runtime listed, each as a value of the shape
/// `inner`, or says why one of them cannot be read. As many values come
/// back as objects went in, in their order, and where objects are expected
/// each value is a handle to the very object at its position. Where objects
/// are expected, or the items are dropped, every list can be read.
#[verifier::loop_isolation(false)]
pub fn read_all(objects: Vec<pyo3::Py<pyo3::PyAny>>, inner: &Shape) -> (r: Result<
    Vec<Value>,
    Unread,
>)
    ensures
        r matches Ok(values) ==> {
            &&& values@.len() == objects@.len()
            &&& forall|i: int|
                0 <= i < objects@.len() ==> (#[trigger] values@[i])@.read_from(objects@[i], *inner)
        },
        *inner is Object || *inner is Ignored ==> r is Ok,
        r matches Err(why) ==> why is Mismatch || inner.walks(),
    decreases inner, 1nat,
{
    let mut values: Vec<Value> = Vec::new();
    let mut i: usize = 0;
    while i < objects.len()
        invariant
            i <= objects.len(),
            values@.len() == i,
            forall|j: int| 0 <= j < i ==> (#[trigger] values@[j])@.read_from(objects@[j], *inner),
        decreases objects.len() - i,
    {
        match unmarshal(py_share(&objects[i]), inner) {
            Ok(v) => values.push(v),
            Err(why) => {
                return Err(why);
            },
        }
        i = i + 1;
    }
    Ok(values)
}

/// Reads the named objects that the runtime listed for a mapping, each as
/// a value of the shape `inner`, or says why one of them cannot be read. As
/// many entries come back as went in, in their order and under their
/// names, and where objects are expected each value is a handle to the very
/// object at its position. Where objects are expected, or the values are
/// dropped, every list can be read.
#[verifier::loop_isolation(false)]
pub fn read_named(named: Vec<(String, pyo3::Py<pyo3::PyAny>)>, inner: &Shape) -> (r: Result<
    Vec<(String, Value)>,
    Unread,
>)
    ensures
        r matches Ok(entries) ==> {
            &&& entries@.len() == named@.len()
            &&& forall|i: int|
                0 <= i < named@.len() ==> (#[trigger] entries@[i]).0@ == named@[i].0@
                    && entries@[i].1@.read_from(named@[i].1, *inner)
        },
        *inner is Object || *inner is Ignored ==> r is Ok,
        r matches Err(why) ==> why is Mismatch || inner.walks(),
    decreases inner, 1nat,
{
    let mut entries: Vec<(String, Value)> = Vec::new();
    let mut i: usize = 0;
    while i < named.len()
        invariant
            i <= named.len(),
            entries@.len() == i,
            forall|j: int|
                0 <= j < i ==> (#[trigger] entries@[j]).0@ == named@[j].0@
                    && entries@[j].1@.read_from(named@[j].1, *inner),
        decreases named.len() - i,
    {
        match unmarshal(py_share(&named[i].1), inner) {
            Ok(v) => entries.push((named[i].0.clone(), v)),
            Err(why) => {
                return Err(why);
            },
        }
        i = i + 1;
    }
    Ok(entries)
}

impl Call {
    /// A copy of the name of the member that the request is about.
    pub fn member(&self) -> (name: String)
        ensures
            name@ == self@.member(),
    {
        match &self.op {
            Op::Write { name, .. } => name.clone(),
            _ => {
                let n = self.path.len();
                if n > 0 {
                    self.path[n - 1].clone()
                } else {
                    match &self.root {
                        Root::Module(m) => m.clone(),
                        Root::Object(_) => String::new(),
                    }
                }
            },
        }
    }

    /// Whether the request ends in an invocation.
    pub fn is_invocation(&self) -> (b: bool)
        ensures
            b == (self@.op is Invoke),
    {
        match &self.op {
            Op::Invoke { .. } => true,
            _ => false,
        }
    }

    /// The error for a refusal of the runtime at `stage` about `member`.
    fn failure(&self, stage: Stage, missing: bool, member: &str, message: String) -> (e:
        BindingError)
        ensures
            e@ == (ErrorModel {
                kind: kind_of(stage, missing),
                facade: self@.facade,
                member: member@,
                message: message@,
            }),
    {
        BindingError::new(classify(stage, missing), self.facade.as_str(), member, message)
    }

    /// Converts what the runtime handed back into a value of the expected
    /// shape, or reports why it cannot be read: it does not have the shape,
    /// or the runtime refused a walk over it or raised at a step of one.
    fn finish(&self, object: pyo3::Py<pyo3::PyAny>, expect: &Shape) -> (reply: Result<
        Value,
        BindingError,
    >)
        ensures
            reply matches Ok(v) ==> v@.read_from(object, *expect),
            reply matches Err(e) ==> e@.facade == self@.facade && self@.may_fail_with(
                *expect,
                e@.kind,
                e@.member,
                e@.message,
            ),
    {
        match unmarshal(object, expect) {
            Ok(v) => Ok(v),
            Err(why) => {
                let member = self.member();
                match why {
                    Unread::Mismatch => Err(
                        self.failure(Stage::Extract, false, member.as_str(), String::new()),
                    ),
                    Unread::Unwalkable(message) => Err(
                        self.failure(Stage::Iterate, false, member.as_str(), message),
                    ),
                    Unread::Raised(message) => Err(
                        self.failure(Stage::Step, false, member.as_str(), message),
                    ),
                }
            },
        }
    }

    /// The steps of a request: load the module or take the object, follow
    /// the path, then read, assign or invoke, and convert what came back.
    pub(crate) fn perform(&self, expect: &Shape) -> (reply: Result<Value, BindingError>)
        ensures
            self@.answered_by(*expect, reply),
    {
        let invocation = self.is_invocation();
        let mut target = match &self.root {
            Root::Module(m) => match py_import(m.as_str()) {
                Ok(o) => o,
                Err(e) => {
                    return Err(self.failure(Stage::Import, false, m.as_str(), py_message(&e)));
                },
            },
            Root::Object(h) => py_share(&h.object),
        };
        let n = self.path.len();
        let mut i: usize = 0;
        while i < n
            invariant
                i <= n,
                n == self.path.len(),
                invocation == (self@.op is Invoke),
                i == 0 && self.root is Object ==> target == self.root->Object_0.object,
            decreases n - i,
        {
            let name = self.path[i].as_str();
            let stage = if invocation && i + 1 == n {
                Stage::MethodLookup
            } else {
                Stage::Lookup
            };
            match py_getattr(&target, name) {
                Ok(o) => {
                    target = o;
                },
                Err(e) => {
                    let missing = py_is_missing(&e);
                    let error = self.failure(stage, missing, name, py_message(&e));
                    proof {
                        assert(self@.path[i as int] == name@);
                        assert(stage == self@.lookup_stage(i as int));
                        assert(self@.may_fail_with(*expect, error@.kind, error@.member, error@.message));
                    }
                    return Err(error);
                },
            }
            i = i + 1;
        }
        match &self.op {
            Op::Read => self.finish(target, expect),
            Op::Write { name, value } => {
                let object = match marshal(value) {
                    Ok(o) => o,
                    Err(m) => {
                        return Err(self.failure(Stage::Marshal, false, name.as_str(), m));
                    },
                };
                match py_setattr(&target, name.as_str(), object) {
                    Ok(()) => self.finish(py_none(), expect),
                    Err(e) => {
                        let missing = py_is_missing(&e);
                        Err(self.failure(Stage::Assign, missing, name.as_str(), py_message(&e)))
                    },
                }
            },
            Op::Invoke { args, kwargs } => {
                let member = self.member();
                let positional = match marshal_all(args) {
                    Ok(o) => o,
                    Err(m) => {
                        proof {
                            if self@.real_free() {
                                assert forall|i: int| 0 <= i < args@.len() implies (
                                #[trigger] args@[i])@.real_free() by {
                                    assert(self@.op->Invoke_args[i] == args@[i]@);
                                }
                            }
                        }
                        return Err(self.failure(Stage::Marshal, false, member.as_str(), m));
                    },
                };
                let named = match marshal_named(kwargs) {
                    Ok(o) => o,
                    Err(m) => {
                        proof {
                            if self@.real_free() {
                                assert forall|i: int| 0 <= i < kwargs@.len() implies (
                                #[trigger] kwargs@[i]).1@.real_free() by {
                                    assert(self@.op->Invoke_kwargs[i] == (
                                        kwargs@[i].0@,
                                        kwargs@[i].1@,
                                    ));
                                }
                            }
                        }
                        return Err(self.failure(Stage::Marshal, false, member.as_str(), m));
                    },
                };
                match py_call(&target, positional, named) {
                    Ok(o) => self.finish(o, expect),
                    Err(e) => Err(
                        self.failure(Stage::Invoke, false, member.as_str(), py_message(&e)),
                    ),
                }
            },
        }
    }
}

impl Call {
    /// Carries the request out and converts the reply into a value of the
    /// expected shape. The runtime's global lock is held from the first step
    /// of the request to its last, so that no other caller's request runs in
    /// between.
    ///
    /// The runtime decides what comes back. Whatever it is, a value has
    /// the expected shape, and an error names this request's facade, the
    /// member at which the runtime refused, and a kind that this request can
    /// end in: `Startup` where the module could not be loaded;
    /// `NoSuchAttribute` or `NoSuchMethod` where a name of the path is
    /// unknown, the second for the name that is about to be invoked;
    /// `Conversion` where the literal of a real number among the arguments
    /// is refused, an assignment is rejected, or the reply does not have
    /// the shape asked for; `External` where the runtime raised an error of
    /// its own, also at a step of a walk over the reply. A request that
    /// hands over no real number cannot fail on its arguments, and a reply
    /// that is dropped or taken as an object cannot fail on its shape. The
    /// message is the runtime's own, but for a reply of the wrong shape,
    /// whose error has none.
    pub fn invoke(&self, expect: &Shape) -> (reply: Result<Value, BindingError>)
        ensures
            self@.answered_by(*expect, reply),
    {
        py_locked(self, expect)
    }
}

/// The request that reads the attribute `name` of `object`.
pub open spec fn get_request(facade: Seq<char>, object: Handle, name: Seq<char>) -> CallModel {
    CallModel { facade, root: RootModel::Object(object), path: seq![name], op: OpModel::Read }
}

/// The request that assigns `value` to the attribute `name` of `object`.
pub open spec fn set_request(
    facade: Seq<char>,
    object: Handle,
    name: Seq<char>,
    value: ValueModel,
) -> CallModel {
    CallModel {
        facade,
        root: RootModel::Object(object),
        path: seq![],
        op: OpModel::Write { name, value },
    }
}

/// The request that invokes the method `name` of `object`.
pub open spec fn method_request(
    facade: Seq<char>,
    object: Handle,
    name: Seq<char>,
    args: Seq<ValueModel>,
    kwargs: Seq<(Seq<char>, ValueModel)>,
) -> CallModel {
    CallModel {
        facade,
        root: RootModel::Object(object),
        path: seq![name],
        op: OpModel::Invoke { args, kwargs },
    }
}

/// The request that invokes the method `name` of the attribute `attribute`
/// of `object`, without arguments.
pub open spec fn nested_request(
    facade: Seq<char>,
    object: Handle,
    attribute: Seq<char>,
    name: Seq<char>,
) -> CallModel {
    CallModel {
        facade,
        root: RootModel::Object(object),
        path: seq![attribute, name],
        op: OpModel::Invoke { args: seq![], kwargs: seq![] },
    }
}

/// The request that invokes the member `name` of `module`: a function, or a
/// class, which makes an object of it.
pub open spec fn module_request(
    facade: Seq<char>,
    module: Seq<char>,
    name: Seq<char>,
    args: Seq<ValueModel>,
    kwargs: Seq<(Seq<char>, ValueModel)>,
) -> CallModel {
    CallModel {
        facade,
        root: RootModel::Module(module),
        path: seq![name],
        op: OpModel::Invoke { args, kwargs },
    }
}

/// The request that invokes the method `name` of the class `class` of
/// `module`.
pub open spec fn class_request(
    facade: Seq<char>,
    module: Seq<char>,
    class: Seq<char>,
    name: Seq<char>,
    args: Seq<ValueModel>,
    kwargs: Seq<(Seq<char>, ValueModel)>,
) -> CallModel {
    CallModel {
        facade,
        root: RootModel::Module(module),
        path: seq![class, name],
        op: OpModel::Invoke { args, kwargs },
    }
}

impl Call {
    /// The request that reads the attribute `name` of `object`.
    pub fn get(facade: &str, object: &Handle, name: &str) -> (c: Call)
        ensures
            c@ == get_request(facade@, *object, name@),
    {
        let mut path: Vec<String> = Vec::new();
        path.push(name.to_owned());
        let c = Call {
            facade: facade.to_owned(),
            root: Root::Object(object.share()),
            path,
            op: Op::Read,
        };
        assert(c@.path =~= seq![name@]);
        c
    }

    /// The request that assigns `value` to the attribute `name` of `object`.
    pub fn set(facade: &str, object: &Handle, name: &str, value: Value) -> (c: Call)
        ensures
            c@ == set_request(facade@, *object, name@, value@),
    {
        let c = Call {
            facade: facade.to_owned(),
            root: Root::Object(object.share()),
            path: Vec::new(),
            op: Op::Write { name: name.to_owned(), value },
        };
        assert(c@.path =~= seq![]);
        c
    }

    /// The request that invokes the method `name` of `object`.
    pub fn method(
        facade: &str,
        object: &Handle,
        name: &str,
        args: Vec<Value>,
        kwargs: Vec<(String, Value)>,
    ) -> (c: Call)
        ensures
            c@ == method_request(facade@, *object, name@, models(args@), named_models(kwargs@)),
    {
        let mut path: Vec<String> = Vec::new();
        path.push(name.to_owned());
        let c = Call {
            facade: facade.to_owned(),
            root: Root::Object(object.share()),
            path,
            op: Op::Invoke { args, kwargs },
        };
        assert(c@.path =~= seq![name@]);
        c
    }

    /// The request that invokes the method `name` of the attribute
    /// `attribute` of `object`, without arguments.
    pub fn nested(facade: &str, object: &Handle, attribute: &str, name: &str) -> (c: Call)
        ensures
            c@ == nested_request(facade@, *object, attribute@, name@),
    {
        let mut path: Vec<String> = Vec::new();
        path.push(attribute.to_owned());
        path.push(name.to_owned());
        let c = Call {
            facade: facade.to_owned(),
            root: Root::Object(object.share()),
            path,
            op: Op::Invoke { args: Vec::new(), kwargs: Vec::new() },
        };
        assert(c@.path =~= seq![attribute@, name@]);
        assert(c@.op->Invoke_args =~= seq![]);
        assert(c@.op->Invoke_kwargs =~= seq![]);
        c
    }

    /// The request that invokes the member `name` of `module`.
    pub fn module(
        facade: &str,
        module: &str,
        name: &str,
        args: Vec<Value>,
        kwargs: Vec<(String, Value)>,
    ) -> (c: Call)
        ensures
            c@ == module_request(facade@, module@, name@, models(args@), named_models(kwargs@)),
    {
        let mut path: Vec<String> = Vec::new();
        path.push(name.to_owned());
        let c = Call {
            facade: facade.to_owned(),
            root: Root::Module(module.to_owned()),
            path,
            op: Op::Invoke { args, kwargs },
        };
        assert(c@.path =~= seq![name@]);
        c
    }

    /// The request that invokes the method `name` of the class `class` of
    /// `module`.
    pub fn class(
        facade: &str,
        module: &str,
        class: &str,
        name: &str,
        args: Vec<Value>,
        kwargs: Vec<(String, Value)>,
    ) -> (c: Call)
        ensures
            c@ == class_request(
                facade@,
                module@,
                class@,
                name@,
                models(args@),
                named_models(kwargs@),
            ),
    {
        let mut path: Vec<String> = Vec::new();
        path.push(class.to_owned());
        path.push(name.to_owned());
        let c = Call {
            facade: facade.to_owned(),
            root: Root::Module(module.to_owned()),
            path,
            op: Op::Invoke { args, kwargs },
        };
        assert(c@.path =~= seq![class@, name@]);
        c
    }
}

} // verus!
