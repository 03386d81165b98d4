//! The plain values that cross the boundary to the runtime, and the shapes a
//! caller can expect of a reply.

use vstd::prelude::*;
use crate::runtime::py_share;

verus! {

/// An owned reference to an object that lives in the runtime. Nothing of the
/// object is visible from here; the runtime keeps it alive as long as a
/// handle to it exists.
#[derive(Debug)]
pub struct Handle {
    pub object: pyo3::Py<pyo3::PyAny>,
}

impl Clone for Handle {
    /// A second handle to the same object.
    fn clone(&self) -> (h: Handle)
        ensures
            h == *self,
    {
        self.share()
    }
}

impl Handle {
    /// A second handle to the same object.
    pub fn share(&self) -> (h: Handle)
        ensures
            h == *self,
    {
        Handle { object: py_share(&self.object) }
    }
}

/// A value on its way to or from the runtime.
#[derive(Debug)]
pub enum Value {
    /// The runtime's `None`.
    Nothing,
    Bool(bool),
    /// A signed integer.
    Int(i64),
    /// A count or a position.
    Index(usize),
    /// A real number, written as a decimal literal such as `1.33`. The
    /// runtime reads the literal when the value is handed to it; no reply is
    /// converted into a real number.
    Real(String),
    Text(String),
    /// A sequence of values.
    List(Vec<Value>),
    /// A mapping from names to values, in the order of its entries.
    Dict(Vec<(String, Value)>),
    /// A reference to an object of the runtime.
    Object(Handle),
}

/// The mathematical content of a [`Value`].
pub enum ValueModel {
    Nothing,
    Bool(bool),
    Int(int),
    Index(nat),
    Real(Seq<char>),
    Text(Seq<char>),
    List(Seq<ValueModel>),
    Dict(Seq<(Seq<char>, ValueModel)>),
    Object(Handle),
}

impl Value {
    /// The value's content, item by item.
    pub open spec fn model(self) -> ValueModel
        decreases self,
    {
        match self {
            Value::Nothing => ValueModel::Nothing,
            Value::Bool(b) => ValueModel::Bool(b),
            Value::Int(i) => ValueModel::Int(i as int),
            Value::Index(i) => ValueModel::Index(i as nat),
            Value::Real(s) => ValueModel::Real(s@),
            Value::Text(s) => ValueModel::Text(s@),
            Value::List(items) => ValueModel::List(
                Seq::new(
                    items@.len(),
                    |i: int|
                        if 0 <= i < items@.len() {
                            items@[i].model()
                        } else {
                            ValueModel::Nothing
                        },
                ),
            ),
            Value::Dict(entries) => ValueModel::Dict(
                Seq::new(
                    entries@.len(),
                    |i: int|
                        if 0 <= i < entries@.len() {
                            (entries@[i].0@, entries@[i].1.model())
                        } else {
                            (Seq::empty(), ValueModel::Nothing)
                        },
                ),
            ),
            Value::Object(h) => ValueModel::Object(h),
        }
    }
}

impl View for Value {
    type V = ValueModel;

    open spec fn view(&self) -> ValueModel {
        self.model()
    }
}

/// What a caller expects a reply to be.
#[derive(Debug)]
pub enum Shape {
    /// Whatever the runtime answers is dropped; the value is `Nothing`.
    Ignored,
    Bool,
    Int,
    Index,
    Text,
    /// Any object, kept as a handle.
    Object,
    /// A sequence whose items all have the inner shape.
    List(Box<Shape>),
    /// Anything that can be walked, read as the sequence of what the walk
    /// gives; all of it has the inner shape.
    Iterable(Box<Shape>),
    /// A mapping whose values all have the inner shape.
    Dict(Box<Shape>),
}

impl Shape {
    /// Whether reading a reply of this shape walks over something, at any
    /// depth.
    pub open spec fn walks(self) -> bool
        decreases self,
    {
        match self {
            Shape::Iterable(_) => true,
            Shape::List(inner) => inner.walks(),
            Shape::Dict(inner) => inner.walks(),
            _ => false,
        }
    }
}

/// Why a reply could not be read.
#[derive(Debug)]
pub enum Unread {
    /// It does not have the expected shape.
    Mismatch,
    /// It was to be walked over and the runtime refused the walk; the text
    /// is the runtime's message.
    Unwalkable(String),
    /// A step of a walk over it raised; the text is the runtime's message.
    Raised(String),
}

impl ValueModel {
    /// Whether the value holds no real number, all the way down. Such a
    /// value has a representation in the runtime whatever the runtime's
    /// state: only the literal of a real number can be refused.
    pub open spec fn real_free(self) -> bool
        decreases self,
    {
        match self {
            ValueModel::Real(_) => false,
            ValueModel::List(items) => forall|i: int|
                0 <= i < items.len() ==> (#[trigger] items[i]).real_free(),
            ValueModel::Dict(entries) => forall|i: int|
                0 <= i < entries.len() ==> (#[trigger] entries[i]).1.real_free(),
            _ => true,
        }
    }

    /// Whether `object` can stand for the value in the runtime: a reference
    /// to an object is handed over as that very object. Of the objects made
    /// for the other values nothing is known here.
    pub open spec fn carried_by(self, object: pyo3::Py<pyo3::PyAny>) -> bool {
        self matches ValueModel::Object(h) ==> object == h.object
    }
}

impl ValueModel {
    /// Whether the value has the given shape, all the way down.
    pub open spec fn conforms(self, shape: Shape) -> bool
        decreases shape,
    {
        match shape {
            Shape::Ignored => self is Nothing,
            Shape::Bool => self is Bool,
            Shape::Int => self is Int,
            Shape::Index => self is Index,
            Shape::Text => self is Text,
            Shape::Object => self is Object,
            Shape::List(inner) | Shape::Iterable(inner) => {
                &&& self matches ValueModel::List(items)
                &&& forall|i: int| 0 <= i < items.len() ==> (#[trigger] items[i]).conforms(*inner)
            },
            Shape::Dict(inner) => {
                &&& self matches ValueModel::Dict(entries)
                &&& forall|i: int|
                    0 <= i < entries.len() ==> (#[trigger] entries[i]).1.conforms(*inner)
            },
        }
    }

    /// Whether the value is what `object` of the runtime is read as under
    /// `shape`: it has the shape, and where an object is expected it is a
    /// reference to this very object.
    pub open spec fn read_from(self, object: pyo3::Py<pyo3::PyAny>, shape: Shape) -> bool {
        &&& self.conforms(shape)
        &&& shape is Object ==> self == ValueModel::Object(Handle { object })
    }

    /// The texts of a list of texts.
    pub open spec fn texts(self) -> Option<Seq<Seq<char>>> {
        if self.conforms(Shape::List(Box::new(Shape::Text))) {
            Some(Seq::new(self->List_0.len(), |i: int| self->List_0[i]->Text_0))
        } else {
            None
        }
    }

    /// The handles of a list of objects.
    pub open spec fn handles(self) -> Option<Seq<Handle>> {
        if self.conforms(Shape::List(Box::new(Shape::Object))) {
            Some(Seq::new(self->List_0.len(), |i: int| self->List_0[i]->Object_0))
        } else {
            None
        }
    }
}

impl Value {
    /// The view of a list is the list of its items' views.
    pub proof fn view_of_list(self)
        requires
            self is List,
        ensures
            self@ == ValueModel::List(models(self->List_0@)),
    {
        assert(self@->List_0 =~= models(self->List_0@));
    }

    /// The view of a mapping is the list of its entries' views.
    pub proof fn view_of_dict(self)
        requires
            self is Dict,
        ensures
            self@ == ValueModel::Dict(named_models(self->Dict_0@)),
    {
        assert(self@->Dict_0 =~= named_models(self->Dict_0@));
    }

    /// The position that the value holds, if it is one.
    pub fn index(&self) -> (r: Option<usize>)
        ensures
            r == (match self@ {
                ValueModel::Index(i) => Some(i as usize),
                _ => None,
            }),
    {
        match self {
            Value::Index(i) => Some(*i),
            _ => None,
        }
    }

    /// The integer that the value holds, if it is one.
    pub fn integer(&self) -> (r: Option<i64>)
        ensures
            r == (match self@ {
                ValueModel::Int(i) => Some(i as i64),
                _ => None,
            }),
    {
        match self {
            Value::Int(i) => Some(*i),
            _ => None,
        }
    }

    /// The truth value that the value holds, if it is one.
    pub fn truth(&self) -> (r: Option<bool>)
        ensures
            r == (match self@ {
                ValueModel::Bool(b) => Some(b),
                _ => None,
            }),
    {
        match self {
            Value::Bool(b) => Some(*b),
            _ => None,
        }
    }

    /// A copy of the text that the value holds, if it is one.
    pub fn text(&self) -> (r: Option<String>)
        ensures
            self@ is Text <==> r is Some,
            r matches Some(s) ==> self@ == ValueModel::Text(s@),
    {
        match self {
            Value::Text(s) => Some(s.clone()),
            _ => None,
        }
    }

    /// A handle to the object that the value refers to, if it is one.
    pub fn handle(&self) -> (r: Option<Handle>)
        ensures
            r == (match self@ {
                ValueModel::Object(h) => Some(h),
                _ => None,
            }),
    {
        match self {
            Value::Object(h) => Some(h.share()),
            _ => None,
        }
    }

    /// Copies of the texts of a list of texts; `None` for any other value.
    pub fn texts(&self) -> (r: Option<Vec<String>>)
        ensures
            r is Some <==> self@.texts() is Some,
            r matches Some(v) ==> self@.texts() == Some(v.deep_view()),
    {
        match self {
            Value::List(items) => {
                let mut out: Vec<String> = Vec::new();
                let mut i: usize = 0;
                proof {
                    self.view_of_list();
                }
                while i < items.len()
                    invariant
                        i <= items.len(),
                        self@ is List,
                        self@->List_0.len() == items@.len(),
                        forall|j: int| 0 <= j < items@.len() ==> self@->List_0[j] == items@[j]@,
                        out@.len() == i,
                        forall|j: int| 0 <= j < i ==> items@[j]@ == ValueModel::Text(out@[j]@),
                    decreases items.len() - i,
                {
                    match &items[i] {
                        Value::Text(s) => {
                            out.push(s.clone());
                        },
                        _ => {
                            assert(!(self@->List_0[i as int] is Text));
                            assert(!self@->List_0[i as int].conforms(Shape::Text));
                            return None;
                        },
                    }
                    i = i + 1;
                }
                proof {
                    assert forall|j: int| 0 <= j < self@->List_0.len() implies (
                    #[trigger] self@->List_0[j]).conforms(Shape::Text) by {
                        assert(items@[j]@ == ValueModel::Text(out@[j]@));
                    }
                    assert(self@.texts()->Some_0 =~= out.deep_view());
                }
                Some(out)
            },
            _ => None,
        }
    }

    /// Handles to the objects of a list of objects; `None` for any other
    /// value.
    pub fn handles(&self) -> (r: Option<Vec<Handle>>)
        ensures
            r is Some <==> self@.handles() is Some,
            r matches Some(v) ==> self@.handles() == Some(v@),
    {
        match self {
            Value::List(items) => {
                let mut out: Vec<Handle> = Vec::new();
                let mut i: usize = 0;
                proof {
                    self.view_of_list();
                }
                while i < items.len()
                    invariant
                        i <= items.len(),
                        self@ is List,
                        self@->List_0.len() == items@.len(),
                        forall|j: int| 0 <= j < items@.len() ==> self@->List_0[j] == items@[j]@,
                        out@.len() == i,
                        forall|j: int| 0 <= j < i ==> items@[j]@ == ValueModel::Object(out@[j]),
                    decreases items.len() - i,
                {
                    match &items[i] {
                        Value::Object(h) => {
                            out.push(h.share());
                        },
                        _ => {
                            assert(!(self@->List_0[i as int] is Object));
                            assert(!self@->List_0[i as int].conforms(Shape::Object));
                            return None;
                        },
                    }
                    i = i + 1;
                }
                proof {
                    assert forall|j: int| 0 <= j < self@->List_0.len() implies (
                    #[trigger] self@->List_0[j]).conforms(Shape::Object) by {
                        assert(items@[j]@ == ValueModel::Object(out@[j]));
                    }
                    assert(self@.handles()->Some_0 =~= out@);
                }
                Some(out)
            },
            _ => None,
        }
    }
}

/// The contents of a list of values.
pub open spec fn models(items: Seq<Value>) -> Seq<ValueModel> {
    Seq::new(items.len(), |i: int| items[i]@)
}

/// The contents of a list of named values.
pub open spec fn named_models(entries: Seq<(String, Value)>) -> Seq<(Seq<char>, ValueModel)> {
    Seq::new(entries.len(), |i: int| (entries[i].0@, entries[i].1@))
}

} // verus!
