//! What the facade types have in common: each is a typed wrapper around one
//! handle.

use vstd::prelude::*;
use crate::error::{BindingError, ErrorModel};
use crate::forward::Call;
use crate::value::{Handle, Shape, Value, ValueModel};

verus! {

/// A type whose values stand for objects of the runtime.
pub trait Facade: Sized {
    /// The object that the value stands for.
    spec fn object(&self) -> Handle;

    /// The facade of the object behind `handle`.
    fn wrap(handle: Handle) -> (s: Self)
        ensures
            s.object() == handle,
    ;

    /// The handle of the object that the value stands for.
    fn handle(&self) -> (h: &Handle)
        ensures
            *h == self.object(),
    ;
}

/// A result with its facade taken by its object and its error by its
/// content.
pub open spec fn wrapped<F: Facade>(r: Result<F, BindingError>) -> Result<Handle, ErrorModel> {
    match r {
        Ok(f) => Ok(f.object()),
        Err(e) => Err(e@),
    }
}

/// The objects of a list of facades.
pub open spec fn objects_of<F: Facade>(items: Seq<F>) -> Seq<Handle> {
    Seq::new(items.len(), |i: int| items[i].object())
}

/// A result with its facades taken by their objects and its error by its
/// content.
pub open spec fn wrapped_all<F: Facade>(r: Result<Vec<F>, BindingError>) -> Result<
    Seq<Handle>,
    ErrorModel,
> {
    match r {
        Ok(v) => Ok(objects_of(v@)),
        Err(e) => Err(e@),
    }
}

/// The list of object references that stands for a list of handles.
pub open spec fn references(handles: Seq<Handle>) -> ValueModel {
    ValueModel::List(Seq::new(handles.len(), |i: int| ValueModel::Object(handles[i])))
}

/// The facades of the objects behind the handles, in order.
pub fn wrap_all<F: Facade>(handles: Vec<Handle>) -> (items: Vec<F>)
    ensures
        objects_of(items@) == handles@,
{
    let mut items: Vec<F> = Vec::new();
    let mut i: usize = 0;
    while i < handles.len()
        invariant
            i <= handles.len(),
            items@.len() == i,
            forall|j: int| 0 <= j < i ==> (#[trigger] items@[j]).object() == handles@[j],
        decreases handles.len() - i,
    {
        items.push(F::wrap(handles[i].share()));
        i = i + 1;
    }
    assert(objects_of(items@) =~= handles@);
    items
}

/// The value that hands the objects of `items` to the runtime as a list.
pub fn as_references<F: Facade>(items: &Vec<F>) -> (value: Value)
    ensures
        value@ == references(objects_of(items@)),
{
    let mut list: Vec<Value> = Vec::new();
    let mut i: usize = 0;
    while i < items.len()
        invariant
            i <= items.len(),
            list@.len() == i,
            forall|j: int|
                0 <= j < i ==> (#[trigger] list@[j])@ == ValueModel::Object(items@[j].object()),
        decreases items.len() - i,
    {
        list.push(Value::Object(items[i].handle().share()));
        i = i + 1;
    }
    let value = Value::List(list);
    proof {
        value.view_of_list();
        assert(value@->List_0 =~= references(objects_of(items@))->List_0);
    }
    value
}

impl Call {
    /// Carries the request out for an object and wraps it.
    pub fn fetch_object<F: Facade>(&self) -> (r: Result<F, BindingError>)
        ensures
            self@.yields_handle(wrapped(r)),
    {
        let reply = self.invoke(&Shape::Object);
        let handle = self.handle(reply);
        let r = match handle {
            Ok(h) => Ok(F::wrap(h)),
            Err(e) => Err(e),
        };
        assert(wrapped(r) == self@.handle_of(reply));
        r
    }

    /// Carries the request out for a list of objects and wraps each.
    pub fn fetch_objects<F: Facade>(&self) -> (r: Result<Vec<F>, BindingError>)
        ensures
            self@.yields_handles(wrapped_all(r)),
    {
        let reply = self.invoke(&Shape::List(Box::new(Shape::Object)));
        let handles = self.handles(reply);
        let r = match handles {
            Ok(h) => Ok(wrap_all(h)),
            Err(e) => Err(e),
        };
        assert(wrapped_all(r) == self@.handles_of(reply));
        r
    }

    /// Carries the request out, walks over whatever the reply is, and wraps
    /// each object that the walk gives.
    pub fn fetch_walked_objects<F: Facade>(&self) -> (r: Result<Vec<F>, BindingError>)
        ensures
            self@.yields_walked_handles(wrapped_all(r)),
    {
        let reply = self.invoke(&Shape::Iterable(Box::new(Shape::Object)));
        let handles = self.handles(reply);
        let r = match handles {
            Ok(h) => Ok(wrap_all(h)),
            Err(e) => Err(e),
        };
        assert(wrapped_all(r) == self@.handles_of(reply));
        r
    }
}

} // verus!
