//! The calls into the Python runtime.
//!
//! Nothing in this file is proved: each function hands its arguments to one
//! operation of `pyo3` and hands the answer back. A Python object is opaque
//! here, and what an operation answers depends on the state of the runtime,
//! so the contracts promise nothing about it, but for two: a shared
//! reference is to the same object, and a request run under the lock gives
//! what the verified steps of a request give. Every function acquires the
//! runtime's global lock for the length of its one operation and releases it
//! on every path out; within a request the lock is already held. If no
//! interpreter can be started at all, acquiring the lock aborts the process.

use std::fmt::Write;
use vstd::prelude::*;
use crate::error::BindingError;
use crate::forward::Call;
use crate::value::{Shape, Value};

verus! {

/// `pyo3::Py`, an owned reference to a Python object.
#[verifier::external_type_specification]
#[verifier::external_body]
#[verifier::reject_recursive_types(T)]
pub struct ExPy<T>(pyo3::Py<T>);

/// `pyo3::PyAny`, the type of an arbitrary Python object.
#[verifier::external_type_specification]
#[verifier::external_body]
pub struct ExPyAny(pyo3::PyAny);

/// `pyo3::PyErr`, a raised Python exception.
#[verifier::external_type_specification]
#[verifier::external_body]
pub struct ExPyErr(pyo3::PyErr);

/// `Python::with_gil`, which runs a closure while holding the runtime's
/// global lock and returns what the closure returned. The closure is the
/// verified `Call::perform`, so the reply is one that `perform` gives.
#[verifier::external_body]
pub(crate) fn py_locked(call: &Call, expect: &Shape) -> (reply: Result<Value, BindingError>)
    ensures
        call@.answered_by(*expect, reply),
{
    pyo3::Python::with_gil(|_py| call.perform(expect))
}

/// `Py::clone_ref`, which makes a second reference to the same object and
/// leaves the object as it is. The contract claims that the new reference is
/// to the object of the old one.
#[verifier::external_body]
pub(crate) fn py_share(object: &pyo3::Py<pyo3::PyAny>) -> (r: pyo3::Py<pyo3::PyAny>)
    ensures
        r == *object,
{
    pyo3::Python::with_gil(|py| object.clone_ref(py))
}

/// `PyModule::import`, which loads the module of the given dotted name or
/// fails with the exception that the import raised. Nothing is claimed of
/// which of the two happens.
#[verifier::external_body]
pub(crate) fn py_import(module: &str) -> (r: Result<pyo3::Py<pyo3::PyAny>, pyo3::PyErr>)
{
    pyo3::Python::with_gil(|py| {
        pyo3::types::PyModule::import(py, module).map(|m| pyo3::IntoPy::into_py(m, py))
    })
}

/// `Py::getattr`, which looks up the attribute `name` of `object` or fails
/// with the exception that the lookup raised. Nothing is claimed of the
/// result.
#[verifier::external_body]
pub(crate) fn py_getattr(object: &pyo3::Py<pyo3::PyAny>, name: &str) -> (r: Result<
    pyo3::Py<pyo3::PyAny>,
    pyo3::PyErr,
>)
{
    pyo3::Python::with_gil(|py| object.getattr(py, name))
}

/// `Py::setattr`, which assigns `value` to the attribute `name` of `object`
/// or fails with the exception that the assignment raised. Nothing is
/// claimed of the result.
#[verifier::external_body]
pub(crate) fn py_setattr(
    object: &pyo3::Py<pyo3::PyAny>,
    name: &str,
    value: pyo3::Py<pyo3::PyAny>,
) -> (r: Result<(), pyo3::PyErr>)
{
    pyo3::Python::with_gil(|py| object.setattr(py, name, value))
}

/// `Py::call`, which invokes `callable` with a tuple of the positional
/// arguments (`PyTuple::new`) and a dictionary of the named ones
/// (`IntoPyDict::into_py_dict`), each in the order given, or fails with the
/// exception that the callee raised. Nothing is claimed of the result.
#[verifier::external_body]
pub(crate) fn py_call(
    callable: &pyo3::Py<pyo3::PyAny>,
    args: Vec<pyo3::Py<pyo3::PyAny>>,
    kwargs: Vec<(String, pyo3::Py<pyo3::PyAny>)>,
) -> (r: Result<pyo3::Py<pyo3::PyAny>, pyo3::PyErr>)
{
    pyo3::Python::with_gil(|py| {
        let positional = pyo3::types::PyTuple::new(py, args);
        let named = pyo3::types::IntoPyDict::into_py_dict(kwargs, py);
        callable.call(py, positional, Some(named))
    })
}

/// `Python::None`, the runtime's `None`. Nothing is claimed of the result.
#[verifier::external_body]
pub(crate) fn py_none() -> (r: pyo3::Py<pyo3::PyAny>)
{
    pyo3::Python::with_gil(|py| py.None())
}

/// `IntoPy::into_py` of a `bool`, a Python `bool`. Nothing is claimed of the
/// result.
#[verifier::external_body]
pub(crate) fn py_bool(value: bool) -> (r: pyo3::Py<pyo3::PyAny>)
{
    pyo3::Python::with_gil(|py| pyo3::IntoPy::into_py(value, py))
}

/// `IntoPy::into_py` of an `i64`, a Python `int`. Nothing is claimed of the
/// result.
#[verifier::external_body]
pub(crate) fn py_int(value: i64) -> (r: pyo3::Py<pyo3::PyAny>)
{
    pyo3::Python::with_gil(|py| pyo3::IntoPy::into_py(value, py))
}

/// `IntoPy::into_py` of a `usize`, a Python `int`. Nothing is claimed of the
/// result.
#[verifier::external_body]
pub(crate) fn py_index(value: usize) -> (r: pyo3::Py<pyo3::PyAny>)
{
    pyo3::Python::with_gil(|py| pyo3::IntoPy::into_py(value, py))
}

/// `IntoPy::into_py` of a string slice, a Python `str`. Nothing is claimed
/// of the result.
#[verifier::external_body]
pub(crate) fn py_text(value: &str) -> (r: pyo3::Py<pyo3::PyAny>)
{
    pyo3::Python::with_gil(|py| pyo3::IntoPy::into_py(value, py))
}

/// `PyList::new`, a new list of the given objects, in order. Nothing is
/// claimed of the result.
#[verifier::external_body]
pub(crate) fn py_list(items: Vec<pyo3::Py<pyo3::PyAny>>) -> (r: pyo3::Py<pyo3::PyAny>)
{
    pyo3::Python::with_gil(|py| pyo3::IntoPy::into_py(pyo3::types::PyList::new(py, items), py))
}

/// `IntoPyDict::into_py_dict`, a new dictionary of the given entries, set in
/// order, so that a later entry replaces an earlier one of the same key.
/// Nothing is claimed of the result.
#[verifier::external_body]
pub(crate) fn py_dict(items: Vec<(String, pyo3::Py<pyo3::PyAny>)>) -> (r: pyo3::Py<pyo3::PyAny>)
{
    pyo3::Python::with_gil(|py| {
        pyo3::IntoPy::into_py(pyo3::types::IntoPyDict::into_py_dict(items, py), py)
    })
}

/// `Py::extract` to `bool`; `None` where it fails, which it does for
/// anything but a Python `bool`. Nothing is claimed of the result.
#[verifier::external_body]
pub(crate) fn py_as_bool(object: &pyo3::Py<pyo3::PyAny>) -> (r: Option<bool>)
{
    pyo3::Python::with_gil(|py| object.extract(py).ok())
}

/// `Py::extract` to `i64`, which reads the object through Python's index
/// protocol, so that a Python `bool` is read as 0 or 1; `None` where it
/// fails, which it does for what has no index or one outside that range.
/// Nothing is claimed of the result.
#[verifier::external_body]
pub(crate) fn py_as_int(object: &pyo3::Py<pyo3::PyAny>) -> (r: Option<i64>)
{
    pyo3::Python::with_gil(|py| object.extract(py).ok())
}

/// `Py::extract` to `usize`, which reads the object through Python's index
/// protocol, so that a Python `bool` is read as 0 or 1; `None` where it
/// fails, which it does for what has no index or one outside that range.
/// Nothing is claimed of the result.
#[verifier::external_body]
pub(crate) fn py_as_index(object: &pyo3::Py<pyo3::PyAny>) -> (r: Option<usize>)
{
    pyo3::Python::with_gil(|py| object.extract(py).ok())
}

/// `Py::extract` to `String`; `None` where it fails, which it does for
/// anything but a Python `str`. Nothing is claimed of the result.
#[verifier::external_body]
pub(crate) fn py_as_text(object: &pyo3::Py<pyo3::PyAny>) -> (r: Option<String>)
{
    pyo3::Python::with_gil(|py| object.extract(py).ok())
}

/// `Py::extract` to a `Vec` of objects; `None` where it fails, which it does
/// for a `str`, for what is no sequence, and where walking the sequence
/// raises. Nothing is claimed of the result.
#[verifier::external_body]
pub(crate) fn py_as_list(object: &pyo3::Py<pyo3::PyAny>) -> (r: Option<
    Vec<pyo3::Py<pyo3::PyAny>>,
>)
{
    pyo3::Python::with_gil(|py| object.extract(py).ok())
}

/// `PyAny::downcast` to `PyDict`, `PyDict::items` and `PyAny::extract`: the
/// entries of a dictionary in its own order, each as its key and its value;
/// `None` where the object is no dictionary. Nothing is claimed of the
/// result.
#[verifier::external_body]
pub(crate) fn py_items(object: &pyo3::Py<pyo3::PyAny>) -> (r: Option<
    Vec<(pyo3::Py<pyo3::PyAny>, pyo3::Py<pyo3::PyAny>)>,
>)
{
    pyo3::Python::with_gil(|py| {
        let dict = object.as_ref(py).downcast::<pyo3::types::PyDict>().ok()?;
        dict.items().extract().ok()
    })
}

/// `PyAny::iter`, which asks the object for an iterator over itself or
/// fails with the exception that asking raised. Nothing is claimed of the
/// result.
#[verifier::external_body]
pub(crate) fn py_iterator(object: &pyo3::Py<pyo3::PyAny>) -> (r: Result<
    pyo3::Py<pyo3::PyAny>,
    pyo3::PyErr,
>)
{
    pyo3::Python::with_gil(|py| object.as_ref(py).iter().map(|walk| pyo3::IntoPy::into_py(walk, py)))
}

/// `Iterator::next` of `PyIterator`, which takes one step of a walk: the
/// next object, or the exception that the step raised, or `None` at the end
/// of the walk. `None` also where the object is no iterator. Nothing is
/// claimed of the result.
#[verifier::external_body]
pub(crate) fn py_next(iterator: &pyo3::Py<pyo3::PyAny>) -> (r: Option<
    Result<pyo3::Py<pyo3::PyAny>, pyo3::PyErr>,
>)
{
    pyo3::Python::with_gil(|py| {
        let mut walk = iterator.as_ref(py).downcast::<pyo3::types::PyIterator>().ok()?;
        Iterator::next(&mut walk).map(|step| step.map(|item| pyo3::IntoPy::into_py(item, py)))
    })
}

/// `PyErr::is_instance_of` for `AttributeError`: whether the exception says
/// that an attribute is unknown. Nothing is claimed of the result.
#[verifier::external_body]
pub(crate) fn py_is_missing(error: &pyo3::PyErr) -> (r: bool)
{
    pyo3::Python::with_gil(|py| {
        error.is_instance_of::<pyo3::exceptions::PyAttributeError>(py)
    })
}

/// The `Display` text of a `PyErr`, written into a `String`: the
/// exception's type and its message. Where the exception cannot be
/// formatted, for one because the name of its type cannot be read, the text
/// is empty. Nothing is claimed of the result.
#[verifier::external_body]
pub(crate) fn py_message(error: &pyo3::PyErr) -> (r: String)
{
    let mut text = String::new();
    match write!(text, "{}", error) {
        Ok(()) => text,
        Err(_) => String::new(),
    }
}

} // verus!
