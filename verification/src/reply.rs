//! From a reply of the runtime to the typed result of a facade's method.

use vstd::prelude::*;
use crate::error::{BindingError, ErrorKind, ErrorModel};
use crate::forward::{Call, CallModel};
use crate::value::{Handle, Shape, Value, ValueModel};

verus! {

/// A result with its error taken by its content.
pub open spec fn plain<T>(r: Result<T, BindingError>) -> Result<T, ErrorModel> {
    match r {
        Ok(t) => Ok(t),
        Err(e) => Err(e@),
    }
}

/// A result with its value and its error taken by their contents.
pub open spec fn viewed<T: View>(r: Result<T, BindingError>) -> Result<T::V, ErrorModel> {
    match r {
        Ok(t) => Ok(t@),
        Err(e) => Err(e@),
    }
}

/// A result with its value taken by its content all the way down, and its
/// error by its content.
pub open spec fn deep<T: DeepView>(r: Result<T, BindingError>) -> Result<T::V, ErrorModel> {
    match r {
        Ok(t) => Ok(t.deep_view()),
        Err(e) => Err(e@),
    }
}

impl CallModel {
    /// The error for a reply that does not hold what the request's caller
    /// reads from it.
    pub open spec fn mismatch(self) -> ErrorModel {
        ErrorModel {
            kind: ErrorKind::Conversion,
            facade: self.facade,
            member: self.member(),
            message: Seq::empty(),
        }
    }

    /// The result of a request whose reply is dropped.
    pub open spec fn unit_of(self, reply: Result<Value, BindingError>) -> Result<(), ErrorModel> {
        match reply {
            Ok(_) => Ok(()),
            Err(e) => Err(e@),
        }
    }

    /// The result of a request for a count or a position.
    pub open spec fn index_of(self, reply: Result<Value, BindingError>) -> Result<
        usize,
        ErrorModel,
    > {
        match reply {
            Ok(v) => match v@ {
                ValueModel::Index(i) => Ok(i as usize),
                _ => Err(self.mismatch()),
            },
            Err(e) => Err(e@),
        }
    }

    /// The result of a request for a text.
    pub open spec fn text_of(self, reply: Result<Value, BindingError>) -> Result<
        Seq<char>,
        ErrorModel,
    > {
        match reply {
            Ok(v) => match v@ {
                ValueModel::Text(s) => Ok(s),
                _ => Err(self.mismatch()),
            },
            Err(e) => Err(e@),
        }
    }

    /// The result of a request for an object.
    pub open spec fn handle_of(self, reply: Result<Value, BindingError>) -> Result<
        Handle,
        ErrorModel,
    > {
        match reply {
            Ok(v) => match v@ {
                ValueModel::Object(h) => Ok(h),
                _ => Err(self.mismatch()),
            },
            Err(e) => Err(e@),
        }
    }

    /// The result of a request for a list of texts.
    pub open spec fn texts_of(self, reply: Result<Value, BindingError>) -> Result<
        Seq<Seq<char>>,
        ErrorModel,
    > {
        match reply {
            Ok(v) => match v@.texts() {
                Some(texts) => Ok(texts),
                None => Err(self.mismatch()),
            },
            Err(e) => Err(e@),
        }
    }

    /// The result of a request for a list of objects.
    pub open spec fn handles_of(self, reply: Result<Value, BindingError>) -> Result<
        Seq<Handle>,
        ErrorModel,
    > {
        match reply {
            Ok(v) => match v@.handles() {
                Some(handles) => Ok(handles),
                None => Err(self.mismatch()),
            },
            Err(e) => Err(e@),
        }
    }

    /// `r` is what some reply to the request gives when the reply is dropped.
    pub open spec fn yields_unit(self, r: Result<(), ErrorModel>) -> bool {
        exists|reply: Result<Value, BindingError>|
            self.answered_by(Shape::Ignored, reply) && r == self.unit_of(reply)
    }

    /// `r` is what some reply to the request gives when a position is asked
    /// for.
    pub open spec fn yields_index(self, r: Result<usize, ErrorModel>) -> bool {
        exists|reply: Result<Value, BindingError>|
            self.answered_by(Shape::Index, reply) && r == self.index_of(reply)
    }

    /// `r` is what some reply to the request gives when a text is asked for.
    pub open spec fn yields_text(self, r: Result<Seq<char>, ErrorModel>) -> bool {
        exists|reply: Result<Value, BindingError>|
            self.answered_by(Shape::Text, reply) && r == self.text_of(reply)
    }

    /// `r` is what some reply to the request gives when an object is asked
    /// for.
    pub open spec fn yields_handle(self, r: Result<Handle, ErrorModel>) -> bool {
        exists|reply: Result<Value, BindingError>|
            self.answered_by(Shape::Object, reply) && r == self.handle_of(reply)
    }

    /// `r` is what some reply to the request gives when a list of texts is
    /// asked for.
    pub open spec fn yields_texts(self, r: Result<Seq<Seq<char>>, ErrorModel>) -> bool {
        exists|reply: Result<Value, BindingError>|
            self.answered_by(Shape::List(Box::new(Shape::Text)), reply) && r == self.texts_of(
                reply,
            )
    }

    /// `r` is what some reply to the request gives when the objects of a
    /// walk over the reply are asked for.
    pub open spec fn yields_walked_handles(self, r: Result<Seq<Handle>, ErrorModel>) -> bool {
        exists|reply: Result<Value, BindingError>|
            self.answered_by(Shape::Iterable(Box::new(Shape::Object)), reply) && r
                == self.handles_of(reply)
    }

    /// `r` is what some reply to the request gives when a list of objects is
    /// asked for.
    pub open spec fn yields_handles(self, r: Result<Seq<Handle>, ErrorModel>) -> bool {
        exists|reply: Result<Value, BindingError>|
            self.answered_by(Shape::List(Box::new(Shape::Object)), reply) && r == self.handles_of(
                reply,
            )
    }
}

impl Call {
    /// The error for a reply that does not hold what the caller reads from
    /// it.
    pub fn mismatch(&self) -> (e: BindingError)
        ensures
            e@ == self@.mismatch(),
    {
        let member = self.member();
        BindingError::new(
            ErrorKind::Conversion,
            self.facade.as_str(),
            member.as_str(),
            String::new(),
        )
    }

    /// Drops the reply's value and keeps its error.
    pub fn unit(&self, reply: Result<Value, BindingError>) -> (r: Result<(), BindingError>)
        ensures
            plain(r) == self@.unit_of(reply),
    {
        match reply {
            Ok(_) => Ok(()),
            Err(e) => Err(e),
        }
    }

    /// Reads a count or a position from the reply.
    pub fn index(&self, reply: Result<Value, BindingError>) -> (r: Result<usize, BindingError>)
        ensures
            plain(r) == self@.index_of(reply),
    {
        match reply {
            Ok(v) => match v.index() {
                Some(i) => Ok(i),
                None => Err(self.mismatch()),
            },
            Err(e) => Err(e),
        }
    }

    /// Reads a text from the reply.
    pub fn text(&self, reply: Result<Value, BindingError>) -> (r: Result<String, BindingError>)
        ensures
            viewed(r) == self@.text_of(reply),
    {
        match reply {
            Ok(v) => match v.text() {
                Some(s) => Ok(s),
                None => Err(self.mismatch()),
            },
            Err(e) => Err(e),
        }
    }

    /// Reads an object from the reply.
    pub fn handle(&self, reply: Result<Value, BindingError>) -> (r: Result<Handle, BindingError>)
        ensures
            plain(r) == self@.handle_of(reply),
    {
        match reply {
            Ok(v) => match v.handle() {
                Some(h) => Ok(h),
                None => Err(self.mismatch()),
            },
            Err(e) => Err(e),
        }
    }

    /// Reads a list of texts from the reply.
    pub fn texts(&self, reply: Result<Value, BindingError>) -> (r: Result<
        Vec<String>,
        BindingError,
    >)
        ensures
            deep(r) == self@.texts_of(reply),
    {
        match reply {
            Ok(v) => match v.texts() {
                Some(t) => Ok(t),
                None => Err(self.mismatch()),
            },
            Err(e) => Err(e),
        }
    }

    /// Reads a list of objects from the reply.
    pub fn handles(&self, reply: Result<Value, BindingError>) -> (r: Result<
        Vec<Handle>,
        BindingError,
    >)
        ensures
            viewed(r) == self@.handles_of(reply),
    {
        match reply {
            Ok(v) => match v.handles() {
                Some(h) => Ok(h),
                None => Err(self.mismatch()),
            },
            Err(e) => Err(e),
        }
    }

    /// Carries the request out and drops what comes back.
    pub fn fetch_unit(&self) -> (r: Result<(), BindingError>)
        ensures
            self@.yields_unit(plain(r)),
    {
        let reply = self.invoke(&Shape::Ignored);
        self.unit(reply)
    }

    /// Carries the request out for a count or a position.
    pub fn fetch_index(&self) -> (r: Result<usize, BindingError>)
        ensures
            self@.yields_index(plain(r)),
    {
        let reply = self.invoke(&Shape::Index);
        self.index(reply)
    }

    /// Carries the request out for a text.
    pub fn fetch_text(&self) -> (r: Result<String, BindingError>)
        ensures
            self@.yields_text(viewed(r)),
    {
        let reply = self.invoke(&Shape::Text);
        self.text(reply)
    }

    /// Carries the request out for an object.
    pub fn fetch_handle(&self) -> (r: Result<Handle, BindingError>)
        ensures
            self@.yields_handle(plain(r)),
    {
        let reply = self.invoke(&Shape::Object);
        self.handle(reply)
    }

    /// Carries the request out for a list of texts.
    pub fn fetch_texts(&self) -> (r: Result<Vec<String>, BindingError>)
        ensures
            self@.yields_texts(deep(r)),
    {
        let reply = self.invoke(&Shape::List(Box::new(Shape::Text)));
        self.texts(reply)
    }

    /// Carries the request out for a list of objects.
    pub fn fetch_handles(&self) -> (r: Result<Vec<Handle>, BindingError>)
        ensures
            self@.yields_handles(viewed(r)),
    {
        let reply = self.invoke(&Shape::List(Box::new(Shape::Object)));
        self.handles(reply)
    }
}

} // verus!
