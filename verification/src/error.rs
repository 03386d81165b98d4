//! The failures that a request to the runtime can end in.

use vstd::prelude::*;
use vstd::string::StringExecFns;

verus! {

/// What went wrong with a request.
#[derive(Clone, Copy, Debug, PartialEq, Eq, Structural)]
pub enum ErrorKind {
    /// The object does not expose the attribute that was asked for.
    NoSuchAttribute,
    /// The object does not expose the method that was asked for.
    NoSuchMethod,
    /// A value crossing the boundary did not have the expected shape.
    Conversion,
    /// The runtime reported a failure of its own.
    External,
    /// The runtime, or a package it must provide, could not be loaded.
    Startup,
}

impl ErrorKind {
    /// The kind in words.
    pub open spec fn words(self) -> Seq<char> {
        match self {
            ErrorKind::NoSuchAttribute => "no such attribute"@,
            ErrorKind::NoSuchMethod => "no such method"@,
            ErrorKind::Conversion => "conversion error"@,
            ErrorKind::External => "external error"@,
            ErrorKind::Startup => "startup error"@,
        }
    }

    /// The kind in words.
    pub fn name(self) -> (s: &'static str)
        ensures
            s@ == self.words(),
    {
        match self {
            ErrorKind::NoSuchAttribute => "no such attribute",
            ErrorKind::NoSuchMethod => "no such method",
            ErrorKind::Conversion => "conversion error",
            ErrorKind::External => "external error",
            ErrorKind::Startup => "startup error",
        }
    }
}

/// The point of a request at which the runtime refused to go on.
#[derive(Clone, Copy, Debug, PartialEq, Eq, Structural)]
pub enum Stage {
    /// Loading the module the request starts from.
    Import,
    /// Looking up an attribute on the way to the member.
    Lookup,
    /// Looking up the method that is about to be invoked.
    MethodLookup,
    /// Converting an argument into the runtime's representation.
    Marshal,
    /// Assigning to an attribute.
    Assign,
    /// Running the invoked member.
    Invoke,
    /// Converting the reply into plain values.
    Extract,
    /// Asking the reply for a walk over itself.
    Iterate,
    /// Taking one step of a walk over the reply.
    Step,
}

/// The kind of error reported for a refusal at `stage`; `missing` says that
/// the runtime signalled an unknown attribute.
pub open spec fn kind_of(stage: Stage, missing: bool) -> ErrorKind {
    match stage {
        Stage::Import => ErrorKind::Startup,
        Stage::Lookup => if missing {
            ErrorKind::NoSuchAttribute
        } else {
            ErrorKind::External
        },
        Stage::MethodLookup => if missing {
            ErrorKind::NoSuchMethod
        } else {
            ErrorKind::External
        },
        Stage::Marshal => ErrorKind::Conversion,
        Stage::Assign => if missing {
            ErrorKind::NoSuchAttribute
        } else {
            ErrorKind::Conversion
        },
        Stage::Invoke => ErrorKind::External,
        Stage::Extract => ErrorKind::Conversion,
        Stage::Iterate => ErrorKind::Conversion,
        Stage::Step => ErrorKind::External,
    }
}

/// Classifies a refusal of the runtime.
pub fn classify(stage: Stage, missing: bool) -> (kind: ErrorKind)
    ensures
        kind == kind_of(stage, missing),
{
    match stage {
        Stage::Import => ErrorKind::Startup,
        Stage::Lookup => if missing {
            ErrorKind::NoSuchAttribute
        } else {
            ErrorKind::External
        },
        Stage::MethodLookup => if missing {
            ErrorKind::NoSuchMethod
        } else {
            ErrorKind::External
        },
        Stage::Marshal => ErrorKind::Conversion,
        Stage::Assign => if missing {
            ErrorKind::NoSuchAttribute
        } else {
            ErrorKind::Conversion
        },
        Stage::Invoke => ErrorKind::External,
        Stage::Extract => ErrorKind::Conversion,
        Stage::Iterate => ErrorKind::Conversion,
        Stage::Step => ErrorKind::External,
    }
}

/// A failed request: what kind of failure, on which facade, for which member,
/// and the runtime's own message where it gave one.
#[derive(Clone, Debug)]
pub struct BindingError {
    pub kind: ErrorKind,
    pub facade: String,
    pub member: String,
    pub message: String,
}

/// The mathematical content of a [`BindingError`].
pub struct ErrorModel {
    pub kind: ErrorKind,
    pub facade: Seq<char>,
    pub member: Seq<char>,
    pub message: Seq<char>,
}

impl View for BindingError {
    type V = ErrorModel;

    open spec fn view(&self) -> ErrorModel {
        ErrorModel {
            kind: self.kind,
            facade: self.facade@,
            member: self.member@,
            message: self.message@,
        }
    }
}

impl ErrorModel {
    /// The error in one line: its kind, the facade and the member joined by
    /// a dot, and the runtime's message where there is one.
    pub open spec fn description(self) -> Seq<char> {
        let head = self.kind.words() + ": "@ + self.facade + "."@ + self.member;
        if self.message.len() == 0 {
            head
        } else {
            head + ": "@ + self.message
        }
    }
}

impl BindingError {
    /// The error in one line: its kind, the facade and the member joined by
    /// a dot, and the runtime's message where there is one.
    pub fn describe(&self) -> (line: String)
        ensures
            line@ == self@.description(),
    {
        let mut line = String::from_str(self.kind.name());
        line.append(": ");
        line.append(self.facade.as_str());
        line.append(".");
        line.append(self.member.as_str());
        if !self.message.as_str().is_empty() {
            line.append(": ");
            line.append(self.message.as_str());
        }
        line
    }

    /// An error of `kind` about `member` of `facade`, carrying `message`.
    pub fn new(kind: ErrorKind, facade: &str, member: &str, message: String) -> (e: BindingError)
        ensures
            e@ == (ErrorModel {
                kind,
                facade: facade@,
                member: member@,
                message: message@,
            }),
    {
        BindingError {
            kind,
            facade: facade.to_owned(),
            member: member.to_owned(),
            message,
        }
    }

    /// The failure's kind.
    pub fn kind(&self) -> (k: ErrorKind)
        ensures
            k == self@.kind,
    {
        self.kind
    }

    /// Whether the failure is of the given kind.
    pub fn is(&self, kind: ErrorKind) -> (b: bool)
        ensures
            b == (self@.kind == kind),
    {
        self.kind == kind
    }
}

} // verus!
