//! The client of the data archive, and the records it serves.

use vstd::prelude::*;
use crate::error::{BindingError, ErrorModel};
use crate::facade::{wrapped, Facade};
use crate::forward::{module_request, Call, CallModel, Op, OpModel, Root, RootModel};
use crate::reply::{plain, viewed};
use crate::value::{models, Handle, Shape, Value, ValueModel};

verus! {

/// The module that provides the archive's client.
pub const PORTAL_MODULE: &'static str = "qcportal";

/// The module that provides the archive's record types.
pub const RECORD_MODULE: &'static str = "qcportal.record_models";

/// A connection to a data archive.
#[derive(Debug)]
pub struct PortalClient {
    pub handle: Handle,
}

impl Facade for PortalClient {
    open spec fn object(&self) -> Handle {
        self.handle
    }

    fn wrap(handle: Handle) -> (s: Self) {
        PortalClient { handle }
    }

    fn handle(&self) -> (h: &Handle) {
        &self.handle
    }
}

impl PortalClient {
    /// The request that makes a client for the archive at `address`.
    pub open spec fn new_request(address: Seq<char>) -> CallModel {
        module_request(
            "PortalClient"@,
            PORTAL_MODULE@,
            "PortalClient"@,
            seq![ValueModel::Text(address)],
            seq![],
        )
    }

    /// Builds the request that makes a client for the archive at `address`.
    pub fn new_call(address: &str) -> (c: Call)
        ensures
            c@ == Self::new_request(address@),
    {
        let mut args: Vec<Value> = Vec::new();
        args.push(Value::Text(address.to_owned()));
        let c = Call::module("PortalClient", PORTAL_MODULE, "PortalClient", args, Vec::new());
        assert(c@.op->Invoke_args =~= seq![ValueModel::Text(address@)]);
        assert(c@.op->Invoke_kwargs =~= seq![]);
        c
    }

    /// Makes a client for the archive at `address`.
    pub fn new(address: &str) -> (r: Result<PortalClient, BindingError>)
        ensures
            Self::new_request(address@).yields_handle(wrapped(r)),
    {
        Self::new_call(address).fetch_object()
    }
}

/// The state of a computation in the archive.
#[derive(Clone, Copy, Debug, PartialEq, Eq, Structural)]
pub enum RecordStatus {
    Cancelled,
    Complete,
    Deleted,
    Error,
    Invalid,
    Running,
    Waiting,
}

impl RecordStatus {
    /// The name under which the archive's enumeration of states holds this
    /// state.
    pub open spec fn name(self) -> Seq<char> {
        match self {
            RecordStatus::Cancelled => "cancelled"@,
            RecordStatus::Complete => "complete"@,
            RecordStatus::Deleted => "deleted"@,
            RecordStatus::Error => "error"@,
            RecordStatus::Invalid => "invalid"@,
            RecordStatus::Running => "running"@,
            RecordStatus::Waiting => "waiting"@,
        }
    }

    /// The name under which the archive's enumeration of states holds this
    /// state.
    pub fn attribute(self) -> (s: &'static str)
        ensures
            s@ == self.name(),
    {
        match self {
            RecordStatus::Cancelled => "cancelled",
            RecordStatus::Complete => "complete",
            RecordStatus::Deleted => "deleted",
            RecordStatus::Error => "error",
            RecordStatus::Invalid => "invalid",
            RecordStatus::Running => "running",
            RecordStatus::Waiting => "waiting",
        }
    }

    /// Two states with the same name are the same state.
    pub proof fn names_differ(a: RecordStatus, b: RecordStatus)
        ensures
            a.name() == b.name() <==> a == b,
    {
        reveal_strlit("cancelled");
        reveal_strlit("complete");
        reveal_strlit("deleted");
        reveal_strlit("error");
        reveal_strlit("invalid");
        reveal_strlit("running");
        reveal_strlit("waiting");
        if a != b && a.name() == b.name() {
            assert(a.name().len() == b.name().len());
            assert(a.name()[0] == b.name()[0]);
            assert(a.name()[1] == b.name()[1]);
        }
    }

    /// The request for the member of the archive's enumeration that stands
    /// for this state.
    pub open spec fn request(self) -> CallModel {
        CallModel {
            facade: "RecordStatus"@,
            root: RootModel::Module(RECORD_MODULE@),
            path: seq!["RecordStatusEnum"@, self.name()],
            op: OpModel::Read,
        }
    }

    /// Builds the request for the member of the archive's enumeration that
    /// stands for this state.
    pub fn call(self) -> (c: Call)
        ensures
            c@ == self.request(),
    {
        let mut path: Vec<String> = Vec::new();
        path.push("RecordStatusEnum".to_owned());
        path.push(self.attribute().to_owned());
        let c = Call {
            facade: "RecordStatus".to_owned(),
            root: Root::Module(RECORD_MODULE.to_owned()),
            path,
            op: Op::Read,
        };
        assert(c@.path =~= seq!["RecordStatusEnum"@, self.name()]);
        c
    }

    /// The member of the archive's enumeration that stands for this state.
    pub fn to_object(self) -> (r: Result<Handle, BindingError>)
        ensures
            self.request().yields_handle(plain(r)),
    {
        self.call().fetch_handle()
    }
}

/// The keywords of a torsion drive: the dihedral angles that it scans, each
/// as the positions of its four atoms.
#[derive(Clone, Debug)]
pub struct TorsiondriveKeywords {
    pub dihedrals: Vec<(usize, usize, usize, usize)>,
}

/// The specification of a torsion drive.
#[derive(Clone, Debug)]
pub struct TorsiondriveSpecification {
    pub keywords: TorsiondriveKeywords,
}

/// The record of a torsion drive.
#[derive(Clone, Debug)]
pub struct TorsiondriveRecord {
    pub specification: TorsiondriveSpecification,
}

impl ValueModel {
    /// Whether the value is a list of exactly four positions.
    pub open spec fn is_quad(self) -> bool {
        &&& self matches ValueModel::List(items)
        &&& items.len() == 4
        &&& forall|k: int| 0 <= k < 4 ==> (#[trigger] items[k]) is Index
    }

    /// The four positions of such a list.
    pub open spec fn quad(self) -> (usize, usize, usize, usize) {
        (
            self->List_0[0]->Index_0 as usize,
            self->List_0[1]->Index_0 as usize,
            self->List_0[2]->Index_0 as usize,
            self->List_0[3]->Index_0 as usize,
        )
    }

    /// The dihedrals of a list of lists of four positions each.
    pub open spec fn quads(self) -> Option<Seq<(usize, usize, usize, usize)>> {
        if self is List && forall|i: int|
            0 <= i < self->List_0.len() ==> (#[trigger] self->List_0[i]).is_quad() {
            Some(Seq::new(self->List_0.len(), |i: int| self->List_0[i].quad()))
        } else {
            None
        }
    }
}

/// The four positions of a list of exactly four positions; `None` for any
/// other value.
pub fn quad_of(value: &Value) -> (r: Option<(usize, usize, usize, usize)>)
    ensures
        r is Some <==> value@.is_quad(),
        r matches Some(q) ==> q == value@.quad(),
{
    match value {
        Value::List(items) => {
            proof {
                value.view_of_list();
            }
            if items.len() != 4 {
                return None;
            }
            let a = items[0].index();
            let b = items[1].index();
            let c = items[2].index();
            let d = items[3].index();
            match (a, b, c, d) {
                (Some(a), Some(b), Some(c), Some(d)) => {
                    assert forall|k: int| 0 <= k < 4 implies (#[trigger] value@->List_0[k]) is Index by {
                        assert(value@->List_0[k] == items@[k]@);
                    }
                    Some((a, b, c, d))
                },
                _ => {
                    assert(!value@.is_quad()) by {
                        assert(value@->List_0[0] == items@[0]@);
                        assert(value@->List_0[1] == items@[1]@);
                        assert(value@->List_0[2] == items@[2]@);
                        assert(value@->List_0[3] == items@[3]@);
                    }
                    None
                },
            }
        },
        _ => None,
    }
}

/// The dihedrals of a list of lists of four positions each; `None` for any
/// other value.
pub fn quads_of(value: &Value) -> (r: Option<Vec<(usize, usize, usize, usize)>>)
    ensures
        r is Some <==> value@.quads() is Some,
        r matches Some(v) ==> value@.quads() == Some(v@),
{
    match value {
        Value::List(items) => {
            proof {
                value.view_of_list();
            }
            let mut out: Vec<(usize, usize, usize, usize)> = Vec::new();
            let mut i: usize = 0;
            while i < items.len()
                invariant
                    i <= items.len(),
                    value@ == ValueModel::List(models(items@)),
                    out@.len() == i,
                    forall|j: int|
                        0 <= j < i ==> (#[trigger] items@[j])@.is_quad() && out@[j] == items@[j]@.quad(),
                decreases items.len() - i,
            {
                match quad_of(&items[i]) {
                    Some(q) => out.push(q),
                    None => {
                        assert(!value@->List_0[i as int].is_quad());
                        return None;
                    },
                }
                i = i + 1;
            }
            proof {
                assert forall|j: int| 0 <= j < value@->List_0.len() implies (
                #[trigger] value@->List_0[j]).is_quad() by {
                    assert(items@[j]@.is_quad());
                }
                assert(value@.quads()->Some_0 =~= out@);
            }
            Some(out)
        },
        _ => None,
    }
}

/// The shape of a list of dihedrals.
pub open spec fn dihedrals_shape() -> Shape {
    Shape::List(Box::new(Shape::List(Box::new(Shape::Index))))
}

impl CallModel {
    /// The result of a request for a list of dihedrals.
    pub open spec fn quads_of(self, reply: Result<Value, BindingError>) -> Result<
        Seq<(usize, usize, usize, usize)>,
        ErrorModel,
    > {
        match reply {
            Ok(v) => match v@.quads() {
                Some(quads) => Ok(quads),
                None => Err(self.mismatch()),
            },
            Err(e) => Err(e@),
        }
    }

    /// `r` is what some reply to the request gives when a list of dihedrals
    /// is asked for.
    pub open spec fn yields_quads(
        self,
        r: Result<Seq<(usize, usize, usize, usize)>, ErrorModel>,
    ) -> bool {
        exists|reply: Result<Value, BindingError>|
            self.answered_by(dihedrals_shape(), reply) && r == self.quads_of(reply)
    }
}

/// The request that reads the attribute reached from `object` by the names
/// of `path`, one after the other.
pub open spec fn chain_request(facade: Seq<char>, object: Handle, path: Seq<Seq<char>>) -> CallModel {
    CallModel { facade, root: RootModel::Object(object), path, op: OpModel::Read }
}

impl Call {
    /// Reads a list of dihedrals from the reply.
    pub fn quads(&self, reply: Result<Value, BindingError>) -> (r: Result<
        Vec<(usize, usize, usize, usize)>,
        BindingError,
    >)
        ensures
            viewed(r) == self@.quads_of(reply),
    {
        match reply {
            Ok(v) => match quads_of(&v) {
                Some(q) => Ok(q),
                None => Err(self.mismatch()),
            },
            Err(e) => Err(e),
        }
    }

    /// Carries the request out for a list of dihedrals.
    pub fn fetch_quads(&self) -> (r: Result<Vec<(usize, usize, usize, usize)>, BindingError>)
        ensures
            self@.yields_quads(viewed(r)),
    {
        let shape = Shape::List(Box::new(Shape::List(Box::new(Shape::Index))));
        let reply = self.invoke(&shape);
        self.quads(reply)
    }
}

impl TorsiondriveKeywords {
    /// The request for the dihedrals of the keywords behind `object`.
    pub open spec fn extract_request(object: Handle) -> CallModel {
        chain_request("TorsiondriveKeywords"@, object, seq!["dihedrals"@])
    }

    /// Builds the request for the dihedrals of the keywords behind `object`.
    pub fn extract_call(object: &Handle) -> (c: Call)
        ensures
            c@ == Self::extract_request(*object),
    {
        Call::get("TorsiondriveKeywords", object, "dihedrals")
    }

    /// Reads the keywords behind `object`.
    pub fn extract(object: &Handle) -> (r: Result<TorsiondriveKeywords, BindingError>)
        ensures
            Self::extract_request(*object).yields_quads(
                match r {
                    Ok(k) => Ok(k.dihedrals@),
                    Err(e) => Err(e@),
                },
            ),
    {
        match Self::extract_call(object).fetch_quads() {
            Ok(dihedrals) => Ok(TorsiondriveKeywords { dihedrals }),
            Err(e) => Err(e),
        }
    }
}

impl TorsiondriveSpecification {
    /// The request for the dihedrals of the specification behind `object`.
    pub open spec fn extract_request(object: Handle) -> CallModel {
        chain_request("TorsiondriveSpecification"@, object, seq!["keywords"@, "dihedrals"@])
    }

    /// Builds the request for the dihedrals of the specification behind
    /// `object`.
    pub fn extract_call(object: &Handle) -> (c: Call)
        ensures
            c@ == Self::extract_request(*object),
    {
        let mut path: Vec<String> = Vec::new();
        path.push("keywords".to_owned());
        path.push("dihedrals".to_owned());
        let c = Call {
            facade: "TorsiondriveSpecification".to_owned(),
            root: Root::Object(object.share()),
            path,
            op: Op::Read,
        };
        assert(c@.path =~= seq!["keywords"@, "dihedrals"@]);
        c
    }

    /// Reads the specification behind `object`.
    pub fn extract(object: &Handle) -> (r: Result<TorsiondriveSpecification, BindingError>)
        ensures
            Self::extract_request(*object).yields_quads(
                match r {
                    Ok(s) => Ok(s.keywords.dihedrals@),
                    Err(e) => Err(e@),
                },
            ),
    {
        match Self::extract_call(object).fetch_quads() {
            Ok(dihedrals) => Ok(
                TorsiondriveSpecification { keywords: TorsiondriveKeywords { dihedrals } },
            ),
            Err(e) => Err(e),
        }
    }
}

impl TorsiondriveRecord {
    /// The request for the dihedrals of the record behind `object`.
    pub open spec fn extract_request(object: Handle) -> CallModel {
        chain_request(
            "TorsiondriveRecord"@,
            object,
            seq!["specification"@, "keywords"@, "dihedrals"@],
        )
    }

    /// Builds the request for the dihedrals of the record behind `object`.
    pub fn extract_call(object: &Handle) -> (c: Call)
        ensures
            c@ == Self::extract_request(*object),
    {
        let mut path: Vec<String> = Vec::new();
        path.push("specification".to_owned());
        path.push("keywords".to_owned());
        path.push("dihedrals".to_owned());
        let c = Call {
            facade: "TorsiondriveRecord".to_owned(),
            root: Root::Object(object.share()),
            path,
            op: Op::Read,
        };
        assert(c@.path =~= seq!["specification"@, "keywords"@, "dihedrals"@]);
        c
    }

    /// Reads the record behind `object`.
    pub fn extract(object: &Handle) -> (r: Result<TorsiondriveRecord, BindingError>)
        ensures
            Self::extract_request(*object).yields_quads(
                match r {
                    Ok(t) => Ok(t.specification.keywords.dihedrals@),
                    Err(e) => Err(e@),
                },
            ),
    {
        match Self::extract_call(object).fetch_quads() {
            Ok(dihedrals) => Ok(
                TorsiondriveRecord {
                    specification: TorsiondriveSpecification {
                        keywords: TorsiondriveKeywords { dihedrals },
                    },
                },
            ),
            Err(e) => Err(e),
        }
    }
}

} // verus!
