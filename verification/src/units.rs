//! Physical units and quantities of the units package.

use vstd::prelude::*;
use crate::error::{BindingError, ErrorModel};
use crate::facade::{wrapped, Facade};
use crate::forward::{get_request, module_request, Call, CallModel};
use crate::reply::viewed;
use crate::value::{Handle, Value, ValueModel};

verus! {

/// The module that provides units and quantities.
pub const UNITS_MODULE: &'static str = "openff.units.units";

/// A physical unit.
#[derive(Debug)]
pub struct Unit {
    pub handle: Handle,
}

/// A number, or an array of numbers, with a unit.
#[derive(Debug)]
pub struct Quantity {
    pub handle: Handle,
}

/// The table of known units.
#[derive(Debug)]
pub struct UnitRegistry {
    pub handle: Handle,
}

impl Facade for Unit {
    open spec fn object(&self) -> Handle {
        self.handle
    }

    fn wrap(handle: Handle) -> (s: Self) {
        Unit { handle }
    }

    fn handle(&self) -> (h: &Handle) {
        &self.handle
    }
}

impl Facade for Quantity {
    open spec fn object(&self) -> Handle {
        self.handle
    }

    fn wrap(handle: Handle) -> (s: Self) {
        Quantity { handle }
    }

    fn handle(&self) -> (h: &Handle) {
        &self.handle
    }
}

impl Facade for UnitRegistry {
    open spec fn object(&self) -> Handle {
        self.handle
    }

    fn wrap(handle: Handle) -> (s: Self) {
        UnitRegistry { handle }
    }

    fn handle(&self) -> (h: &Handle) {
        &self.handle
    }
}

impl Quantity {
    /// The request that makes a quantity of `value` in `unit`.
    pub open spec fn new_request(value: ValueModel, unit: Unit) -> CallModel {
        module_request(
            "Quantity"@,
            UNITS_MODULE@,
            "Quantity"@,
            seq![value, ValueModel::Object(unit.handle)],
            seq![],
        )
    }

    /// Builds the request that makes a quantity of `value` in `unit`.
    pub fn new_call(value: Value, unit: Unit) -> (c: Call)
        ensures
            c@ == Self::new_request(value@, unit),
    {
        let mut args: Vec<Value> = Vec::new();
        args.push(value);
        args.push(Value::Object(unit.handle));
        let kwargs: Vec<(String, Value)> = Vec::new();
        let c = Call::module("Quantity", UNITS_MODULE, "Quantity", args, kwargs);
        assert(c@.op->Invoke_args =~= seq![value@, ValueModel::Object(unit.handle)]);
        assert(c@.op->Invoke_kwargs =~= seq![]);
        c
    }

    /// Makes a quantity of `value`, a number or a list of numbers, in `unit`.
    pub fn new(value: Value, unit: Unit) -> (r: Result<Quantity, BindingError>)
        ensures
            Self::new_request(value@, unit).yields_handle(wrapped(r)),
    {
        Self::new_call(value, unit).fetch_object()
    }
}

/// The request for the path of the file that defines the default units.
pub open spec fn defaults_path_request() -> CallModel {
    module_request("UnitRegistry"@, UNITS_MODULE@, "get_defaults_path"@, seq![], seq![])
}

/// The request that makes a registry from the definitions in the file at
/// `path`.
pub open spec fn registry_request(path: Seq<char>) -> CallModel {
    module_request(
        "UnitRegistry"@,
        UNITS_MODULE@,
        "UnitRegistry"@,
        seq![ValueModel::Text(path)],
        seq![],
    )
}

/// Builds the request for the path of the file that defines the default
/// units.
pub fn defaults_path_call() -> (c: Call)
    ensures
        c@ == defaults_path_request(),
{
    let c = Call::module(
        "UnitRegistry",
        UNITS_MODULE,
        "get_defaults_path",
        Vec::new(),
        Vec::new(),
    );
    assert(c@.op->Invoke_args =~= seq![]);
    assert(c@.op->Invoke_kwargs =~= seq![]);
    c
}

/// Builds the request that makes a registry from the definitions in the file
/// at `path`.
pub fn registry_call(path: String) -> (c: Call)
    ensures
        c@ == registry_request(path@),
{
    let mut args: Vec<Value> = Vec::new();
    args.push(Value::Text(path));
    let c = Call::module("UnitRegistry", UNITS_MODULE, "UnitRegistry", args, Vec::new());
    assert(c@.op->Invoke_args =~= seq![ValueModel::Text(path@)]);
    assert(c@.op->Invoke_kwargs =~= seq![]);
    c
}

/// The path of the file that defines the default units.
pub fn get_defaults_path() -> (r: Result<String, BindingError>)
    ensures
        defaults_path_request().yields_text(viewed(r)),
{
    defaults_path_call().fetch_text()
}

/// What `unit` can return: the error of the request for the default
/// definitions, or else what the request for a registry of them gives.
pub open spec fn unit_outcome(r: Result<Handle, ErrorModel>) -> bool {
    exists|path: Result<Seq<char>, ErrorModel>| #[trigger]
        defaults_path_request().yields_text(path) && match path {
            Ok(p) => registry_request(p).yields_handle(r),
            Err(e) => r == Err::<Handle, ErrorModel>(e),
        }
}

/// The registry of the default units: asks for the path of their
/// definitions, then for a registry made from that file.
pub fn unit() -> (r: Result<UnitRegistry, BindingError>)
    ensures
        unit_outcome(wrapped(r)),
{
    let path = get_defaults_path();
    match path {
        Ok(p) => {
            let r = registry_call(p).fetch_object();
            assert(defaults_path_request().yields_text(viewed(path)));
            r
        },
        Err(e) => {
            assert(defaults_path_request().yields_text(viewed(path)));
            Err(e)
        },
    }
}

impl UnitRegistry {
    /// The request for the unit of the elementary charge.
    pub open spec fn elementary_charge_request(self) -> CallModel {
        get_request("UnitRegistry"@, self.handle, "elementary_charge"@)
    }

    /// The unit of the elementary charge.
    pub fn elementary_charge(&self) -> (r: Result<Unit, BindingError>)
        ensures
            self.elementary_charge_request().yields_handle(wrapped(r)),
    {
        Call::get("UnitRegistry", &self.handle, "elementary_charge").fetch_object()
    }
}

} // verus!
