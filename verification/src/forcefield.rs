//! Force fields: loading, metadata, parameter handlers, and what a force
//! field makes of a topology.

use vstd::prelude::*;
use crate::error::BindingError;
use crate::facade::{wrapped, Facade};
use crate::forward::{get_request, method_request, module_request, set_request, Call, CallModel};
use crate::parameters::{ParameterHandler, ParameterIOHandler};
use crate::reply::{deep, plain, viewed};
use crate::topology::{Molecule, Topology};
use crate::units::Quantity;
use crate::value::{Handle, Value, ValueModel};

verus! {

/// The module that provides force fields.
pub const FORCEFIELD_MODULE: &'static str = "openff.toolkit.typing.engines.smirnoff.forcefield";

/// A parameterized typing scheme.
#[derive(Debug)]
pub struct ForceField {
    pub handle: Handle,
}

/// A system of the simulation engine.
#[derive(Debug)]
pub struct System {
    pub handle: Handle,
}

/// A parameterized system, ready to be exported.
#[derive(Debug)]
pub struct Interchange {
    pub handle: Handle,
}

impl Facade for ForceField {
    open spec fn object(&self) -> Handle {
        self.handle
    }

    fn wrap(handle: Handle) -> (s: Self) {
        ForceField { handle }
    }

    fn handle(&self) -> (h: &Handle) {
        &self.handle
    }
}

impl Facade for System {
    open spec fn object(&self) -> Handle {
        self.handle
    }

    fn wrap(handle: Handle) -> (s: Self) {
        System { handle }
    }

    fn handle(&self) -> (h: &Handle) {
        &self.handle
    }
}

impl Facade for Interchange {
    open spec fn object(&self) -> Handle {
        self.handle
    }

    fn wrap(handle: Handle) -> (s: Self) {
        Interchange { handle }
    }

    fn handle(&self) -> (h: &Handle) {
        &self.handle
    }
}

/// The request for the names of the force field files that the runtime can
/// find.
pub open spec fn available_force_fields_request() -> CallModel {
    module_request(
        "ForceField"@,
        FORCEFIELD_MODULE@,
        "get_available_force_fields"@,
        seq![],
        seq![],
    )
}

/// Builds the request for the names of the force field files that the
/// runtime can find.
pub fn available_force_fields_call() -> (c: Call)
    ensures
        c@ == available_force_fields_request(),
{
    let c = Call::module(
        "ForceField",
        FORCEFIELD_MODULE,
        "get_available_force_fields",
        Vec::new(),
        Vec::new(),
    );
    assert(c@.op->Invoke_args =~= seq![]);
    assert(c@.op->Invoke_kwargs =~= seq![]);
    c
}

/// The names of the force field files that the runtime can find.
pub fn get_available_force_fields() -> (r: Result<Vec<String>, BindingError>)
    ensures
        available_force_fields_request().yields_texts(deep(r)),
{
    available_force_fields_call().fetch_texts()
}

impl ForceField {
    /// The request that loads a force field from one parameter definition
    /// file, keeping cosmetic attributes.
    pub open spec fn load_request(path: Seq<char>) -> CallModel {
        module_request(
            "ForceField"@,
            FORCEFIELD_MODULE@,
            "ForceField"@,
            seq![ValueModel::Text(path)],
            seq![("allow_cosmetic_attributes"@, ValueModel::Bool(true))],
        )
    }

    /// Builds the request that loads a force field from one parameter
    /// definition file.
    pub fn load_call(path: &str) -> (c: Call)
        ensures
            c@ == Self::load_request(path@),
    {
        let mut args: Vec<Value> = Vec::new();
        args.push(Value::Text(path.to_owned()));
        let mut kwargs: Vec<(String, Value)> = Vec::new();
        kwargs.push(("allow_cosmetic_attributes".to_owned(), Value::Bool(true)));
        let c = Call::module("ForceField", FORCEFIELD_MODULE, "ForceField", args, kwargs);
        assert(c@.op->Invoke_args =~= seq![ValueModel::Text(path@)]);
        assert(c@.op->Invoke_kwargs =~= seq![
            ("allow_cosmetic_attributes"@, ValueModel::Bool(true)),
        ]);
        c
    }

    /// Loads a force field from one SMIRNOFF parameter definition file.
    pub fn load(path: &str) -> (r: Result<ForceField, BindingError>)
        ensures
            Self::load_request(path@).yields_handle(wrapped(r)),
    {
        Self::load_call(path).fetch_object()
    }

    /// The request for one of the force field's properties.
    pub open spec fn property_request(self, name: Seq<char>) -> CallModel {
        get_request("ForceField"@, self.handle, name)
    }

    /// The request that assigns a value to one of the force field's
    /// properties.
    pub open spec fn assignment_request(self, name: Seq<char>, value: ValueModel) -> CallModel {
        set_request("ForceField"@, self.handle, name, value)
    }

    /// The force field's aromaticity model.
    pub fn aromaticity_model(&self) -> (r: Result<String, BindingError>)
        ensures
            self.property_request("aromaticity_model"@).yields_text(viewed(r)),
    {
        Call::get("ForceField", &self.handle, "aromaticity_model").fetch_text()
    }

    /// The force field's author.
    pub fn author(&self) -> (r: Result<String, BindingError>)
        ensures
            self.property_request("author"@).yields_text(viewed(r)),
    {
        Call::get("ForceField", &self.handle, "author").fetch_text()
    }

    /// The force field's date.
    pub fn date(&self) -> (r: Result<String, BindingError>)
        ensures
            self.property_request("date"@).yields_text(viewed(r)),
    {
        Call::get("ForceField", &self.handle, "date").fetch_text()
    }

    /// The tag names of the parameter handlers registered with the force
    /// field.
    pub fn registered_parameter_handlers(&self) -> (r: Result<Vec<String>, BindingError>)
        ensures
            self.property_request("registered_parameter_handlers"@).yields_texts(deep(r)),
    {
        Call::get("ForceField", &self.handle, "registered_parameter_handlers").fetch_texts()
    }

    /// Sets the force field's aromaticity model to a value that the runtime accepts
    /// for it.
    pub fn set_aromaticity_model(&mut self, value: Value) -> (r: Result<(), BindingError>)
        ensures
            *final(self) == *old(self),
            old(self).assignment_request("aromaticity_model"@, value@).yields_unit(plain(r)),
    {
        Call::set("ForceField", &self.handle, "aromaticity_model", value).fetch_unit()
    }

    /// Sets the force field's author to a value that the runtime accepts
    /// for it.
    pub fn set_author(&mut self, value: Value) -> (r: Result<(), BindingError>)
        ensures
            *final(self) == *old(self),
            old(self).assignment_request("author"@, value@).yields_unit(plain(r)),
    {
        Call::set("ForceField", &self.handle, "author", value).fetch_unit()
    }

    /// Sets the force field's date to a value that the runtime accepts
    /// for it.
    pub fn set_date(&mut self, value: Value) -> (r: Result<(), BindingError>)
        ensures
            *final(self) == *old(self),
            old(self).assignment_request("date"@, value@).yields_unit(plain(r)),
    {
        Call::set("ForceField", &self.handle, "date", value).fetch_unit()
    }

    /// The request that invokes the method `name` of the force field with
    /// one argument.
    pub open spec fn unary_request(self, name: Seq<char>, argument: ValueModel) -> CallModel {
        method_request("ForceField"@, self.handle, name, seq![argument], seq![])
    }

    /// Builds the request that invokes the method `name` of the force field
    /// with one argument.
    pub fn unary_call(&self, name: &str, argument: Value) -> (c: Call)
        ensures
            c@ == self.unary_request(name@, argument@),
    {
        let mut args: Vec<Value> = Vec::new();
        args.push(argument);
        let c = Call::method("ForceField", &self.handle, name, args, Vec::new());
        assert(c@.op->Invoke_args =~= seq![argument@]);
        assert(c@.op->Invoke_kwargs =~= seq![]);
        c
    }

    /// Registers a parameter handler with the force field.
    pub fn register_parameter_handler(&mut self, ph: ParameterHandler) -> (r: Result<
        (),
        BindingError,
    >)
        ensures
            *final(self) == *old(self),
            old(self).unary_request(
                "register_parameter_handler"@,
                ValueModel::Object(ph.handle),
            ).yields_unit(plain(r)),
    {
        self.unary_call("register_parameter_handler", Value::Object(ph.handle)).fetch_unit()
    }

    /// Registers a handler of a file format with the force field. The
    /// runtime is asked through the same method as for a parameter handler.
    pub fn register_parameter_io_handler(&mut self, ph: ParameterIOHandler) -> (r: Result<
        (),
        BindingError,
    >)
        ensures
            *final(self) == *old(self),
            old(self).unary_request(
                "register_parameter_handler"@,
                ValueModel::Object(ph.handle),
            ).yields_unit(plain(r)),
    {
        self.unary_call("register_parameter_handler", Value::Object(ph.handle)).fetch_unit()
    }

    /// The parameter handler registered under `tagname`.
    pub fn get_parameter_handler(&self, tagname: &str) -> (r: Result<
        ParameterHandler,
        BindingError,
    >)
        ensures
            self.unary_request("get_parameter_handler"@, ValueModel::Text(tagname@)).yields_handle(
                wrapped(r),
            ),
    {
        self.unary_call("get_parameter_handler", Value::Text(tagname.to_owned())).fetch_object()
    }

    /// The handler of the file format `io_format`.
    pub fn get_parameter_io_handler(&self, io_format: &str) -> (r: Result<
        ParameterIOHandler,
        BindingError,
    >)
        ensures
            self.unary_request(
                "get_parameter_io_handler"@,
                ValueModel::Text(io_format@),
            ).yields_handle(wrapped(r)),
    {
        self.unary_call(
            "get_parameter_io_handler",
            Value::Text(io_format.to_owned()),
        ).fetch_object()
    }

    /// Deregisters the parameter handler of the given tag name.
    pub fn deregister_parameter_handler(&mut self, handler: &str) -> (r: Result<
        (),
        BindingError,
    >)
        ensures
            *final(self) == *old(self),
            old(self).unary_request(
                "deregister_parameter_handler"@,
                ValueModel::Text(handler@),
            ).yields_unit(plain(r)),
    {
        self.unary_call(
            "deregister_parameter_handler",
            Value::Text(handler.to_owned()),
        ).fetch_unit()
    }

    /// The request that parses one force field definition into the force
    /// field: the source is handed over as a list of one.
    pub open spec fn parse_sources_request(self, source: Seq<char>) -> CallModel {
        self.unary_request("parse_sources"@, ValueModel::List(seq![ValueModel::Text(source)]))
    }

    /// Builds the request that parses one force field definition into the
    /// force field.
    pub fn parse_sources_call(&self, source: &str) -> (c: Call)
        ensures
            c@ == self.parse_sources_request(source@),
    {
        let mut sources: Vec<Value> = Vec::new();
        sources.push(Value::Text(source.to_owned()));
        let list = Value::List(sources);
        proof {
            list.view_of_list();
            assert(list@->List_0 =~= seq![ValueModel::Text(source@)]);
        }
        self.unary_call("parse_sources", list)
    }

    /// Parses one SMIRNOFF force field definition into the force field.
    pub fn parse_sources(&mut self, source: &str) -> (r: Result<(), BindingError>)
        ensures
            *final(self) == *old(self),
            old(self).parse_sources_request(source@).yields_unit(plain(r)),
    {
        self.parse_sources_call(source).fetch_unit()
    }

    /// Parses a SMIRNOFF definition and returns the runtime's dictionary of
    /// what it holds.
    pub fn parse_smirnoff_from_source(&self, source: &str) -> (r: Result<Handle, BindingError>)
        ensures
            self.unary_request(
                "parse_smirnoff_from_source"@,
                ValueModel::Text(source@),
            ).yields_handle(plain(r)),
    {
        self.unary_call(
            "parse_smirnoff_from_source",
            Value::Text(source.to_owned()),
        ).fetch_handle()
    }

    /// Has the runtime write the force field to the file `filename`.
    pub fn to_file(&self, filename: &str) -> (r: Result<(), BindingError>)
        ensures
            self.unary_request("to_file"@, ValueModel::Text(filename@)).yields_unit(plain(r)),
    {
        self.unary_call("to_file", Value::Text(filename.to_owned())).fetch_unit()
    }

    /// The request for the force field's textual form.
    pub open spec fn to_string_request(self) -> CallModel {
        method_request("ForceField"@, self.handle, "to_string"@, seq![], seq![])
    }

    /// Builds the request for the force field's textual form.
    pub fn to_string_call(&self) -> (c: Call)
        ensures
            c@ == self.to_string_request(),
    {
        let c = Call::method("ForceField", &self.handle, "to_string", Vec::new(), Vec::new());
        assert(c@.op->Invoke_args =~= seq![]);
        assert(c@.op->Invoke_kwargs =~= seq![]);
        c
    }

    /// The force field's textual form.
    pub fn to_string(&self) -> (r: Result<String, BindingError>)
        ensures
            self.to_string_request().yields_text(viewed(r)),
    {
        self.to_string_call().fetch_text()
    }

    /// Makes a system of the simulation engine for `topology`.
    pub fn create_openmm_system(&self, topology: Topology) -> (r: Result<System, BindingError>)
        ensures
            self.unary_request(
                "create_openmm_system"@,
                ValueModel::Object(topology.handle),
            ).yields_handle(wrapped(r)),
    {
        self.unary_call("create_openmm_system", Value::Object(topology.handle)).fetch_object()
    }

    /// Makes a parameterized system for `topology`.
    pub fn create_interchange(&self, topology: Topology) -> (r: Result<
        Interchange,
        BindingError,
    >)
        ensures
            self.unary_request(
                "create_interchange"@,
                ValueModel::Object(topology.handle),
            ).yields_handle(wrapped(r)),
    {
        self.unary_call("create_interchange", Value::Object(topology.handle)).fetch_object()
    }

    /// The parameters that the force field assigns to each molecule of
    /// `topology`: one dictionary of the runtime per molecule.
    pub fn label_molecules(&self, topology: Topology) -> (r: Result<Vec<Handle>, BindingError>)
        ensures
            self.unary_request(
                "label_molecules"@,
                ValueModel::Object(topology.handle),
            ).yields_handles(viewed(r)),
    {
        self.unary_call("label_molecules", Value::Object(topology.handle)).fetch_handles()
    }

    /// The partial charges that the force field assigns to `molecule`.
    pub fn get_partial_charges(&self, molecule: Molecule) -> (r: Result<Quantity, BindingError>)
        ensures
            self.unary_request(
                "get_partial_charges"@,
                ValueModel::Object(molecule.handle),
            ).yields_handle(wrapped(r)),
    {
        self.unary_call("get_partial_charges", Value::Object(molecule.handle)).fetch_object()
    }
}

} // verus!
