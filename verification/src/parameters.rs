//! Parameter handlers of a force field and the parameters they hold.

use vstd::prelude::*;
use crate::error::{BindingError, ErrorModel};
use crate::facade::{objects_of, wrapped_all, Facade};
use crate::forward::{get_request, method_request, nested_request, set_request, Call, CallModel};
use crate::reply::{plain, viewed};
use crate::value::{Handle, Value, ValueModel};

verus! {

/// The parameters of one kind of interaction, in order.
#[derive(Debug)]
pub struct ParameterHandler {
    pub handle: Handle,
}

/// One row of a parameter handler: a SMIRKS pattern, an id, and force
/// constants.
#[derive(Debug)]
pub struct Parameter {
    pub handle: Handle,
}

/// A reader and writer of one file format of force fields.
#[derive(Debug)]
pub struct ParameterIOHandler {
    pub handle: Handle,
}

impl Facade for ParameterHandler {
    open spec fn object(&self) -> Handle {
        self.handle
    }

    fn wrap(handle: Handle) -> (s: Self) {
        ParameterHandler { handle }
    }

    fn handle(&self) -> (h: &Handle) {
        &self.handle
    }
}

impl Facade for Parameter {
    open spec fn object(&self) -> Handle {
        self.handle
    }

    fn wrap(handle: Handle) -> (s: Self) {
        Parameter { handle }
    }

    fn handle(&self) -> (h: &Handle) {
        &self.handle
    }
}

impl Facade for ParameterIOHandler {
    open spec fn object(&self) -> Handle {
        self.handle
    }

    fn wrap(handle: Handle) -> (s: Self) {
        ParameterIOHandler { handle }
    }

    fn handle(&self) -> (h: &Handle) {
        &self.handle
    }
}

/// The first of a list of objects, if there is one.
pub open spec fn first_of(handles: Seq<Handle>) -> Option<Handle> {
    if handles.len() > 0 {
        Some(handles[0])
    } else {
        None
    }
}

/// The first parameter of a list, if there is one.
pub fn first_parameter(found: Vec<Parameter>) -> (r: Option<Parameter>)
    ensures
        match r {
            Some(p) => first_of(objects_of(found@)) == Some(p.handle),
            None => found@.len() == 0,
        },
{
    if found.len() > 0 {
        Some(Parameter { handle: found[0].handle.share() })
    } else {
        None
    }
}

impl ParameterHandler {
    /// The request for the handler's parameters.
    pub open spec fn parameters_request(self) -> CallModel {
        get_request("ParameterHandler"@, self.handle, "parameters"@)
    }

    /// The handler's parameters, in order.
    pub fn parameters(&self) -> (r: Result<Vec<Parameter>, BindingError>)
        ensures
            self.parameters_request().yields_handles(wrapped_all(r)),
    {
        Call::get("ParameterHandler", &self.handle, "parameters").fetch_objects()
    }

    /// The request for the handler's parameters of the given id.
    pub open spec fn get_parameter_request(self, id: Seq<char>) -> CallModel {
        method_request(
            "ParameterHandler"@,
            self.handle,
            "get_parameter"@,
            seq![ValueModel::Dict(seq![("id"@, ValueModel::Text(id))])],
            seq![],
        )
    }

    /// Builds the request for the handler's parameters of the given id.
    pub fn get_parameter_call(&self, id: &str) -> (c: Call)
        ensures
            c@ == self.get_parameter_request(id@),
    {
        let mut attributes: Vec<(String, Value)> = Vec::new();
        attributes.push(("id".to_owned(), Value::Text(id.to_owned())));
        let wanted = Value::Dict(attributes);
        proof {
            wanted.view_of_dict();
            assert(wanted@->Dict_0 =~= seq![("id"@, ValueModel::Text(id@))]);
        }
        let mut args: Vec<Value> = Vec::new();
        args.push(wanted);
        let c = Call::method(
            "ParameterHandler",
            &self.handle,
            "get_parameter",
            args,
            Vec::new(),
        );
        assert(c@.op->Invoke_args =~= seq![ValueModel::Dict(seq![("id"@, ValueModel::Text(id@))])]);
        assert(c@.op->Invoke_kwargs =~= seq![]);
        c
    }

    /// What `get_parameter` can return for a request: the first of the
    /// parameters that some reply lists, `None` where it lists none, or the
    /// reply's error.
    pub open spec fn first_found(request: CallModel, r: Result<Option<Handle>, ErrorModel>) -> bool {
        exists|found: Result<Seq<Handle>, ErrorModel>| #[trigger]
            request.yields_handles(found) && r == match found {
                Ok(handles) => Ok::<Option<Handle>, ErrorModel>(first_of(handles)),
                Err(e) => Err(e),
            }
    }

    /// The handler's first parameter of the given id, if it has one.
    pub fn get_parameter(&self, id: &str) -> (r: Result<Option<Parameter>, BindingError>)
        ensures
            Self::first_found(
                self.get_parameter_request(id@),
                match r {
                    Ok(Some(p)) => Ok(Some(p.handle)),
                    Ok(None) => Ok(None),
                    Err(e) => Err(e@),
                },
            ),
    {
        let found: Result<Vec<Parameter>, BindingError> = self.get_parameter_call(
            id,
        ).fetch_objects();
        assert(self.get_parameter_request(id@).yields_handles(wrapped_all(found)));
        match found {
            Ok(list) => Ok(first_parameter(list)),
            Err(e) => Err(e),
        }
    }

    /// The request that removes all of the handler's parameters.
    pub open spec fn clear_parameters_request(self) -> CallModel {
        nested_request("ParameterHandler"@, self.handle, "parameters"@, "clear"@)
    }

    /// Removes all of the handler's parameters.
    pub fn clear_parameters(&mut self) -> (r: Result<(), BindingError>)
        ensures
            *final(self) == *old(self),
            old(self).clear_parameters_request().yields_unit(plain(r)),
    {
        Call::nested("ParameterHandler", &self.handle, "parameters", "clear").fetch_unit()
    }

    /// The request that appends a parameter to the handler.
    pub open spec fn add_parameter_request(self, p: Parameter) -> CallModel {
        method_request(
            "ParameterHandler"@,
            self.handle,
            "add_parameter"@,
            seq![],
            seq![("parameter"@, ValueModel::Object(p.handle))],
        )
    }

    /// Builds the request that appends a parameter to the handler.
    pub fn add_parameter_call(&self, p: Parameter) -> (c: Call)
        ensures
            c@ == self.add_parameter_request(p),
    {
        let mut kwargs: Vec<(String, Value)> = Vec::new();
        kwargs.push(("parameter".to_owned(), Value::Object(p.handle)));
        let c = Call::method(
            "ParameterHandler",
            &self.handle,
            "add_parameter",
            Vec::new(),
            kwargs,
        );
        assert(c@.op->Invoke_args =~= seq![]);
        assert(c@.op->Invoke_kwargs =~= seq![("parameter"@, ValueModel::Object(p.handle))]);
        c
    }

    /// Appends a parameter to the handler.
    pub fn add_parameter(&mut self, p: Parameter) -> (r: Result<(), BindingError>)
        ensures
            *final(self) == *old(self),
            old(self).add_parameter_request(p).yields_unit(plain(r)),
    {
        self.add_parameter_call(p).fetch_unit()
    }
}

impl Parameter {
    /// The request for the parameter's id.
    pub open spec fn id_request(self) -> CallModel {
        get_request("Parameter"@, self.handle, "id"@)
    }

    /// The parameter's id.
    pub fn id(&self) -> (r: Result<String, BindingError>)
        ensures
            self.id_request().yields_text(viewed(r)),
    {
        Call::get("Parameter", &self.handle, "id").fetch_text()
    }

    /// The request for the parameter's SMIRKS pattern.
    pub open spec fn smirks_request(self) -> CallModel {
        get_request("Parameter"@, self.handle, "smirks"@)
    }

    /// The parameter's SMIRKS pattern.
    pub fn smirks(&self) -> (r: Result<String, BindingError>)
        ensures
            self.smirks_request().yields_text(viewed(r)),
    {
        Call::get("Parameter", &self.handle, "smirks").fetch_text()
    }

    /// The request that gives the parameter a new id.
    pub open spec fn set_id_request(self, id: ValueModel) -> CallModel {
        set_request("Parameter"@, self.handle, "id"@, id)
    }

    /// Builds the request that gives the parameter a new id.
    pub fn set_id_call(&self, id: Value) -> (c: Call)
        ensures
            c@ == self.set_id_request(id@),
    {
        Call::set("Parameter", &self.handle, "id", id)
    }

    /// Gives the parameter a new id: a value that the runtime accepts for
    /// it, as a rule a text.
    pub fn set_id(&mut self, id: Value) -> (r: Result<(), BindingError>)
        ensures
            *final(self) == *old(self),
            old(self).set_id_request(id@).yields_unit(plain(r)),
    {
        self.set_id_call(id).fetch_unit()
    }
}

} // verus!
