//! Molecules and the topologies made of them.

use vstd::prelude::*;
use crate::error::BindingError;
use crate::facade::{as_references, objects_of, references, wrapped, wrapped_all, Facade};
use crate::forward::{
    class_request,
    get_request,
    method_request,
    module_request,
    set_request,
    Call,
    CallModel,
};
use crate::reply::{plain, viewed};
use crate::units::Quantity;
use crate::value::{Handle, Value, ValueModel};

verus! {

/// The module that provides molecules.
pub const MOLECULE_MODULE: &'static str = "openff.toolkit.topology.molecule";

/// The module that provides topologies.
pub const TOPOLOGY_MODULE: &'static str = "openff.toolkit.topology.topology";

/// A chemical graph of atoms and bonds.
#[derive(Debug)]
pub struct Molecule {
    pub handle: Handle,
}

/// A chemical representation of a system containing one or more molecules
/// appearing in a specified order.
#[derive(Debug)]
pub struct Topology {
    pub handle: Handle,
}

impl Facade for Molecule {
    open spec fn object(&self) -> Handle {
        self.handle
    }

    fn wrap(handle: Handle) -> (s: Self) {
        Molecule { handle }
    }

    fn handle(&self) -> (h: &Handle) {
        &self.handle
    }
}

impl Facade for Topology {
    open spec fn object(&self) -> Handle {
        self.handle
    }

    fn wrap(handle: Handle) -> (s: Self) {
        Topology { handle }
    }

    fn handle(&self) -> (h: &Handle) {
        &self.handle
    }
}

impl Molecule {
    /// The request that makes an empty molecule.
    pub open spec fn new_request() -> CallModel {
        module_request("Molecule"@, MOLECULE_MODULE@, "Molecule"@, seq![], seq![])
    }

    /// Builds the request that makes an empty molecule.
    pub fn new_call() -> (c: Call)
        ensures
            c@ == Self::new_request(),
    {
        let c = Call::module("Molecule", MOLECULE_MODULE, "Molecule", Vec::new(), Vec::new());
        assert(c@.op->Invoke_args =~= seq![]);
        assert(c@.op->Invoke_kwargs =~= seq![]);
        c
    }

    /// Makes an empty molecule.
    pub fn new() -> (r: Result<Molecule, BindingError>)
        ensures
            Self::new_request().yields_handle(wrapped(r)),
    {
        Self::new_call().fetch_object()
    }

    /// The request that adds an atom to the molecule.
    pub open spec fn add_atom_request(
        self,
        atomic_number: u8,
        formal_charge: i8,
        is_aromatic: bool,
    ) -> CallModel {
        method_request(
            "Molecule"@,
            self.handle,
            "add_atom"@,
            seq![
                ValueModel::Index(atomic_number as nat),
                ValueModel::Int(formal_charge as int),
                ValueModel::Bool(is_aromatic),
            ],
            seq![],
        )
    }

    /// Builds the request that adds an atom to the molecule.
    pub fn add_atom_call(&self, atomic_number: u8, formal_charge: i8, is_aromatic: bool) -> (c:
        Call)
        ensures
            c@ == self.add_atom_request(atomic_number, formal_charge, is_aromatic),
    {
        let mut args: Vec<Value> = Vec::new();
        args.push(Value::Index(atomic_number as usize));
        args.push(Value::Int(formal_charge as i64));
        args.push(Value::Bool(is_aromatic));
        let c = Call::method("Molecule", &self.handle, "add_atom", args, Vec::new());
        assert(c@.op->Invoke_args =~= seq![
            ValueModel::Index(atomic_number as nat),
            ValueModel::Int(formal_charge as int),
            ValueModel::Bool(is_aromatic),
        ]);
        assert(c@.op->Invoke_kwargs =~= seq![]);
        c
    }

    /// Adds an atom to the molecule and returns the position that the
    /// runtime gave it.
    pub fn add_atom(&mut self, atomic_number: u8, formal_charge: i8, is_aromatic: bool) -> (r:
        Result<usize, BindingError>)
        ensures
            *final(self) == *old(self),
            old(self).add_atom_request(atomic_number, formal_charge, is_aromatic).yields_index(
                plain(r),
            ),
    {
        self.add_atom_call(atomic_number, formal_charge, is_aromatic).fetch_index()
    }

    /// The request that adds a bond between two atoms of the molecule. The
    /// fractional bond order is a decimal literal.
    pub open spec fn add_bond_request(
        self,
        atom1: usize,
        atom2: usize,
        bond_order: usize,
        is_aromatic: bool,
        fractional_bond_order: Seq<char>,
    ) -> CallModel {
        method_request(
            "Molecule"@,
            self.handle,
            "add_bond"@,
            seq![
                ValueModel::Index(atom1 as nat),
                ValueModel::Index(atom2 as nat),
                ValueModel::Index(bond_order as nat),
                ValueModel::Bool(is_aromatic),
            ],
            seq![("fractional_bond_order"@, ValueModel::Real(fractional_bond_order))],
        )
    }

    /// Builds the request that adds a bond between two atoms of the molecule.
    pub fn add_bond_call(
        &self,
        atom1: usize,
        atom2: usize,
        bond_order: usize,
        is_aromatic: bool,
        fractional_bond_order: &str,
    ) -> (c: Call)
        ensures
            c@ == self.add_bond_request(
                atom1,
                atom2,
                bond_order,
                is_aromatic,
                fractional_bond_order@,
            ),
    {
        let mut args: Vec<Value> = Vec::new();
        args.push(Value::Index(atom1));
        args.push(Value::Index(atom2));
        args.push(Value::Index(bond_order));
        args.push(Value::Bool(is_aromatic));
        let mut kwargs: Vec<(String, Value)> = Vec::new();
        kwargs.push(
            ("fractional_bond_order".to_owned(), Value::Real(fractional_bond_order.to_owned())),
        );
        let c = Call::method("Molecule", &self.handle, "add_bond", args, kwargs);
        assert(c@.op->Invoke_args =~= seq![
            ValueModel::Index(atom1 as nat),
            ValueModel::Index(atom2 as nat),
            ValueModel::Index(bond_order as nat),
            ValueModel::Bool(is_aromatic),
        ]);
        assert(c@.op->Invoke_kwargs =~= seq![
            ("fractional_bond_order"@, ValueModel::Real(fractional_bond_order@)),
        ]);
        c
    }

    /// Adds a bond between two atoms of the molecule and returns the position
    /// that the runtime gave it. The fractional bond order is a decimal
    /// literal, such as `"1.33"`.
    pub fn add_bond(
        &mut self,
        atom1: usize,
        atom2: usize,
        bond_order: usize,
        is_aromatic: bool,
        fractional_bond_order: &str,
    ) -> (r: Result<usize, BindingError>)
        ensures
            *final(self) == *old(self),
            old(self).add_bond_request(
                atom1,
                atom2,
                bond_order,
                is_aromatic,
                fractional_bond_order@,
            ).yields_index(plain(r)),
    {
        self.add_bond_call(
            atom1,
            atom2,
            bond_order,
            is_aromatic,
            fractional_bond_order,
        ).fetch_index()
    }

    /// The request that sets the partial charges of the molecule's atoms.
    pub open spec fn set_partial_charges_request(self, charges: Quantity) -> CallModel {
        set_request(
            "Molecule"@,
            self.handle,
            "partial_charges"@,
            ValueModel::Object(charges.handle),
        )
    }

    /// Builds the request that sets the partial charges of the molecule's
    /// atoms.
    pub fn set_partial_charges_call(&self, charges: Quantity) -> (c: Call)
        ensures
            c@ == self.set_partial_charges_request(charges),
    {
        Call::set("Molecule", &self.handle, "partial_charges", Value::Object(charges.handle))
    }

    /// Sets the partial charges of the molecule's atoms.
    pub fn set_partial_charges(&mut self, charges: Quantity) -> (r: Result<(), BindingError>)
        ensures
            *final(self) == *old(self),
            old(self).set_partial_charges_request(charges).yields_unit(plain(r)),
    {
        self.set_partial_charges_call(charges).fetch_unit()
    }

    /// The request for a SMILES representation of the molecule.
    pub open spec fn to_smiles_request(
        self,
        isomeric: bool,
        explicit_hydrogens: bool,
        mapped: bool,
    ) -> CallModel {
        method_request(
            "Molecule"@,
            self.handle,
            "to_smiles"@,
            seq![
                ValueModel::Bool(isomeric),
                ValueModel::Bool(explicit_hydrogens),
                ValueModel::Bool(mapped),
            ],
            seq![],
        )
    }

    /// Builds the request for a SMILES representation of the molecule.
    pub fn to_smiles_call(&self, isomeric: bool, explicit_hydrogens: bool, mapped: bool) -> (c:
        Call)
        ensures
            c@ == self.to_smiles_request(isomeric, explicit_hydrogens, mapped),
    {
        let mut args: Vec<Value> = Vec::new();
        args.push(Value::Bool(isomeric));
        args.push(Value::Bool(explicit_hydrogens));
        args.push(Value::Bool(mapped));
        let c = Call::method("Molecule", &self.handle, "to_smiles", args, Vec::new());
        assert(c@.op->Invoke_args =~= seq![
            ValueModel::Bool(isomeric),
            ValueModel::Bool(explicit_hydrogens),
            ValueModel::Bool(mapped),
        ]);
        assert(c@.op->Invoke_kwargs =~= seq![]);
        c
    }

    /// A SMILES representation of the molecule, optionally in isomeric,
    /// explicit-hydrogen, and mapped form.
    pub fn to_smiles(&self, isomeric: bool, explicit_hydrogens: bool, mapped: bool) -> (r:
        Result<String, BindingError>)
        ensures
            self.to_smiles_request(isomeric, explicit_hydrogens, mapped).yields_text(viewed(r)),
    {
        self.to_smiles_call(isomeric, explicit_hydrogens, mapped).fetch_text()
    }

    /// A SMILES representation of the molecule in the runtime's default
    /// form: isomeric, with explicit hydrogens, not mapped.
    pub fn to_smiles_default(&self) -> (r: Result<String, BindingError>)
        ensures
            self.to_smiles_request(true, true, false).yields_text(viewed(r)),
    {
        self.to_smiles(true, true, false)
    }

    /// The request for a topology that holds just this molecule.
    pub open spec fn to_topology_request(self) -> CallModel {
        method_request("Molecule"@, self.handle, "to_topology"@, seq![], seq![])
    }

    /// Builds the request for a topology that holds just this molecule.
    pub fn to_topology_call(&self) -> (c: Call)
        ensures
            c@ == self.to_topology_request(),
    {
        let c = Call::method("Molecule", &self.handle, "to_topology", Vec::new(), Vec::new());
        assert(c@.op->Invoke_args =~= seq![]);
        assert(c@.op->Invoke_kwargs =~= seq![]);
        c
    }

    /// A topology that holds just this molecule. The molecule is given up
    /// for it.
    pub fn to_topology(self) -> (r: Result<Topology, BindingError>)
        ensures
            self.to_topology_request().yields_handle(wrapped(r)),
    {
        self.to_topology_call().fetch_object()
    }
}

impl Topology {
    /// The request that makes an empty topology.
    pub open spec fn new_request() -> CallModel {
        module_request("Topology"@, TOPOLOGY_MODULE@, "Topology"@, seq![], seq![])
    }

    /// Builds the request that makes an empty topology.
    pub fn new_call() -> (c: Call)
        ensures
            c@ == Self::new_request(),
    {
        let c = Call::module("Topology", TOPOLOGY_MODULE, "Topology", Vec::new(), Vec::new());
        assert(c@.op->Invoke_args =~= seq![]);
        assert(c@.op->Invoke_kwargs =~= seq![]);
        c
    }

    /// Makes an empty topology.
    pub fn new() -> (r: Result<Topology, BindingError>)
        ensures
            Self::new_request().yields_handle(wrapped(r)),
    {
        Self::new_call().fetch_object()
    }

    /// The request that makes a topology of the given molecules, in order.
    pub open spec fn from_molecules_request(molecules: Seq<Handle>) -> CallModel {
        class_request(
            "Topology"@,
            TOPOLOGY_MODULE@,
            "Topology"@,
            "from_molecules"@,
            seq![references(molecules)],
            seq![],
        )
    }

    /// Builds the request that makes a topology of the given molecules, in
    /// order.
    pub fn from_molecules_call(molecules: &Vec<Molecule>) -> (c: Call)
        ensures
            c@ == Self::from_molecules_request(objects_of(molecules@)),
    {
        let mut args: Vec<Value> = Vec::new();
        args.push(as_references(molecules));
        let c = Call::class(
            "Topology",
            TOPOLOGY_MODULE,
            "Topology",
            "from_molecules",
            args,
            Vec::new(),
        );
        assert(c@.op->Invoke_args =~= seq![references(objects_of(molecules@))]);
        assert(c@.op->Invoke_kwargs =~= seq![]);
        c
    }

    /// Makes a topology of the given molecules, in order.
    pub fn from_molecules(molecules: Vec<Molecule>) -> (r: Result<Topology, BindingError>)
        ensures
            Self::from_molecules_request(objects_of(molecules@)).yields_handle(wrapped(r)),
    {
        Self::from_molecules_call(&molecules).fetch_object()
    }

    /// The request for one molecule of each kind in the topology.
    pub open spec fn unique_molecules_request(self) -> CallModel {
        method_request("Topology"@, self.handle, "unique_molecules"@, seq![], seq![])
    }

    /// Builds the request for one molecule of each kind in the topology.
    pub fn unique_molecules_call(&self) -> (c: Call)
        ensures
            c@ == self.unique_molecules_request(),
    {
        let c = Call::method(
            "Topology",
            &self.handle,
            "unique_molecules",
            Vec::new(),
            Vec::new(),
        );
        assert(c@.op->Invoke_args =~= seq![]);
        assert(c@.op->Invoke_kwargs =~= seq![]);
        c
    }

    /// One molecule of each kind in the topology, as the runtime tells them
    /// apart. The reply may be anything that can be walked; every object
    /// that the walk gives is in the result, in the order of the walk, and a
    /// step at which the runtime raises ends the request with an `External`
    /// error.
    pub fn unique_molecules(&self) -> (r: Result<Vec<Molecule>, BindingError>)
        ensures
            self.unique_molecules_request().yields_walked_handles(wrapped_all(r)),
    {
        self.unique_molecules_call().fetch_walked_objects()
    }

    /// The request for the number of kinds of molecule in the topology.
    pub open spec fn n_unique_molecules_request(self) -> CallModel {
        get_request("Topology"@, self.handle, "n_unique_molecules"@)
    }

    /// The number of kinds of molecule in the topology.
    pub fn n_unique_molecules(&self) -> (r: Result<usize, BindingError>)
        ensures
            self.n_unique_molecules_request().yields_index(plain(r)),
    {
        Call::get("Topology", &self.handle, "n_unique_molecules").fetch_index()
    }

    /// The request for the number of molecules in the topology.
    pub open spec fn n_molecules_request(self) -> CallModel {
        get_request("Topology"@, self.handle, "n_molecules"@)
    }

    /// The number of molecules in the topology.
    pub fn n_molecules(&self) -> (r: Result<usize, BindingError>)
        ensures
            self.n_molecules_request().yields_index(plain(r)),
    {
        Call::get("Topology", &self.handle, "n_molecules").fetch_index()
    }
}

} // verus!
