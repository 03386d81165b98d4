//! Scenarios that need the chemistry toolkit in the runtime. Where the
//! runtime cannot load it, each of them ends before its first step.

use openff_bindings::error::ErrorKind;
use openff_bindings::forcefield::{get_available_force_fields, ForceField};
use openff_bindings::forward::Call;
use openff_bindings::topology::{Molecule, Topology};
use openff_bindings::units::{unit, Quantity};
use openff_bindings::value::Value;

const DEFAULT_AROMATICITY_MODEL: &str = "OEAroModel_MDL";

fn toolkit_is_missing() -> bool {
    matches!(Molecule::new(), Err(e) if e.kind == ErrorKind::Startup)
}

fn reals(values: &[&str]) -> Value {
    Value::List(values.iter().map(|v| Value::Real(v.to_string())).collect())
}

fn create_ethanol() -> Molecule {
    let mut ethanol = Molecule::new().unwrap();
    ethanol.add_atom(6, 0, false).unwrap();
    ethanol.add_atom(6, 0, false).unwrap();
    ethanol.add_atom(8, 0, false).unwrap();
    ethanol.add_atom(1, 0, false).unwrap();
    ethanol.add_atom(1, 0, false).unwrap();
    ethanol.add_atom(1, 0, false).unwrap();
    ethanol.add_atom(1, 0, false).unwrap();
    ethanol.add_atom(1, 0, false).unwrap();
    ethanol.add_atom(1, 0, false).unwrap();
    ethanol.add_bond(0, 1, 1, false, "1.33").unwrap();
    ethanol.add_bond(1, 2, 1, false, "1.23").unwrap();
    ethanol.add_bond(0, 3, 1, false, "1.0").unwrap();
    ethanol.add_bond(0, 4, 1, false, "1.0").unwrap();
    ethanol.add_bond(0, 5, 1, false, "1.0").unwrap();
    ethanol.add_bond(1, 6, 1, false, "1.0").unwrap();
    ethanol.add_bond(1, 7, 1, false, "1.0").unwrap();
    ethanol.add_bond(2, 8, 1, false, "1.0").unwrap();
    let charges = Quantity::new(
        reals(&["-0.4", "-0.3", "-0.2", "-0.1", "0.00001", "0.1", "0.2", "0.3", "0.4"]),
        unit().unwrap().elementary_charge().unwrap(),
    )
    .unwrap();
    ethanol.set_partial_charges(charges).unwrap();
    ethanol
}

#[test]
fn unique_molecules() {
    if toolkit_is_missing() {
        return;
    }
    let top = Topology::from_molecules(vec![create_ethanol(), create_ethanol()]).unwrap();
    assert_eq!(top.n_unique_molecules().unwrap(), 1);
    assert_eq!(top.n_molecules().unwrap(), 2);
}

#[test]
fn added_atoms_are_numbered_in_order() {
    if toolkit_is_missing() {
        return;
    }
    let mut mol = Molecule::new().unwrap();
    for expected in 0..6 {
        assert_eq!(mol.add_atom(6, 0, false).unwrap(), expected);
    }
}

#[test]
fn avail() {
    if toolkit_is_missing() {
        return;
    }
    let got = get_available_force_fields().unwrap();
    assert!(got.contains(&String::from("openff-2.1.0.offxml")));
}

#[test]
fn load_forcefield() {
    if toolkit_is_missing() {
        return;
    }
    ForceField::load("openff-2.1.0.offxml").unwrap();
}

#[test]
fn get_aromaticity_model() {
    if toolkit_is_missing() {
        return;
    }
    let mdl = ForceField::load("openff-2.1.0.offxml").unwrap().aromaticity_model().unwrap();
    assert_eq!(mdl, DEFAULT_AROMATICITY_MODEL);
}

#[test]
fn get_parameter_handler() {
    if toolkit_is_missing() {
        return;
    }
    let ff = ForceField::load("openff-2.1.0.offxml").unwrap();
    ff.get_parameter_handler("Bonds").unwrap();
    ff.get_parameter_handler("Angles").unwrap();
    ff.get_parameter_handler("ProperTorsions").unwrap();
    ff.get_parameter_handler("ImproperTorsions").unwrap();
}

#[test]
fn register_parameter_handler() {
    if toolkit_is_missing() {
        return;
    }
    let mut ff = ForceField::load("openff-2.1.0.offxml").unwrap();
    let bh = ff.get_parameter_handler("Bonds").unwrap();
    ff.deregister_parameter_handler("Bonds").unwrap();
    ff.register_parameter_handler(bh).unwrap();
}

#[test]
fn to_string() {
    if toolkit_is_missing() {
        return;
    }
    let ff = ForceField::load("openff-2.1.0.offxml").unwrap();
    ff.to_string().unwrap();
}

#[test]
fn to_file() {
    if toolkit_is_missing() {
        return;
    }
    let ff = ForceField::load("openff-2.1.0.offxml").unwrap();
    let out = "/tmp/try.offxml";
    ff.to_file(out).unwrap();
    let file = Call::module(
        "Test",
        "builtins",
        "open",
        vec![Value::Text(out.to_string())],
        Vec::new(),
    )
    .fetch_handle()
    .unwrap();
    let got = Call::method("Test", &file, "read", Vec::new(), Vec::new()).fetch_text().unwrap();
    assert_eq!(got, ff.to_string().unwrap());
}

#[test]
fn misc() {
    if toolkit_is_missing() {
        return;
    }
    let ff = ForceField::load("openff-2.1.0.offxml").unwrap();
    ff.parse_smirnoff_from_source("openff-2.1.0.offxml").unwrap();
    ff.get_parameter_io_handler("XML").unwrap();
}

#[test]
fn getters_run() {
    if toolkit_is_missing() {
        return;
    }
    let ff = ForceField::load("openff-2.1.0.offxml").unwrap();
    ff.author().unwrap();
    ff.date().unwrap();
    ff.registered_parameter_handlers().unwrap();
}

#[test]
fn setters_run() {
    if toolkit_is_missing() {
        return;
    }
    let mut ff = ForceField::load("openff-2.1.0.offxml").unwrap();
    ff.set_aromaticity_model(Value::Text(DEFAULT_AROMATICITY_MODEL.to_string())).unwrap();
    ff.set_author(Value::Text("bwestbro".to_string())).unwrap();
    ff.set_date(Value::Text("today".to_string())).unwrap();
}

#[test]
fn missing_toolkit_is_a_startup_error_that_names_the_module() {
    if !toolkit_is_missing() {
        return;
    }
    let err = Molecule::new().unwrap_err();
    assert_eq!(err.kind, ErrorKind::Startup);
    assert_eq!(err.facade, "Molecule");
    assert_eq!(err.member, "openff.toolkit.topology.molecule");
    let err = ForceField::load("openff-2.1.0.offxml").unwrap_err();
    assert_eq!(err.kind, ErrorKind::Startup);
    assert_eq!(err.facade, "ForceField");
}
