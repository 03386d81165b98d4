use openff_bindings::error::ErrorKind;
use openff_bindings::forcefield::ForceField;
use openff_bindings::forward::{read_all, read_named, walk_step, Call, Op, Root};
use openff_bindings::parameters::{first_parameter, Parameter, ParameterHandler};
use openff_bindings::portal::{
    quad_of, quads_of, PortalClient, RecordStatus, TorsiondriveKeywords, TorsiondriveRecord,
    TorsiondriveSpecification,
};
use openff_bindings::results::{
    decode_entries, encode_entries, BaseResultCollection, Entry, OptimizationResultCollection,
    TorsionDriveResultCollection,
};
use openff_bindings::topology::{Molecule, Topology};
use openff_bindings::units::{Quantity, Unit, UnitRegistry};
use openff_bindings::value::{Handle, Shape, Unread, Value};

fn namespace(fields: Vec<(&str, Value)>) -> Handle {
    let kwargs = fields.into_iter().map(|(k, v)| (k.to_string(), v)).collect();
    Call::module("Test", "types", "SimpleNamespace", Vec::new(), kwargs).fetch_handle().unwrap()
}

fn text(s: &str) -> Value {
    Value::Text(s.to_string())
}

fn args_of(call: &Call) -> (&Vec<Value>, &Vec<(String, Value)>) {
    match &call.op {
        Op::Invoke { args, kwargs } => (args, kwargs),
        _ => panic!("not an invocation"),
    }
}

#[test]
fn add_atom_request_holds_the_three_arguments() {
    let mol = Molecule { handle: namespace(vec![]) };
    let call = mol.add_atom_call(6, -1, true);
    assert_eq!(call.facade, "Molecule");
    assert_eq!(call.path, vec!["add_atom".to_string()]);
    let (args, kwargs) = args_of(&call);
    assert_eq!(args.len(), 3);
    assert_eq!(args[0].index(), Some(6));
    assert_eq!(args[1].integer(), Some(-1));
    assert_eq!(args[2].truth(), Some(true));
    assert!(kwargs.is_empty());
}

#[test]
fn add_bond_request_names_the_fractional_bond_order() {
    let mol = Molecule { handle: namespace(vec![]) };
    let call = mol.add_bond_call(0, 1, 2, false, "1.33");
    let (args, kwargs) = args_of(&call);
    assert_eq!(args.len(), 4);
    assert_eq!(args[0].index(), Some(0));
    assert_eq!(args[1].index(), Some(1));
    assert_eq!(args[2].index(), Some(2));
    assert_eq!(args[3].truth(), Some(false));
    assert_eq!(kwargs.len(), 1);
    assert_eq!(kwargs[0].0, "fractional_bond_order");
    assert!(matches!(&kwargs[0].1, Value::Real(s) if s == "1.33"));
}

#[test]
fn molecule_constructor_starts_at_its_module() {
    let call = Molecule::new_call();
    assert!(matches!(&call.root, Root::Module(m) if m == "openff.toolkit.topology.molecule"));
    assert_eq!(call.path, vec!["Molecule".to_string()]);
    let call = Topology::new_call();
    assert!(matches!(&call.root, Root::Module(m) if m == "openff.toolkit.topology.topology"));
    assert_eq!(call.path, vec!["Topology".to_string()]);
}

#[test]
fn from_molecules_hands_over_one_list() {
    let a = Molecule { handle: namespace(vec![]) };
    let b = Molecule { handle: namespace(vec![]) };
    let call = Topology::from_molecules_call(&vec![a, b]);
    assert_eq!(call.path, vec!["Topology".to_string(), "from_molecules".to_string()]);
    let (args, _) = args_of(&call);
    assert_eq!(args.len(), 1);
    assert_eq!(args[0].handles().unwrap().len(), 2);
}

#[test]
fn smiles_default_is_isomeric_explicit_unmapped() {
    let mol = Molecule { handle: namespace(vec![]) };
    let call = mol.to_smiles_call(true, true, false);
    let (args, _) = args_of(&call);
    assert_eq!(args[0].truth(), Some(true));
    assert_eq!(args[1].truth(), Some(true));
    assert_eq!(args[2].truth(), Some(false));
    let err = mol.to_smiles_default().unwrap_err();
    assert_eq!(err.kind, ErrorKind::NoSuchMethod);
    assert_eq!(err.member, "to_smiles");
}

#[test]
fn molecule_without_methods_reports_each_by_name() {
    let mut mol = Molecule { handle: namespace(vec![]) };
    let err = mol.add_atom(6, 0, false).unwrap_err();
    assert_eq!((err.kind, err.facade.as_str(), err.member.as_str()), (
        ErrorKind::NoSuchMethod,
        "Molecule",
        "add_atom"
    ));
    let err = mol.add_bond(0, 1, 1, false, "1.0").unwrap_err();
    assert_eq!(err.member, "add_bond");
    let err = mol.to_topology().unwrap_err();
    assert_eq!(err.member, "to_topology");
}

#[test]
fn partial_charges_are_assigned_as_an_attribute() {
    let mut mol = Molecule { handle: namespace(vec![]) };
    let charges = Quantity { handle: namespace(vec![("marker", Value::Index(42))]) };
    mol.set_partial_charges(charges).unwrap();
    let stored = Call::get("Test", &mol.handle, "partial_charges").fetch_handle().unwrap();
    assert_eq!(Call::get("Test", &stored, "marker").fetch_index().unwrap(), 42);
}

#[test]
fn topology_counts_are_read_as_properties() {
    let top = Topology {
        handle: namespace(vec![
            ("n_molecules", Value::Index(2)),
            ("n_unique_molecules", Value::Index(1)),
        ]),
    };
    assert_eq!(top.n_unique_molecules().unwrap(), 1);
    assert_eq!(top.n_molecules().unwrap(), 2);
}

#[test]
fn negative_count_is_a_conversion_error() {
    let top = Topology { handle: namespace(vec![("n_molecules", Value::Int(-1))]) };
    let err = top.n_molecules().unwrap_err();
    assert_eq!(err.kind, ErrorKind::Conversion);
    assert_eq!(err.facade, "Topology");
    assert_eq!(err.member, "n_molecules");
}

#[test]
fn force_field_properties_round_trip() {
    let mut ff = ForceField {
        handle: namespace(vec![
            ("aromaticity_model", text("OEAroModel_MDL")),
            ("author", text("a")),
            ("date", text("b")),
            ("registered_parameter_handlers", Value::List(vec![text("Bonds"), text("Angles")])),
        ]),
    };
    assert_eq!(ff.aromaticity_model().unwrap(), "OEAroModel_MDL");
    assert_eq!(
        ff.registered_parameter_handlers().unwrap(),
        vec!["Bonds".to_string(), "Angles".to_string()]
    );
    ff.set_author(text("bwestbro")).unwrap();
    ff.set_date(text("today")).unwrap();
    ff.set_aromaticity_model(text("other")).unwrap();
    assert_eq!(ff.author().unwrap(), "bwestbro");
    assert_eq!(ff.date().unwrap(), "today");
    assert_eq!(ff.aromaticity_model().unwrap(), "other");
}

#[test]
fn load_request_allows_cosmetic_attributes() {
    let call = ForceField::load_call("openff-2.1.0.offxml");
    assert_eq!(call.facade, "ForceField");
    assert!(matches!(
        &call.root,
        Root::Module(m) if m == "openff.toolkit.typing.engines.smirnoff.forcefield"
    ));
    assert_eq!(call.path, vec!["ForceField".to_string()]);
    let (args, kwargs) = args_of(&call);
    assert_eq!(args[0].text().unwrap(), "openff-2.1.0.offxml");
    assert_eq!(kwargs[0].0, "allow_cosmetic_attributes");
    assert_eq!(kwargs[0].1.truth(), Some(true));
}

#[test]
fn parse_sources_hands_over_a_list_of_one() {
    let ff = ForceField { handle: namespace(vec![]) };
    let call = ff.parse_sources_call("<SMIRNOFF/>");
    let (args, _) = args_of(&call);
    assert_eq!(args.len(), 1);
    assert_eq!(args[0].texts().unwrap(), vec!["<SMIRNOFF/>".to_string()]);
}

#[test]
fn force_field_methods_are_named_in_errors() {
    let mut ff = ForceField { handle: namespace(vec![]) };
    assert_eq!(ff.get_parameter_handler("Bonds").unwrap_err().member, "get_parameter_handler");
    assert_eq!(ff.get_parameter_io_handler("XML").unwrap_err().member, "get_parameter_io_handler");
    assert_eq!(ff.deregister_parameter_handler("Bonds").unwrap_err().member, "deregister_parameter_handler");
    assert_eq!(ff.to_string().unwrap_err().member, "to_string");
    assert_eq!(ff.to_file("/tmp/x.offxml").unwrap_err().member, "to_file");
    assert_eq!(ff.parse_sources("x").unwrap_err().member, "parse_sources");
    assert_eq!(ff.parse_smirnoff_from_source("x").unwrap_err().member, "parse_smirnoff_from_source");
    let top = Topology { handle: namespace(vec![]) };
    assert_eq!(ff.create_openmm_system(top).unwrap_err().member, "create_openmm_system");
    let top = Topology { handle: namespace(vec![]) };
    assert_eq!(ff.create_interchange(top).unwrap_err().member, "create_interchange");
    let top = Topology { handle: namespace(vec![]) };
    assert_eq!(ff.label_molecules(top).unwrap_err().member, "label_molecules");
    let mol = Molecule { handle: namespace(vec![]) };
    assert_eq!(ff.get_partial_charges(mol).unwrap_err().member, "get_partial_charges");
    let ph = ParameterHandler { handle: namespace(vec![]) };
    let err = ff.register_parameter_handler(ph).unwrap_err();
    assert_eq!((err.kind, err.member.as_str()), (ErrorKind::NoSuchMethod, "register_parameter_handler"));
}

#[test]
fn parameter_id_is_read_and_rewritten() {
    let mut p = Parameter {
        handle: namespace(vec![("id", text("t5")), ("smirks", text("[*:1]-[*:2]"))]),
    };
    assert_eq!(p.id().unwrap(), "t5");
    assert_eq!(p.smirks().unwrap(), "[*:1]-[*:2]");
    p.set_id(text("t5x")).unwrap();
    assert_eq!(p.id().unwrap(), "t5x");
}

#[test]
fn handler_lists_and_clears_its_parameters() {
    let p1 = namespace(vec![("id", text("t1"))]);
    let p2 = namespace(vec![("id", text("t2"))]);
    let mut h = ParameterHandler {
        handle: namespace(vec![(
            "parameters",
            Value::List(vec![Value::Object(p1), Value::Object(p2)]),
        )]),
    };
    let ps = h.parameters().unwrap();
    assert_eq!(ps.len(), 2);
    assert_eq!(ps[0].id().unwrap(), "t1");
    assert_eq!(ps[1].id().unwrap(), "t2");
    h.clear_parameters().unwrap();
    assert!(h.parameters().unwrap().is_empty());
}

#[test]
fn get_parameter_asks_by_id_and_takes_the_first() {
    let h = ParameterHandler { handle: namespace(vec![]) };
    let call = h.get_parameter_call("t7");
    assert_eq!(call.path, vec!["get_parameter".to_string()]);
    let (args, _) = args_of(&call);
    match &args[0] {
        Value::Dict(entries) => {
            assert_eq!(entries.len(), 1);
            assert_eq!(entries[0].0, "id");
            assert_eq!(entries[0].1.text().unwrap(), "t7");
        }
        _ => panic!("not a mapping"),
    }
    assert!(first_parameter(Vec::new()).is_none());
    let found = vec![
        Parameter { handle: namespace(vec![("id", text("t7"))]) },
        Parameter { handle: namespace(vec![("id", text("t8"))]) },
    ];
    assert_eq!(first_parameter(found).unwrap().id().unwrap(), "t7");
}

#[test]
fn add_parameter_names_its_argument() {
    let h = ParameterHandler { handle: namespace(vec![]) };
    let p = Parameter { handle: namespace(vec![]) };
    let call = h.add_parameter_call(p);
    let (args, kwargs) = args_of(&call);
    assert!(args.is_empty());
    assert_eq!(kwargs[0].0, "parameter");
    assert!(kwargs[0].1.handle().is_some());
}

#[test]
fn record_status_names() {
    assert_eq!(RecordStatus::Cancelled.attribute(), "cancelled");
    assert_eq!(RecordStatus::Complete.attribute(), "complete");
    assert_eq!(RecordStatus::Deleted.attribute(), "deleted");
    assert_eq!(RecordStatus::Error.attribute(), "error");
    assert_eq!(RecordStatus::Invalid.attribute(), "invalid");
    assert_eq!(RecordStatus::Running.attribute(), "running");
    assert_eq!(RecordStatus::Waiting.attribute(), "waiting");
    let call = RecordStatus::Complete.call();
    assert!(matches!(&call.root, Root::Module(m) if m == "qcportal.record_models"));
    assert_eq!(call.path, vec!["RecordStatusEnum".to_string(), "complete".to_string()]);
    assert!(matches!(call.op, Op::Read));
}

#[test]
fn portal_client_takes_the_address() {
    let call = PortalClient::new_call("https://api.qcarchive.molssi.org:443");
    assert!(matches!(&call.root, Root::Module(m) if m == "qcportal"));
    let (args, _) = args_of(&call);
    assert_eq!(args[0].text().unwrap(), "https://api.qcarchive.molssi.org:443");
}

#[test]
fn dihedrals_are_lists_of_four_positions() {
    let quad = Value::List(vec![
        Value::Index(0),
        Value::Index(1),
        Value::Index(2),
        Value::Index(3),
    ]);
    assert_eq!(quad_of(&quad), Some((0, 1, 2, 3)));
    let short = Value::List(vec![Value::Index(0), Value::Index(1), Value::Index(2)]);
    assert_eq!(quad_of(&short), None);
    let mixed =
        Value::List(vec![Value::Index(0), Value::Int(1), Value::Index(2), Value::Index(3)]);
    assert_eq!(quad_of(&mixed), None);
    assert_eq!(quad_of(&Value::Index(4)), None);
    assert_eq!(quads_of(&Value::List(vec![short])), None);
    assert_eq!(quads_of(&Value::List(Vec::new())), Some(Vec::new()));
}

#[test]
fn torsiondrive_record_is_read_through_its_attributes() {
    let quad = |a: usize| {
        Value::List(vec![
            Value::Index(a),
            Value::Index(a + 1),
            Value::Index(a + 2),
            Value::Index(a + 3),
        ])
    };
    let keywords = namespace(vec![("dihedrals", Value::List(vec![quad(0), quad(4)]))]);
    let k = TorsiondriveKeywords::extract(&keywords).unwrap();
    assert_eq!(k.dihedrals, vec![(0, 1, 2, 3), (4, 5, 6, 7)]);
    let specification = namespace(vec![("keywords", Value::Object(keywords))]);
    let s = TorsiondriveSpecification::extract(&specification).unwrap();
    assert_eq!(s.keywords.dihedrals, vec![(0, 1, 2, 3), (4, 5, 6, 7)]);
    let record = namespace(vec![("specification", Value::Object(specification))]);
    let r = TorsiondriveRecord::extract(&record).unwrap();
    assert_eq!(r.specification.keywords.dihedrals, vec![(0, 1, 2, 3), (4, 5, 6, 7)]);
    let empty = namespace(vec![]);
    let err = TorsiondriveRecord::extract(&empty).unwrap_err();
    assert_eq!(err.kind, ErrorKind::NoSuchAttribute);
    assert_eq!(err.member, "specification");
}

#[test]
fn entry_properties() {
    let e = Entry {
        handle: namespace(vec![
            ("record_id", Value::Index(2002949)),
            ("cmiles", text("CCO")),
            ("inchi_key", text("LFQSCWFLJHTTHZ-UHFFFAOYSA-N")),
        ]),
    };
    assert_eq!(e.record_id().unwrap(), 2002949);
    assert_eq!(e.cmiles().unwrap(), "CCO");
    assert_eq!(e.inchi_key().unwrap(), "LFQSCWFLJHTTHZ-UHFFFAOYSA-N");
    assert_eq!(e.share().record_id().unwrap(), 2002949);
}

fn entry(id: usize) -> Entry {
    Entry { handle: namespace(vec![("record_id", Value::Index(id))]) }
}

fn ids_of(entries: &Vec<(String, Vec<Entry>)>) -> Vec<(String, Vec<usize>)> {
    entries
        .iter()
        .map(|(k, v)| (k.clone(), v.iter().map(|e| e.record_id().unwrap()).collect()))
        .collect()
}

#[test]
fn entries_survive_encoding_and_decoding() {
    let entries = vec![
        ("first".to_string(), vec![entry(1), entry(2)]),
        ("second".to_string(), Vec::new()),
        ("third".to_string(), vec![entry(3)]),
    ];
    let value = encode_entries(&entries);
    let back = decode_entries(&value).unwrap();
    assert_eq!(ids_of(&back), ids_of(&entries));
    assert!(decode_entries(&Value::Index(1)).is_none());
    let wrong = Value::Dict(vec![("first".to_string(), Value::Index(1))]);
    assert!(decode_entries(&wrong).is_none());
}

#[test]
fn entries_read_after_set_entries_are_the_same() {
    let mut collection = OptimizationResultCollection {
        handle: namespace(vec![("entries", Value::Dict(Vec::new()))]),
    };
    assert!(collection.entries().unwrap().is_empty());
    let given = vec![
        ("dataset one".to_string(), vec![entry(10), entry(11)]),
        ("dataset two".to_string(), vec![entry(20)]),
    ];
    let expected = ids_of(&given);
    collection.set_entries(given).unwrap();
    let first = collection.entries().unwrap();
    assert_eq!(ids_of(&first), expected);
    collection.set_entries(first).unwrap();
    let second = collection.entries().unwrap();
    assert_eq!(ids_of(&second), expected);
}

#[test]
fn torsion_drive_collection_reads_entries_too() {
    let collection = TorsionDriveResultCollection {
        handle: namespace(vec![(
            "entries",
            Value::Dict(vec![("td".to_string(), Value::List(vec![Value::Object(entry(7).handle)]))]),
        )]),
    };
    assert_eq!(ids_of(&collection.entries().unwrap()), vec![("td".to_string(), vec![7])]);
    let err = collection.json(2).unwrap_err();
    assert_eq!(err.kind, ErrorKind::NoSuchMethod);
    assert_eq!(err.facade, "TorsionDriveResultCollection");
    assert_eq!(err.member, "json");
}

#[test]
fn unit_registry_reads_the_elementary_charge() {
    let charge = namespace(vec![("symbol", text("e"))]);
    let registry =
        UnitRegistry { handle: namespace(vec![("elementary_charge", Value::Object(charge))]) };
    let unit: Unit = registry.elementary_charge().unwrap();
    assert_eq!(Call::get("Test", &unit.handle, "symbol").fetch_text().unwrap(), "e");
}

#[test]
fn quantity_request_holds_value_and_unit() {
    let unit = Unit { handle: namespace(vec![]) };
    let value = Value::List(vec![Value::Real("-0.4".to_string()), Value::Real("0.00001".to_string())]);
    let call = Quantity::new_call(value, unit);
    assert!(matches!(&call.root, Root::Module(m) if m == "openff.units.units"));
    assert_eq!(call.path, vec!["Quantity".to_string()]);
    let (args, _) = args_of(&call);
    assert_eq!(args.len(), 2);
    assert!(matches!(&args[0], Value::List(items) if items.len() == 2));
    assert!(args[1].handle().is_some());
}

#[test]
fn setters_take_values_other_than_text() {
    let mut ff = ForceField { handle: namespace(vec![("date", text("b"))]) };
    ff.set_date(Value::Index(2024)).unwrap();
    assert_eq!(Call::get("Test", &ff.handle, "date").fetch_index().unwrap(), 2024);
    let mut p = Parameter { handle: namespace(vec![("id", text("t1"))]) };
    p.set_id(Value::Index(7)).unwrap();
    let err = p.id().unwrap_err();
    assert_eq!(err.kind, ErrorKind::Conversion);
}

fn marked(n: usize) -> Handle {
    namespace(vec![("marker", Value::Index(n))])
}

fn marker(h: &Handle) -> usize {
    Call::get("Test", h, "marker").fetch_index().unwrap()
}

#[test]
fn listed_objects_are_read_in_order_and_as_themselves() {
    let objects = vec![marked(3).object, marked(1).object, marked(2).object];
    let values = read_all(objects, &Shape::Object).unwrap();
    assert_eq!(values.len(), 3);
    let markers: Vec<usize> = values.iter().map(|v| marker(&v.handle().unwrap())).collect();
    assert_eq!(markers, vec![3, 1, 2]);
    assert_eq!(read_all(Vec::new(), &Shape::Text).unwrap().len(), 0);
    assert!(matches!(read_all(vec![marked(1).object], &Shape::Text), Err(Unread::Mismatch)));
    let dropped = read_all(vec![marked(1).object, marked(2).object], &Shape::Ignored).unwrap();
    assert_eq!(dropped.len(), 2);
    assert!(matches!(dropped[0], Value::Nothing));
}

#[test]
fn named_objects_are_read_in_order_under_their_names() {
    let named = vec![("b".to_string(), marked(5).object), ("a".to_string(), marked(6).object)];
    let entries = read_named(named, &Shape::Object).unwrap();
    assert_eq!(entries.len(), 2);
    assert_eq!(entries[0].0, "b");
    assert_eq!(entries[1].0, "a");
    assert_eq!(marker(&entries[0].1.handle().unwrap()), 5);
    assert_eq!(marker(&entries[1].1.handle().unwrap()), 6);
    let wrong = vec![("a".to_string(), marked(1).object)];
    assert!(matches!(read_named(wrong, &Shape::Index), Err(Unread::Mismatch)));
}

#[test]
fn list_reply_keeps_every_item() {
    let h = ParameterHandler {
        handle: namespace(vec![(
            "parameters",
            Value::List(vec![
                Value::Object(marked(10)),
                Value::Object(marked(20)),
                Value::Object(marked(30)),
            ]),
        )]),
    };
    let ps = h.parameters().unwrap();
    let markers: Vec<usize> = ps.iter().map(|p| marker(&p.handle)).collect();
    assert_eq!(markers, vec![10, 20, 30]);
}

fn member_of(module: &str, name: &str) -> Handle {
    Call {
        facade: "Test".to_string(),
        root: Root::Module(module.to_string()),
        path: vec![name.to_string()],
        op: Op::Read,
    }
    .fetch_handle()
    .unwrap()
}

#[test]
fn unique_molecules_walks_a_reply_that_is_no_sequence() {
    let molecules = Value::List(vec![Value::Object(marked(1)), Value::Object(marked(2))]);
    let walk = Call::module(
        "Test",
        "functools",
        "partial",
        vec![Value::Object(member_of("builtins", "iter")), molecules],
        Vec::new(),
    )
    .fetch_handle()
    .unwrap();
    let top = Topology { handle: namespace(vec![("unique_molecules", Value::Object(walk))]) };
    let found = top.unique_molecules().unwrap();
    let markers: Vec<usize> = found.iter().map(|m| marker(&m.handle)).collect();
    assert_eq!(markers, vec![1, 2]);
}

#[test]
fn unique_molecules_of_what_cannot_be_walked_is_a_conversion_error() {
    let answer = Call::module(
        "Test",
        "functools",
        "partial",
        vec![Value::Object(member_of("builtins", "int")), Value::Index(5)],
        Vec::new(),
    )
    .fetch_handle()
    .unwrap();
    let top = Topology { handle: namespace(vec![("unique_molecules", Value::Object(answer))]) };
    let err = top.unique_molecules().unwrap_err();
    assert_eq!(err.kind, ErrorKind::Conversion);
    assert_eq!(err.facade, "Topology");
    assert_eq!(err.member, "unique_molecules");
    assert!(err.message.contains("not iterable"));
}

#[test]
fn unique_molecules_reports_a_step_at_which_the_runtime_raises() {
    let texts = Value::List(vec![text("1"), text("x"), text("3")]);
    let walk = Call::module(
        "Test",
        "functools",
        "partial",
        vec![
            Value::Object(member_of("builtins", "map")),
            Value::Object(member_of("builtins", "int")),
            texts,
        ],
        Vec::new(),
    )
    .fetch_handle()
    .unwrap();
    let top = Topology { handle: namespace(vec![("unique_molecules", Value::Object(walk))]) };
    let err = top.unique_molecules().unwrap_err();
    assert_eq!(err.kind, ErrorKind::External);
    assert_eq!(err.facade, "Topology");
    assert_eq!(err.member, "unique_molecules");
    assert!(err.message.contains("invalid literal"));
}

#[test]
fn a_step_keeps_every_object_and_passes_nothing_over() {
    let first = marked(1).object;
    let second = marked(2).object;
    let (listed, more) = walk_step(Vec::new(), Some(Ok(first))).unwrap();
    assert!(more);
    assert_eq!(listed.len(), 1);
    let (listed, more) = walk_step(listed, Some(Ok(second))).unwrap();
    assert!(more);
    assert_eq!(listed.len(), 2);
    assert_eq!(marker(&Handle { object: listed[0].clone() }), 1);
    assert_eq!(marker(&Handle { object: listed[1].clone() }), 2);
    let (done, more) = walk_step(listed, None).unwrap();
    assert!(!more);
    assert_eq!(done.len(), 2);
    let raised = pyo3::exceptions::PyValueError::new_err("boom");
    let err = walk_step(done, Some(Err(raised))).unwrap_err();
    assert!(err.to_string().contains("boom"));
}

#[test]
fn reading_the_root_object_gives_that_object() {
    let h = marked(77);
    let call = Call {
        facade: "Test".to_string(),
        root: Root::Object(h.share()),
        path: Vec::new(),
        op: Op::Read,
    };
    let back = call.fetch_handle().unwrap();
    assert!(back.object.is(&h.object));
    assert_eq!(marker(&back), 77);
}

#[test]
fn a_cloned_entry_refers_to_the_same_record() {
    let e = entry(5);
    let copy = e.clone();
    assert!(copy.handle.object.is(&e.handle.object));
    assert_eq!(copy.record_id().unwrap(), 5);
    let h = e.handle.clone();
    assert!(h.object.is(&e.handle.object));
}

#[test]
fn repeated_dataset_name_is_refused_before_the_runtime_is_asked() {
    let mut collection = OptimizationResultCollection {
        handle: namespace(vec![("entries", Value::Dict(Vec::new()))]),
    };
    let given = vec![
        ("one".to_string(), vec![entry(1)]),
        ("two".to_string(), vec![entry(2)]),
        ("one".to_string(), vec![entry(3)]),
    ];
    let err = collection.set_entries(given).unwrap_err();
    assert_eq!(err.kind, ErrorKind::Conversion);
    assert_eq!(err.facade, "OptimizationResultCollection");
    assert_eq!(err.member, "entries");
    assert_eq!(err.message, "a dataset name occurs twice");
    assert!(collection.entries().unwrap().is_empty());
}

#[test]
fn to_topology_gives_the_molecule_up() {
    let top = namespace(vec![("n_molecules", Value::Index(1))]);
    let make = Call::module(
        "Test",
        "functools",
        "partial",
        vec![Value::Object(member_of("copy", "copy")), Value::Object(top)],
        Vec::new(),
    )
    .fetch_handle()
    .unwrap();
    let mol = Molecule { handle: namespace(vec![("to_topology", Value::Object(make))]) };
    let top = mol.to_topology().unwrap();
    assert_eq!(top.n_molecules().unwrap(), 1);
}
