use openff_bindings::error::{classify, BindingError, ErrorKind, Stage};
use openff_bindings::filters::{apply_call, filter_call};
use openff_bindings::forcefield::available_force_fields_call;
use openff_bindings::forward::{Call, Op, Root};
use openff_bindings::portal::PortalClient;
use openff_bindings::results::{
    as_texts, from_server_call, json_call, names_are_distinct, parse_file_call,
    set_entries_call, Entry,
};
use openff_bindings::units::{defaults_path_call, registry_call};
use openff_bindings::value::{Handle, Value};

fn object() -> Handle {
    Call::module("Test", "types", "SimpleNamespace", Vec::new(), Vec::new()).fetch_handle().unwrap()
}

fn kwargs_of(call: &Call) -> &Vec<(String, Value)> {
    match &call.op {
        Op::Invoke { kwargs, .. } => kwargs,
        _ => panic!("not an invocation"),
    }
}

#[test]
fn every_stage_has_its_kind() {
    assert_eq!(classify(Stage::Import, false), ErrorKind::Startup);
    assert_eq!(classify(Stage::Import, true), ErrorKind::Startup);
    assert_eq!(classify(Stage::Lookup, true), ErrorKind::NoSuchAttribute);
    assert_eq!(classify(Stage::Lookup, false), ErrorKind::External);
    assert_eq!(classify(Stage::MethodLookup, true), ErrorKind::NoSuchMethod);
    assert_eq!(classify(Stage::MethodLookup, false), ErrorKind::External);
    assert_eq!(classify(Stage::Marshal, false), ErrorKind::Conversion);
    assert_eq!(classify(Stage::Assign, true), ErrorKind::NoSuchAttribute);
    assert_eq!(classify(Stage::Assign, false), ErrorKind::Conversion);
    assert_eq!(classify(Stage::Invoke, true), ErrorKind::External);
    assert_eq!(classify(Stage::Extract, false), ErrorKind::Conversion);
    assert_eq!(classify(Stage::Iterate, false), ErrorKind::Conversion);
    assert_eq!(classify(Stage::Iterate, true), ErrorKind::Conversion);
    assert_eq!(classify(Stage::Step, false), ErrorKind::External);
    assert_eq!(classify(Stage::Step, true), ErrorKind::External);
}

#[test]
fn error_holds_what_it_was_given() {
    let e = BindingError::new(ErrorKind::External, "ForceField", "load", "boom".to_string());
    assert_eq!(e.kind(), ErrorKind::External);
    assert!(e.is(ErrorKind::External));
    assert!(!e.is(ErrorKind::Startup));
    assert_eq!(e.facade, "ForceField");
    assert_eq!(e.member, "load");
    assert_eq!(e.message, "boom");
}

#[test]
fn description_names_kind_facade_and_member() {
    let e = BindingError::new(ErrorKind::External, "ForceField", "load", "boom".to_string());
    assert_eq!(e.describe(), "external error: ForceField.load: boom");
    let e = BindingError::new(ErrorKind::Conversion, "Topology", "n_molecules", String::new());
    assert_eq!(e.describe(), "conversion error: Topology.n_molecules");
    assert_eq!(ErrorKind::NoSuchAttribute.name(), "no such attribute");
    assert_eq!(ErrorKind::NoSuchMethod.name(), "no such method");
    assert_eq!(ErrorKind::Startup.name(), "startup error");
}

#[test]
fn member_of_a_request() {
    let h = object();
    assert_eq!(Call::get("T", &h, "name").member(), "name");
    assert_eq!(Call::set("T", &h, "name", Value::Nothing).member(), "name");
    assert_eq!(Call::nested("T", &h, "parameters", "clear").member(), "clear");
    assert_eq!(Call::class("T", "m", "C", "from_x", Vec::new(), Vec::new()).member(), "from_x");
    let bare = Call {
        facade: "T".to_string(),
        root: Root::Module("m.n".to_string()),
        path: Vec::new(),
        op: Op::Read,
    };
    assert_eq!(bare.member(), "m.n");
    assert!(!bare.is_invocation());
}

#[test]
fn assignment_to_a_read_only_object_is_rejected() {
    let none = Call {
        facade: "T".to_string(),
        root: Root::Module("builtins".to_string()),
        path: vec!["None".to_string()],
        op: Op::Read,
    }
    .fetch_handle()
    .unwrap();
    let err = Call::set("ForceField", &none, "author", Value::Index(1)).fetch_unit().unwrap_err();
    assert_eq!(err.kind, ErrorKind::NoSuchAttribute);
    assert_eq!(err.facade, "ForceField");
    assert_eq!(err.member, "author");
}

#[test]
fn from_server_names_its_three_arguments() {
    let client = PortalClient { handle: object() };
    let datasets = vec!["OpenFF multiplicity correction optimization set v1.0"];
    let call = from_server_call("OptimizationResultCollection", client, &datasets, "default");
    assert_eq!(call.facade, "OptimizationResultCollection");
    assert!(matches!(&call.root, Root::Module(m) if m == "openff.qcsubmit.results"));
    assert_eq!(
        call.path,
        vec!["OptimizationResultCollection".to_string(), "from_server".to_string()]
    );
    let kwargs = kwargs_of(&call);
    assert_eq!(kwargs.len(), 3);
    assert_eq!(kwargs[0].0, "client");
    assert!(kwargs[0].1.handle().is_some());
    assert_eq!(kwargs[1].0, "datasets");
    assert_eq!(
        kwargs[1].1.texts().unwrap(),
        vec!["OpenFF multiplicity correction optimization set v1.0".to_string()]
    );
    assert_eq!(kwargs[2].0, "spec_name");
    assert_eq!(kwargs[2].1.text().unwrap(), "default");
}

#[test]
fn json_names_the_indent() {
    let h = object();
    let call = json_call("TorsionDriveResultCollection", &h, 2);
    assert_eq!(call.path, vec!["json".to_string()]);
    let kwargs = kwargs_of(&call);
    assert_eq!(kwargs[0].0, "indent");
    assert_eq!(kwargs[0].1.index(), Some(2));
}

#[test]
fn parse_file_is_a_method_of_the_class() {
    let call = parse_file_call("OptimizationResultCollection", "testfiles/download_opt_want.json");
    assert_eq!(
        call.path,
        vec!["OptimizationResultCollection".to_string(), "parse_file".to_string()]
    );
    match &call.op {
        Op::Invoke { args, .. } => {
            assert_eq!(args[0].text().unwrap(), "testfiles/download_opt_want.json")
        }
        _ => panic!("not an invocation"),
    }
}

#[test]
fn set_entries_assigns_one_mapping() {
    let h = object();
    let entries = vec![("ds".to_string(), vec![Entry { handle: object() }])];
    let call = set_entries_call("OptimizationResultCollection", &h, &entries);
    match &call.op {
        Op::Write { name, value } => {
            assert_eq!(name, "entries");
            match value {
                Value::Dict(items) => {
                    assert_eq!(items.len(), 1);
                    assert_eq!(items[0].0, "ds");
                    assert_eq!(items[0].1.handles().unwrap().len(), 1);
                }
                _ => panic!("not a mapping"),
            }
        }
        _ => panic!("not an assignment"),
    }
}

#[test]
fn filter_constructor_names_its_argument() {
    let call = filter_call("ConformerRMSDFilter", "max_conformers", Value::Index(12));
    assert_eq!(call.facade, "ConformerRMSDFilter");
    assert!(matches!(&call.root, Root::Module(m) if m == "openff.qcsubmit.results.filters"));
    assert_eq!(call.path, vec!["ConformerRMSDFilter".to_string()]);
    let kwargs = kwargs_of(&call);
    assert_eq!(kwargs[0].0, "max_conformers");
    assert_eq!(kwargs[0].1.index(), Some(12));
    let elements = vec!["H", "C", "N", "O", "S", "P", "F", "Cl", "Br"];
    let call = filter_call("ElementFilter", "allowed_elements", as_texts(&elements));
    assert_eq!(kwargs_of(&call)[0].1.texts().unwrap().len(), 9);
    let call = filter_call("ConnectivityFilter", "tolerance", Value::Real("1.2".to_string()));
    assert!(matches!(&kwargs_of(&call)[0].1, Value::Real(s) if s == "1.2"));
}

#[test]
fn apply_hands_the_dataset_to_the_filter() {
    let filter = object();
    let dataset = object();
    let call = apply_call("ElementFilter", &filter, &dataset);
    assert_eq!(call.path, vec!["apply".to_string()]);
    match &call.op {
        Op::Invoke { args, kwargs } => {
            assert_eq!(args.len(), 1);
            assert!(args[0].handle().is_some());
            assert!(kwargs.is_empty());
        }
        _ => panic!("not an invocation"),
    }
}

#[test]
fn module_level_requests() {
    let call = available_force_fields_call();
    assert_eq!(call.path, vec!["get_available_force_fields".to_string()]);
    let call = defaults_path_call();
    assert!(matches!(&call.root, Root::Module(m) if m == "openff.units.units"));
    assert_eq!(call.path, vec!["get_defaults_path".to_string()]);
    let call = registry_call("/some/defaults.txt".to_string());
    assert_eq!(call.path, vec!["UnitRegistry".to_string()]);
    match &call.op {
        Op::Invoke { args, .. } => assert_eq!(args[0].text().unwrap(), "/some/defaults.txt"),
        _ => panic!("not an invocation"),
    }
}

#[test]
fn distinct_names_are_told_from_repeated_ones() {
    let name = |s: &str| (s.to_string(), Vec::<Entry>::new());
    assert!(names_are_distinct(&Vec::new()));
    assert!(names_are_distinct(&vec![name("a")]));
    assert!(names_are_distinct(&vec![name("a"), name("b"), name("c")]));
    assert!(!names_are_distinct(&vec![name("a"), name("b"), name("a")]));
    assert!(!names_are_distinct(&vec![name("a"), name("a")]));
    assert!(names_are_distinct(&vec![name("a"), name("A")]));
}
