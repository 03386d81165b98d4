use openff_bindings::error::ErrorKind;
use openff_bindings::forward::{Call, Op, Root};
use openff_bindings::value::{Handle, Shape, Value};

fn namespace(fields: Vec<(&str, Value)>) -> Handle {
    let kwargs = fields.into_iter().map(|(k, v)| (k.to_string(), v)).collect();
    let call = Call::module("Test", "types", "SimpleNamespace", Vec::new(), kwargs);
    call.fetch_handle().unwrap()
}

#[test]
fn read_attribute_of_each_plain_shape() {
    let ns = namespace(vec![
        ("count", Value::Index(7)),
        ("charge", Value::Int(-2)),
        ("name", Value::Text("ethanol".to_string())),
        ("flag", Value::Bool(true)),
        ("names", Value::List(vec![Value::Text("a".to_string()), Value::Text("b".to_string())])),
    ]);
    assert_eq!(Call::get("Test", &ns, "count").fetch_index().unwrap(), 7);
    assert_eq!(Call::get("Test", &ns, "name").fetch_text().unwrap(), "ethanol");
    assert_eq!(
        Call::get("Test", &ns, "names").fetch_texts().unwrap(),
        vec!["a".to_string(), "b".to_string()]
    );
    let charge = Call::get("Test", &ns, "charge").invoke(&Shape::Int).unwrap();
    assert_eq!(charge.integer(), Some(-2));
    let flag = Call::get("Test", &ns, "flag").invoke(&Shape::Bool).unwrap();
    assert_eq!(flag.truth(), Some(true));
}

#[test]
fn missing_attribute_is_reported_with_facade_and_member() {
    let ns = namespace(vec![]);
    let err = Call::get("Molecule", &ns, "n_atoms").fetch_index().unwrap_err();
    assert_eq!(err.kind, ErrorKind::NoSuchAttribute);
    assert_eq!(err.facade, "Molecule");
    assert_eq!(err.member, "n_atoms");
    assert!(err.message.contains("n_atoms"));
}

#[test]
fn missing_method_is_reported_as_such() {
    let ns = namespace(vec![]);
    let err = Call::method("Molecule", &ns, "add_atom", Vec::new(), Vec::new())
        .fetch_index()
        .unwrap_err();
    assert_eq!(err.kind, ErrorKind::NoSuchMethod);
    assert_eq!(err.member, "add_atom");
}

#[test]
fn wrong_shape_is_a_conversion_error() {
    let ns = namespace(vec![("names", Value::List(vec![Value::Index(1)]))]);
    let err = Call::get("ForceField", &ns, "names").fetch_text().unwrap_err();
    assert_eq!(err.kind, ErrorKind::Conversion);
    assert_eq!(err.facade, "ForceField");
    assert_eq!(err.member, "names");
    let err = Call::get("ForceField", &ns, "names").fetch_texts().unwrap_err();
    assert_eq!(err.kind, ErrorKind::Conversion);
}

#[test]
fn unknown_module_is_a_startup_error() {
    let call = Call::module("Molecule", "no.such.module.anywhere", "Molecule", Vec::new(), Vec::new());
    let err = call.fetch_handle().unwrap_err();
    assert_eq!(err.kind, ErrorKind::Startup);
    assert_eq!(err.member, "no.such.module.anywhere");
}

#[test]
fn raised_error_carries_the_message() {
    let call = Call::module(
        "Test",
        "builtins",
        "int",
        vec![Value::Text("not a number".to_string())],
        Vec::new(),
    );
    let err = call.fetch_index().unwrap_err();
    assert_eq!(err.kind, ErrorKind::External);
    assert_eq!(err.member, "int");
    assert!(err.message.contains("not a number"));
}

#[test]
fn set_then_get_returns_what_was_set() {
    let ns = namespace(vec![("author", Value::Text("nobody".to_string()))]);
    Call::set("ForceField", &ns, "author", Value::Text("somebody".to_string()))
        .fetch_unit()
        .unwrap();
    assert_eq!(Call::get("ForceField", &ns, "author").fetch_text().unwrap(), "somebody");
}

#[test]
fn real_numbers_travel_as_decimal_literals() {
    let call = Call::module(
        "Test",
        "builtins",
        "round",
        vec![Value::Real("2.6".to_string())],
        Vec::new(),
    );
    assert_eq!(call.fetch_index().unwrap(), 3);
    let bad = Call::module(
        "Test",
        "builtins",
        "round",
        vec![Value::Real("two".to_string())],
        Vec::new(),
    );
    let err = bad.fetch_index().unwrap_err();
    assert_eq!(err.kind, ErrorKind::Conversion);
}

#[test]
fn keyword_arguments_reach_the_callee() {
    let call = Call::module(
        "Test",
        "builtins",
        "int",
        vec![Value::Text("ff".to_string())],
        vec![("base".to_string(), Value::Index(16))],
    );
    assert_eq!(call.fetch_index().unwrap(), 255);
}

#[test]
fn nested_method_is_invoked_on_the_attribute() {
    let ns = namespace(vec![("parameters", Value::List(vec![Value::Index(1), Value::Index(2)]))]);
    Call::nested("ParameterHandler", &ns, "parameters", "clear").fetch_unit().unwrap();
    let left = Call::get("ParameterHandler", &ns, "parameters").fetch_handles().unwrap();
    assert!(left.is_empty());
}

#[test]
fn request_fields_are_what_the_constructor_was_given() {
    let ns = namespace(vec![]);
    let call = Call::method(
        "Molecule",
        &ns,
        "add_atom",
        vec![Value::Index(6)],
        vec![("x".to_string(), Value::Bool(false))],
    );
    assert_eq!(call.facade, "Molecule");
    assert_eq!(call.path, vec!["add_atom".to_string()]);
    assert_eq!(call.member(), "add_atom");
    assert!(call.is_invocation());
    assert!(matches!(call.root, Root::Object(_)));
    match call.op {
        Op::Invoke { args, kwargs } => {
            assert_eq!(args.len(), 1);
            assert_eq!(args[0].index(), Some(6));
            assert_eq!(kwargs[0].0, "x");
            assert_eq!(kwargs[0].1.truth(), Some(false));
        }
        _ => panic!("not an invocation"),
    }
}
