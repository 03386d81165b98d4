use openff_bindings::error::{BindingError, ErrorKind};
use openff_bindings::filters::{
    run, ConformerRMSDFilter, ElementFilter, Filter, RecordStatusFilter,
};
use openff_bindings::forward::{Call, Op, Root};
use openff_bindings::results::OptimizationResultCollection;
use openff_bindings::value::{Handle, Shape, Value};

fn member(module: &str, name: &str) -> Handle {
    let call = Call {
        facade: "Test".to_string(),
        root: Root::Module(module.to_string()),
        path: vec![name.to_string()],
        op: Op::Read,
    };
    call.fetch_handle().unwrap()
}

fn with_apply(callable: Handle) -> Handle {
    let kwargs = vec![("apply".to_string(), Value::Object(callable))];
    Call::module("Test", "types", "SimpleNamespace", Vec::new(), kwargs).fetch_handle().unwrap()
}

fn first_two() -> Handle {
    let slice = Call::module(
        "Test",
        "builtins",
        "slice",
        vec![Value::Index(0), Value::Index(2)],
        Vec::new(),
    )
    .fetch_handle()
    .unwrap();
    Call::module("Test", "operator", "itemgetter", vec![Value::Object(slice)], Vec::new())
        .fetch_handle()
        .unwrap()
}

fn dataset(numbers: &[usize]) -> OptimizationResultCollection {
    let items = numbers.iter().map(|n| Value::Index(*n)).collect();
    let handle = Call::module("Test", "builtins", "list", vec![Value::List(items)], Vec::new())
        .fetch_handle()
        .unwrap();
    OptimizationResultCollection { handle }
}

fn numbers(collection: &OptimizationResultCollection) -> Vec<usize> {
    let call = Call {
        facade: "Test".to_string(),
        root: Root::Object(collection.handle.share()),
        path: Vec::new(),
        op: Op::Read,
    };
    match call.invoke(&Shape::List(Box::new(Shape::Index))).unwrap() {
        Value::List(items) => items.iter().map(|v| v.index().unwrap()).collect(),
        _ => panic!("not a list"),
    }
}

#[test]
fn filters_run_from_left_to_right() {
    let sort = ElementFilter { handle: with_apply(member("builtins", "sorted")) };
    let cut = ConformerRMSDFilter { handle: with_apply(first_two()) };
    let filters: Vec<Box<dyn Filter<OptimizationResultCollection>>> =
        vec![Box::new(sort), Box::new(cut)];
    let out = dataset(&[3, 1, 2]).filter(&filters).unwrap();
    assert_eq!(numbers(&out), vec![1, 2]);
}

#[test]
fn order_of_filters_changes_the_result() {
    let sort_then_cut: Vec<Box<dyn Filter<OptimizationResultCollection>>> = vec![
        Box::new(ElementFilter { handle: with_apply(member("builtins", "sorted")) }),
        Box::new(ConformerRMSDFilter { handle: with_apply(first_two()) }),
    ];
    let cut_then_sort: Vec<Box<dyn Filter<OptimizationResultCollection>>> = vec![
        Box::new(ConformerRMSDFilter { handle: with_apply(first_two()) }),
        Box::new(ElementFilter { handle: with_apply(member("builtins", "sorted")) }),
    ];
    let a = numbers(&dataset(&[3, 1, 2]).filter(&sort_then_cut).unwrap());
    let b = numbers(&dataset(&[3, 1, 2]).filter(&cut_then_sort).unwrap());
    assert_eq!(a, vec![1, 2]);
    assert_eq!(b, vec![1, 3]);
    assert_ne!(a, b);
}

#[test]
fn empty_pipeline_returns_the_dataset() {
    let filters: Vec<Box<dyn Filter<OptimizationResultCollection>>> = Vec::new();
    let out = dataset(&[5, 4]).filter(&filters).unwrap();
    assert_eq!(numbers(&out), vec![5, 4]);
}

struct CountingFilter {
    calls: std::cell::Cell<usize>,
}

impl Filter<OptimizationResultCollection> for CountingFilter {
    fn apply(
        &self,
        dataset: OptimizationResultCollection,
    ) -> Result<OptimizationResultCollection, BindingError> {
        self.calls.set(self.calls.get() + 1);
        Ok(dataset)
    }
}

struct SharedCounter(std::rc::Rc<CountingFilter>);

impl Filter<OptimizationResultCollection> for SharedCounter {
    fn apply(
        &self,
        dataset: OptimizationResultCollection,
    ) -> Result<OptimizationResultCollection, BindingError> {
        self.0.apply(dataset)
    }
}

#[test]
fn first_failure_ends_the_run() {
    let counter = std::rc::Rc::new(CountingFilter { calls: std::cell::Cell::new(0) });
    let failing = RecordStatusFilter { handle: with_apply(member("builtins", "int")) };
    let filters: Vec<Box<dyn Filter<OptimizationResultCollection>>> = vec![
        Box::new(SharedCounter(counter.clone())),
        Box::new(failing),
        Box::new(SharedCounter(counter.clone())),
    ];
    let err = run(dataset(&[1]), &filters).unwrap_err();
    assert_eq!(err.kind, ErrorKind::External);
    assert_eq!(err.facade, "RecordStatusFilter");
    assert_eq!(err.member, "apply");
    assert_eq!(counter.calls.get(), 1);
}

#[test]
fn filter_without_apply_is_a_missing_method() {
    let broken = ElementFilter { handle: member("builtins", "None") };
    let filters: Vec<Box<dyn Filter<OptimizationResultCollection>>> = vec![Box::new(broken)];
    let err = dataset(&[1]).filter(&filters).unwrap_err();
    assert_eq!(err.kind, ErrorKind::NoSuchMethod);
    assert_eq!(err.facade, "ElementFilter");
}

struct PassThrough;

impl Filter<OptimizationResultCollection> for PassThrough {
    fn apply(
        &self,
        dataset: OptimizationResultCollection,
    ) -> Result<OptimizationResultCollection, BindingError> {
        Ok(dataset)
    }
}

#[test]
fn user_defined_filter_takes_part_in_a_pipeline() {
    let filters: Vec<Box<dyn Filter<OptimizationResultCollection>>> = vec![
        Box::new(PassThrough),
        Box::new(ConformerRMSDFilter { handle: with_apply(first_two()) }),
        Box::new(PassThrough),
    ];
    let out = dataset(&[9, 8, 7]).filter(&filters).unwrap();
    assert_eq!(numbers(&out), vec![9, 8]);
}
