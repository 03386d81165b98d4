//! Filters over result collections, and the pipeline that applies a list of
//! them in order.

use vstd::prelude::*;
use crate::error::{BindingError, ErrorModel};
use crate::facade::{wrapped, Facade};
use crate::forward::{method_request, module_request, Call, CallModel};
use crate::portal::RecordStatus;
use crate::reply::plain;
use crate::results::{as_texts, texts_value, BaseResultCollection};
use crate::value::{Handle, Value, ValueModel};

verus! {

/// A transformation of a dataset that may fail.
pub trait Filter<T: BaseResultCollection> {
    /// Whether applying the filter to `input` can give `output`. A filter
    /// that does not say otherwise can give anything.
    open spec fn applies(&self, input: T, output: Result<T, BindingError>) -> bool {
        true
    }

    /// Applies the filter: takes the dataset and hands back the dataset that
    /// results, which may be another one.
    fn apply(&self, dataset: T) -> (r: Result<T, BindingError>)
        ensures
            self.applies(dataset, r),
    ;
}

/// Whether the `i`-th of `filters` can turn what a run gave so far into
/// `output`: a dataset goes through the filter, an error stays as it is.
pub open spec fn step<T: BaseResultCollection>(
    filters: Seq<Box<dyn Filter<T>>>,
    i: int,
    before: Result<T, BindingError>,
    output: Result<T, BindingError>,
) -> bool {
    match before {
        Ok(dataset) => filters[i].applies(dataset, output),
        Err(e) => output == Err::<T, BindingError>(e),
    }
}

/// Whether applying `filters` from left to right to `input` can give
/// `output`: each filter gets what the one before it gave, the first error
/// ends the run and is the output, and no filter runs after it.
pub open spec fn chain<T: BaseResultCollection>(
    filters: Seq<Box<dyn Filter<T>>>,
    input: T,
    output: Result<T, BindingError>,
) -> bool
    decreases filters.len(),
{
    if filters.len() == 0 {
        output == Ok::<T, BindingError>(input)
    } else {
        exists|before: Result<T, BindingError>|
            #![trigger step(filters, filters.len() - 1, before, output)]
            chain(filters.drop_last(), input, before) && step(
                filters,
                filters.len() - 1,
                before,
                output,
            )
    }
}

/// Once a run has ended in an error, more filters change nothing.
pub proof fn chain_keeps_error<T: BaseResultCollection>(
    filters: Seq<Box<dyn Filter<T>>>,
    n: int,
    input: T,
    e: BindingError,
)
    requires
        0 <= n <= filters.len(),
        chain(filters.take(n), input, Err(e)),
    ensures
        chain(filters, input, Err(e)),
    decreases filters.len() - n,
{
    if n == filters.len() {
        assert(filters.take(n) =~= filters);
    } else {
        let longer = filters.take(n + 1);
        assert(longer.drop_last() =~= filters.take(n));
        assert(step(longer, longer.len() - 1, Err(e), Err(e)));
        assert(chain(longer, input, Err(e)));
        chain_keeps_error(filters, n + 1, input, e);
    }
}

/// Whether `filters`, run on what an earlier run gave, can give `output`: a
/// dataset goes through them, an error stays as it is.
pub open spec fn continues<T: BaseResultCollection>(
    filters: Seq<Box<dyn Filter<T>>>,
    before: Result<T, BindingError>,
    output: Result<T, BindingError>,
) -> bool {
    match before {
        Ok(dataset) => chain(filters, dataset, output),
        Err(e) => output == Err::<T, BindingError>(e),
    }
}

/// Running one list of filters is running any front part of it and then
/// the rest on what the front part gave: the pipeline applies its filters
/// strictly in the order of the list, so the outcome of `first + rest` is
/// decided by the order in which the two parts stand.
pub proof fn chain_split<T: BaseResultCollection>(
    first: Seq<Box<dyn Filter<T>>>,
    rest: Seq<Box<dyn Filter<T>>>,
    input: T,
    output: Result<T, BindingError>,
)
    ensures
        chain(first + rest, input, output) <==> exists|between: Result<T, BindingError>| #[trigger]
            continues(rest, between, output) && chain(first, input, between),
    decreases rest.len(),
{
    let all = first + rest;
    if rest.len() == 0 {
        assert(all =~= first);
        if chain(first, input, output) {
            assert(continues(rest, output, output));
        }
    } else {
        let shorter = rest.drop_last();
        let last = rest.len() - 1;
        assert(all.drop_last() =~= first + shorter);
        assert(all[all.len() - 1] == rest[last]);
        assert forall|before: Result<T, BindingError>|
            step(all, all.len() - 1, before, output) == step(rest, last, before, output) by {}
        if chain(all, input, output) {
            let before = choose|before: Result<T, BindingError>|
                chain(all.drop_last(), input, before) && #[trigger] step(
                    all,
                    all.len() - 1,
                    before,
                    output,
                );
            chain_split(first, shorter, input, before);
            let between = choose|between: Result<T, BindingError>| #[trigger]
                continues(shorter, between, before) && chain(first, input, between);
            assert(step(rest, last, before, output));
            match between {
                Ok(dataset) => {
                    assert(chain(rest, dataset, output));
                },
                Err(e) => {},
            }
            assert(continues(rest, between, output));
        }
        if exists|between: Result<T, BindingError>| #[trigger]
            continues(rest, between, output) && chain(first, input, between) {
            let between = choose|between: Result<T, BindingError>| #[trigger]
                continues(rest, between, output) && chain(first, input, between);
            match between {
                Ok(dataset) => {
                    let before = choose|before: Result<T, BindingError>|
                        chain(rest.drop_last(), dataset, before) && #[trigger] step(
                            rest,
                            rest.len() - 1,
                            before,
                            output,
                        );
                    assert(continues(shorter, between, before));
                    chain_split(first, shorter, input, before);
                    assert(chain(all.drop_last(), input, before));
                    assert(step(all, all.len() - 1, before, output));
                },
                Err(e) => {
                    assert(continues(shorter, between, Err(e)));
                    chain_split(first, shorter, input, Err(e));
                    assert(chain(all.drop_last(), input, Err(e)));
                    assert(step(all, all.len() - 1, Err(e), output));
                },
            }
            assert(chain(all, input, output));
        }
    }
}

/// Applies the filters to the dataset from left to right. The first filter
/// that fails ends the run: its error is returned and no partial result.
pub fn run<T: BaseResultCollection>(dataset: T, filters: &[Box<dyn Filter<T>>]) -> (r: Result<T, BindingError>)
    ensures
        chain(filters@, dataset, r),
{
    let mut current = dataset;
    let mut i: usize = 0;
    assert(filters@.take(0) =~= Seq::empty());
    while i < filters.len()
        invariant
            i <= filters.len(),
            chain(filters@.take(i as int), dataset, Ok(current)),
        decreases filters.len() - i,
    {
        let ghost before = current;
        let next = filters[i].apply(current);
        proof {
            let longer = filters@.take(i + 1);
            assert(longer.drop_last() =~= filters@.take(i as int));
            assert(longer[i as int] == filters@[i as int]);
            assert(step(longer, longer.len() - 1, Ok(before), next));
            assert(chain(longer, dataset, next));
        }
        match next {
            Ok(d) => {
                current = d;
            },
            Err(e) => {
                proof {
                    chain_keeps_error(filters@, i + 1, dataset, e);
                }
                return Err(e);
            },
        }
        i = i + 1;
    }
    assert(filters@.take(i as int) =~= filters@);
    Ok(current)
}

/// The module that provides the filters of the results package.
pub const FILTERS_MODULE: &'static str = "openff.qcsubmit.results.filters";

/// The request that applies the filter behind `filter` to the dataset behind
/// `dataset`.
pub open spec fn apply_request(facade: Seq<char>, filter: Handle, dataset: Handle) -> CallModel {
    method_request(facade, filter, "apply"@, seq![ValueModel::Object(dataset)], seq![])
}

/// Builds the request that applies the filter behind `filter` to the
/// dataset behind `dataset`.
pub fn apply_call(facade: &str, filter: &Handle, dataset: &Handle) -> (c: Call)
    ensures
        c@ == apply_request(facade@, *filter, *dataset),
{
    let mut args: Vec<Value> = Vec::new();
    args.push(Value::Object(dataset.share()));
    let c = Call::method(facade, filter, "apply", args, Vec::new());
    assert(c@.op->Invoke_args =~= seq![ValueModel::Object(*dataset)]);
    assert(c@.op->Invoke_kwargs =~= seq![]);
    c
}

/// The request that makes a filter of the class `class` with one named
/// argument.
pub open spec fn filter_request(class: Seq<char>, name: Seq<char>, value: ValueModel) -> CallModel {
    module_request(class, FILTERS_MODULE@, class, seq![], seq![(name, value)])
}

/// Builds the request that makes a filter of the class `class` with one
/// named argument.
pub fn filter_call(class: &str, name: &str, value: Value) -> (c: Call)
    ensures
        c@ == filter_request(class@, name@, value@),
{
    let mut kwargs: Vec<(String, Value)> = Vec::new();
    kwargs.push((name.to_owned(), value));
    let c = Call::module(class, FILTERS_MODULE, class, Vec::new(), kwargs);
    assert(c@.op->Invoke_args =~= seq![]);
    assert(c@.op->Invoke_kwargs =~= seq![(name@, value@)]);
    c
}

/// Keeps at most a given number of conformers of each molecule, chosen by
/// their distance from one another.
#[derive(Debug)]
pub struct ConformerRMSDFilter {
    pub handle: Handle,
}

impl Facade for ConformerRMSDFilter {
    open spec fn object(&self) -> Handle {
        self.handle
    }

    fn wrap(handle: Handle) -> (s: Self) {
        ConformerRMSDFilter { handle }
    }

    fn handle(&self) -> (h: &Handle) {
        &self.handle
    }
}

impl<T: BaseResultCollection + Facade> Filter<T> for ConformerRMSDFilter {
    open spec fn applies(&self, input: T, output: Result<T, BindingError>) -> bool {
        apply_request("ConformerRMSDFilter"@, self.handle, input.object()).yields_handle(wrapped(output))
    }

    fn apply(&self, dataset: T) -> (r: Result<T, BindingError>) {
        apply_call("ConformerRMSDFilter", &self.handle, dataset.handle()).fetch_object()
    }
}

/// Keeps the entries whose connectivity did not change during the
/// computation, within a tolerance.
#[derive(Debug)]
pub struct ConnectivityFilter {
    pub handle: Handle,
}

impl Facade for ConnectivityFilter {
    open spec fn object(&self) -> Handle {
        self.handle
    }

    fn wrap(handle: Handle) -> (s: Self) {
        ConnectivityFilter { handle }
    }

    fn handle(&self) -> (h: &Handle) {
        &self.handle
    }
}

impl<T: BaseResultCollection + Facade> Filter<T> for ConnectivityFilter {
    open spec fn applies(&self, input: T, output: Result<T, BindingError>) -> bool {
        apply_request("ConnectivityFilter"@, self.handle, input.object()).yields_handle(wrapped(output))
    }

    fn apply(&self, dataset: T) -> (r: Result<T, BindingError>) {
        apply_call("ConnectivityFilter", &self.handle, dataset.handle()).fetch_object()
    }
}

/// Keeps the entries whose molecules consist of allowed elements only.
#[derive(Debug)]
pub struct ElementFilter {
    pub handle: Handle,
}

impl Facade for ElementFilter {
    open spec fn object(&self) -> Handle {
        self.handle
    }

    fn wrap(handle: Handle) -> (s: Self) {
        ElementFilter { handle }
    }

    fn handle(&self) -> (h: &Handle) {
        &self.handle
    }
}

impl<T: BaseResultCollection + Facade> Filter<T> for ElementFilter {
    open spec fn applies(&self, input: T, output: Result<T, BindingError>) -> bool {
        apply_request("ElementFilter"@, self.handle, input.object()).yields_handle(wrapped(output))
    }

    fn apply(&self, dataset: T) -> (r: Result<T, BindingError>) {
        apply_call("ElementFilter", &self.handle, dataset.handle()).fetch_object()
    }
}

/// Keeps the entries whose molecules form no internal hydrogen bond.
#[derive(Debug)]
pub struct HydrogenBondFilter {
    pub handle: Handle,
}

impl Facade for HydrogenBondFilter {
    open spec fn object(&self) -> Handle {
        self.handle
    }

    fn wrap(handle: Handle) -> (s: Self) {
        HydrogenBondFilter { handle }
    }

    fn handle(&self) -> (h: &Handle) {
        &self.handle
    }
}

impl<T: BaseResultCollection + Facade> Filter<T> for HydrogenBondFilter {
    open spec fn applies(&self, input: T, output: Result<T, BindingError>) -> bool {
        apply_request("HydrogenBondFilter"@, self.handle, input.object()).yields_handle(wrapped(output))
    }

    fn apply(&self, dataset: T) -> (r: Result<T, BindingError>) {
        apply_call("HydrogenBondFilter", &self.handle, dataset.handle()).fetch_object()
    }
}

/// Keeps the entries whose record is in a given state.
#[derive(Debug)]
pub struct RecordStatusFilter {
    pub handle: Handle,
}

impl Facade for RecordStatusFilter {
    open spec fn object(&self) -> Handle {
        self.handle
    }

    fn wrap(handle: Handle) -> (s: Self) {
        RecordStatusFilter { handle }
    }

    fn handle(&self) -> (h: &Handle) {
        &self.handle
    }
}

impl<T: BaseResultCollection + Facade> Filter<T> for RecordStatusFilter {
    open spec fn applies(&self, input: T, output: Result<T, BindingError>) -> bool {
        apply_request("RecordStatusFilter"@, self.handle, input.object()).yields_handle(wrapped(output))
    }

    fn apply(&self, dataset: T) -> (r: Result<T, BindingError>) {
        apply_call("RecordStatusFilter", &self.handle, dataset.handle()).fetch_object()
    }
}

/// Keeps the entries whose record passes a test of the runtime.
#[derive(Debug)]
pub struct ResultRecordFilter {
    pub handle: Handle,
}

impl Facade for ResultRecordFilter {
    open spec fn object(&self) -> Handle {
        self.handle
    }

    fn wrap(handle: Handle) -> (s: Self) {
        ResultRecordFilter { handle }
    }

    fn handle(&self) -> (h: &Handle) {
        &self.handle
    }
}

impl<T: BaseResultCollection + Facade> Filter<T> for ResultRecordFilter {
    open spec fn applies(&self, input: T, output: Result<T, BindingError>) -> bool {
        apply_request("ResultRecordFilter"@, self.handle, input.object()).yields_handle(wrapped(output))
    }

    fn apply(&self, dataset: T) -> (r: Result<T, BindingError>) {
        apply_call("ResultRecordFilter", &self.handle, dataset.handle()).fetch_object()
    }
}

/// Keeps the entries whose stereochemistry the runtime can perceive.
#[derive(Debug)]
pub struct UnperceivableStereoFilter {
    pub handle: Handle,
}

impl Facade for UnperceivableStereoFilter {
    open spec fn object(&self) -> Handle {
        self.handle
    }

    fn wrap(handle: Handle) -> (s: Self) {
        UnperceivableStereoFilter { handle }
    }

    fn handle(&self) -> (h: &Handle) {
        &self.handle
    }
}

impl<T: BaseResultCollection + Facade> Filter<T> for UnperceivableStereoFilter {
    open spec fn applies(&self, input: T, output: Result<T, BindingError>) -> bool {
        apply_request("UnperceivableStereoFilter"@, self.handle, input.object()).yields_handle(wrapped(output))
    }

    fn apply(&self, dataset: T) -> (r: Result<T, BindingError>) {
        apply_call("UnperceivableStereoFilter", &self.handle, dataset.handle()).fetch_object()
    }
}

impl ConformerRMSDFilter {
    /// The request that makes the filter.
    pub open spec fn new_request(max_conformers: usize) -> CallModel {
        filter_request(
            "ConformerRMSDFilter"@,
            "max_conformers"@,
            ValueModel::Index(max_conformers as nat),
        )
    }

    /// Makes a filter that keeps at most `max_conformers` conformers of each
    /// molecule.
    pub fn new(max_conformers: usize) -> (r: Result<Self, BindingError>)
        ensures
            Self::new_request(max_conformers).yields_handle(wrapped(r)),
    {
        filter_call(
            "ConformerRMSDFilter",
            "max_conformers",
            Value::Index(max_conformers),
        ).fetch_object()
    }
}

impl ConnectivityFilter {
    /// The request that makes the filter. The tolerance is a decimal
    /// literal.
    pub open spec fn new_request(tolerance: Seq<char>) -> CallModel {
        filter_request("ConnectivityFilter"@, "tolerance"@, ValueModel::Real(tolerance))
    }

    /// Makes a filter with the given tolerance, a decimal literal such as
    /// `"1.2"`.
    pub fn new(tolerance: &str) -> (r: Result<Self, BindingError>)
        ensures
            Self::new_request(tolerance@).yields_handle(wrapped(r)),
    {
        filter_call(
            "ConnectivityFilter",
            "tolerance",
            Value::Real(tolerance.to_owned()),
        ).fetch_object()
    }
}

impl ElementFilter {
    /// The request that makes the filter.
    pub open spec fn new_request(elements: Seq<&str>) -> CallModel {
        filter_request("ElementFilter"@, "allowed_elements"@, texts_value(elements))
    }

    /// Makes a filter that allows the elements of the given symbols.
    pub fn new(elements: Vec<&str>) -> (r: Result<Self, BindingError>)
        ensures
            Self::new_request(elements@).yields_handle(wrapped(r)),
    {
        filter_call("ElementFilter", "allowed_elements", as_texts(&elements)).fetch_object()
    }
}

impl RecordStatusFilter {
    /// The request that makes the filter for the state that `status` stands
    /// for in the runtime.
    pub open spec fn new_request(status: Handle) -> CallModel {
        filter_request("RecordStatusFilter"@, "status"@, ValueModel::Object(status))
    }

    /// What `new` can return: the error of the request for the state's
    /// object, or else what the request for a filter of that object gives.
    pub open spec fn new_outcome(status: RecordStatus, r: Result<Handle, ErrorModel>) -> bool {
        exists|member: Result<Handle, ErrorModel>| #[trigger]
            status.request().yields_handle(member) && match member {
                Ok(h) => Self::new_request(h).yields_handle(r),
                Err(e) => r == Err::<Handle, ErrorModel>(e),
            }
    }

    /// Makes a filter that keeps the entries whose record is in the state
    /// `status`: asks the runtime for the object that stands for the state,
    /// then for a filter of it.
    pub fn new(status: RecordStatus) -> (r: Result<Self, BindingError>)
        ensures
            Self::new_outcome(status, wrapped(r)),
    {
        let member = status.to_object();
        assert(status.request().yields_handle(plain(member)));
        match member {
            Ok(h) => filter_call("RecordStatusFilter", "status", Value::Object(h)).fetch_object(),
            Err(e) => Err(e),
        }
    }
}

impl UnperceivableStereoFilter {
    /// The request that makes the filter.
    pub open spec fn new_request() -> CallModel {
        module_request(
            "UnperceivableStereoFilter"@,
            FILTERS_MODULE@,
            "UnperceivableStereoFilter"@,
            seq![],
            seq![],
        )
    }

    /// Makes the filter.
    pub fn new() -> (r: Result<Self, BindingError>)
        ensures
            Self::new_request().yields_handle(wrapped(r)),
    {
        let c = Call::module(
            "UnperceivableStereoFilter",
            FILTERS_MODULE,
            "UnperceivableStereoFilter",
            Vec::new(),
            Vec::new(),
        );
        assert(c@.op->Invoke_args =~= seq![]);
        assert(c@.op->Invoke_kwargs =~= seq![]);
        c.fetch_object()
    }
}

} // verus!
