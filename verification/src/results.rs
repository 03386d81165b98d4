//! Collections of results of the data archive, and their entries.

use vstd::prelude::*;
use crate::error::{BindingError, ErrorKind, ErrorModel};
use crate::facade::{as_references, objects_of, references, wrap_all, wrapped, Facade};
use crate::filters::{chain, run, Filter};
use crate::forward::{class_request, get_request, method_request, set_request, Call, CallModel};
use crate::portal::PortalClient;
use crate::reply::{plain, viewed};
use crate::value::{named_models, Handle, Shape, Value, ValueModel};

verus! {

/// The module that provides the result collections.
pub const RESULTS_MODULE: &'static str = "openff.qcsubmit.results";

/// One result of a collection: a reference to a record of the archive.
#[derive(Clone, Debug)]
pub struct Entry {
    pub handle: Handle,
}

impl Facade for Entry {
    open spec fn object(&self) -> Handle {
        self.handle
    }

    fn wrap(handle: Handle) -> (s: Self) {
        Entry { handle }
    }

    fn handle(&self) -> (h: &Handle) {
        &self.handle
    }
}

impl Entry {
    /// The request for one of the entry's properties.
    pub open spec fn property_request(self, name: Seq<char>) -> CallModel {
        get_request("Entry"@, self.handle, name)
    }

    /// The id of the record that the entry refers to.
    pub fn record_id(&self) -> (r: Result<usize, BindingError>)
        ensures
            self.property_request("record_id"@).yields_index(plain(r)),
    {
        Call::get("Entry", &self.handle, "record_id").fetch_index()
    }

    /// The canonical SMILES of the entry's molecule.
    pub fn cmiles(&self) -> (r: Result<String, BindingError>)
        ensures
            self.property_request("cmiles"@).yields_text(viewed(r)),
    {
        Call::get("Entry", &self.handle, "cmiles").fetch_text()
    }

    /// The InChI key of the entry's molecule.
    pub fn inchi_key(&self) -> (r: Result<String, BindingError>)
        ensures
            self.property_request("inchi_key"@).yields_text(viewed(r)),
    {
        Call::get("Entry", &self.handle, "inchi_key").fetch_text()
    }

    /// A second entry for the same record.
    pub fn share(&self) -> (e: Entry)
        ensures
            e == *self,
    {
        Entry { handle: self.handle.share() }
    }
}

/// The entries of a collection by dataset: each dataset's name with the
/// objects of its entries, in order.
pub type Groups = Seq<(Seq<char>, Seq<Handle>)>;

/// The content of a mapping from dataset names to lists of entries.
pub open spec fn groups_of(entries: Seq<(String, Vec<Entry>)>) -> Groups {
    Seq::new(entries.len(), |i: int| (entries[i].0@, objects_of(entries[i].1@)))
}

/// The value that hands a mapping from dataset names to lists of entries to
/// the runtime.
pub open spec fn groups_value(groups: Groups) -> ValueModel {
    ValueModel::Dict(Seq::new(groups.len(), |i: int| (groups[i].0, references(groups[i].1))))
}

impl ValueModel {
    /// The mapping from dataset names to lists of entries that the value
    /// holds, if it is one.
    pub open spec fn groups(self) -> Option<Groups> {
        if self is Dict && forall|i: int|
            0 <= i < self->Dict_0.len() ==> (#[trigger] self->Dict_0[i]).1.handles() is Some {
            Some(
                Seq::new(
                    self->Dict_0.len(),
                    |i: int| (self->Dict_0[i].0, self->Dict_0[i].1.handles()->Some_0),
                ),
            )
        } else {
            None
        }
    }
}

/// The shape of a mapping from dataset names to lists of entries.
pub open spec fn groups_shape() -> Shape {
    Shape::Dict(Box::new(Shape::List(Box::new(Shape::Object))))
}

/// The two conversions of a mapping undo each other: the value that
/// `set_entries` builds from a mapping is read by `entries` as the same
/// datasets, in the same order, with the same entries. This speaks of the
/// conversions alone, not of what the runtime does with the value between
/// the two.
pub proof fn groups_round_trip(groups: Groups)
    ensures
        groups_value(groups).groups() == Some(groups),
{
    let value = groups_value(groups);
    assert forall|i: int| 0 <= i < value->Dict_0.len() implies (
    #[trigger] value->Dict_0[i]).1.handles() == Some(groups[i].1) by {
        let list = value->Dict_0[i].1;
        assert(list == references(groups[i].1));
        assert forall|j: int| 0 <= j < list->List_0.len() implies (
        #[trigger] list->List_0[j]).conforms(Shape::Object) by {}
        assert(list.conforms(Shape::List(Box::new(Shape::Object))));
        assert(list.handles()->Some_0 =~= groups[i].1);
    }
    assert(value.groups()->Some_0 =~= groups);
}

/// The value that hands a mapping from dataset names to lists of entries to
/// the runtime.
pub fn encode_entries(entries: &Vec<(String, Vec<Entry>)>) -> (value: Value)
    ensures
        value@ == groups_value(groups_of(entries@)),
{
    let mut items: Vec<(String, Value)> = Vec::new();
    let mut i: usize = 0;
    while i < entries.len()
        invariant
            i <= entries.len(),
            items@.len() == i,
            forall|j: int|
                0 <= j < i ==> (#[trigger] items@[j]).0@ == entries@[j].0@ && items@[j].1@
                    == references(objects_of(entries@[j].1@)),
        decreases entries.len() - i,
    {
        items.push((entries[i].0.clone(), as_references(&entries[i].1)));
        i = i + 1;
    }
    let value = Value::Dict(items);
    proof {
        value.view_of_dict();
        assert(value@->Dict_0 =~= groups_value(groups_of(entries@))->Dict_0);
    }
    value
}

/// The mapping from dataset names to lists of entries that a value holds;
/// `None` where the value is no mapping or one of its values is no list of
/// objects.
pub fn decode_entries(value: &Value) -> (r: Option<Vec<(String, Vec<Entry>)>>)
    ensures
        r is Some <==> value@.groups() is Some,
        r matches Some(entries) ==> value@.groups() == Some(groups_of(entries@)),
{
    match value {
        Value::Dict(items) => {
            proof {
                value.view_of_dict();
            }
            let mut out: Vec<(String, Vec<Entry>)> = Vec::new();
            let mut i: usize = 0;
            while i < items.len()
                invariant
                    i <= items.len(),
                    value@ == ValueModel::Dict(named_models(items@)),
                    out@.len() == i,
                    forall|j: int|
                        0 <= j < i ==> (#[trigger] out@[j]).0@ == items@[j].0@ && items@[j].1@.handles()
                            == Some(objects_of(out@[j].1@)),
                decreases items.len() - i,
            {
                match items[i].1.handles() {
                    Some(handles) => {
                        let group: Vec<Entry> = wrap_all(handles);
                        out.push((items[i].0.clone(), group));
                    },
                    None => {
                        assert(value@->Dict_0[i as int].1.handles() is None);
                        return None;
                    },
                }
                i = i + 1;
            }
            proof {
                assert forall|j: int| 0 <= j < value@->Dict_0.len() implies (
                #[trigger] value@->Dict_0[j]).1.handles() is Some by {
                    assert(items@[j].1@.handles() == Some(objects_of(out@[j].1@)));
                }
                assert(value@.groups()->Some_0 =~= groups_of(out@));
            }
            Some(out)
        },
        _ => None,
    }
}

/// The dataset names of a mapping, in order.
pub open spec fn names_of(groups: Groups) -> Seq<Seq<char>> {
    Seq::new(groups.len(), |i: int| groups[i].0)
}

/// Whether no dataset name occurs twice in the mapping.
pub fn names_are_distinct(entries: &Vec<(String, Vec<Entry>)>) -> (b: bool)
    ensures
        b == names_of(groups_of(entries@)).no_duplicates(),
{
    let ghost names = names_of(groups_of(entries@));
    let mut i: usize = 0;
    while i < entries.len()
        invariant
            i <= entries.len(),
            names == names_of(groups_of(entries@)),
            forall|a: int, b: int| 0 <= a < b < i ==> names[a] != names[b],
        decreases entries.len() - i,
    {
        let mut j: usize = 0;
        while j < i
            invariant
                j <= i,
                i < entries.len(),
                names == names_of(groups_of(entries@)),
                forall|a: int| 0 <= a < j ==> names[a] != names[i as int],
            decreases i - j,
        {
            if entries[j].0 == entries[i].0 {
                assert(names[j as int] == names[i as int]);
                return false;
            }
            j = j + 1;
        }
        i = i + 1;
    }
    assert forall|a: int, b: int|
        0 <= a < names.len() && 0 <= b < names.len() && a != b implies names[a] != names[b] by {
        if a < b {
            assert(names[a] != names[b]);
        } else {
            assert(names[b] != names[a]);
        }
    }
    true
}

/// The value that hands a list of texts to the runtime.
pub open spec fn texts_value(texts: Seq<&str>) -> ValueModel {
    ValueModel::List(Seq::new(texts.len(), |i: int| ValueModel::Text(texts[i]@)))
}

/// The value that hands a list of texts to the runtime.
pub fn as_texts(texts: &Vec<&str>) -> (value: Value)
    ensures
        value@ == texts_value(texts@),
{
    let mut items: Vec<Value> = Vec::new();
    let mut i: usize = 0;
    while i < texts.len()
        invariant
            i <= texts.len(),
            items@.len() == i,
            forall|j: int| 0 <= j < i ==> (#[trigger] items@[j])@ == ValueModel::Text(texts@[j]@),
        decreases texts.len() - i,
    {
        items.push(Value::Text(texts[i].to_owned()));
        i = i + 1;
    }
    let value = Value::List(items);
    proof {
        value.view_of_list();
        assert(value@->List_0 =~= texts_value(texts@)->List_0);
    }
    value
}

/// What the result collections have in common.
pub trait BaseResultCollection: Sized {
    /// Whether reading the file of the given name can give `r`. A
    /// collection that does not say otherwise can give anything.
    open spec fn parsed(filename: Seq<char>, r: Result<Self, BindingError>) -> bool {
        true
    }

    /// Whether asking the collection for its entries can give `r`. A
    /// collection that does not say otherwise can give anything.
    open spec fn listed(&self, r: Result<Vec<(String, Vec<Entry>)>, BindingError>) -> bool {
        true
    }

    /// Reads a collection from the file of the given name.
    fn parse_file(filename: &str) -> (r: Result<Self, BindingError>)
        ensures
            Self::parsed(filename@, r),
    ;

    /// The collection's entries by dataset.
    fn entries(&self) -> (r: Result<Vec<(String, Vec<Entry>)>, BindingError>)
        ensures
            self.listed(r),
    ;
}

/// The request that reads a collection of the class `class` from a file.
pub open spec fn parse_file_request(class: Seq<char>, filename: Seq<char>) -> CallModel {
    class_request(
        class,
        RESULTS_MODULE@,
        class,
        "parse_file"@,
        seq![ValueModel::Text(filename)],
        seq![],
    )
}

/// The request that fetches the named datasets from the archive into a
/// collection of the class `class`.
pub open spec fn from_server_request(
    class: Seq<char>,
    client: Handle,
    datasets: Seq<&str>,
    spec_name: Seq<char>,
) -> CallModel {
    class_request(
        class,
        RESULTS_MODULE@,
        class,
        "from_server"@,
        seq![],
        seq![
            ("client"@, ValueModel::Object(client)),
            ("datasets"@, texts_value(datasets)),
            ("spec_name"@, ValueModel::Text(spec_name)),
        ],
    )
}

/// The request for a collection's JSON text, indented by `indent` columns.
pub open spec fn json_request(class: Seq<char>, collection: Handle, indent: usize) -> CallModel {
    method_request(
        class,
        collection,
        "json"@,
        seq![],
        seq![("indent"@, ValueModel::Index(indent as nat))],
    )
}

/// The request for a collection's entries.
pub open spec fn entries_request(class: Seq<char>, collection: Handle) -> CallModel {
    get_request(class, collection, "entries"@)
}

/// The request that replaces a collection's entries.
pub open spec fn set_entries_request(
    class: Seq<char>,
    collection: Handle,
    groups: Groups,
) -> CallModel {
    set_request(class, collection, "entries"@, groups_value(groups))
}

/// Builds the request that reads a collection of the class `class` from a
/// file.
pub fn parse_file_call(class: &str, filename: &str) -> (c: Call)
    ensures
        c@ == parse_file_request(class@, filename@),
{
    let mut args: Vec<Value> = Vec::new();
    args.push(Value::Text(filename.to_owned()));
    let c = Call::class(class, RESULTS_MODULE, class, "parse_file", args, Vec::new());
    assert(c@.op->Invoke_args =~= seq![ValueModel::Text(filename@)]);
    assert(c@.op->Invoke_kwargs =~= seq![]);
    c
}

/// Builds the request that fetches the named datasets from the archive
/// into a collection of the class `class`.
pub fn from_server_call(
    class: &str,
    client: PortalClient,
    datasets: &Vec<&str>,
    spec_name: &str,
) -> (c: Call)
    ensures
        c@ == from_server_request(class@, client.handle, datasets@, spec_name@),
{
    let mut kwargs: Vec<(String, Value)> = Vec::new();
    kwargs.push(("client".to_owned(), Value::Object(client.handle)));
    kwargs.push(("datasets".to_owned(), as_texts(datasets)));
    kwargs.push(("spec_name".to_owned(), Value::Text(spec_name.to_owned())));
    let c = Call::class(class, RESULTS_MODULE, class, "from_server", Vec::new(), kwargs);
    assert(c@.op->Invoke_args =~= seq![]);
    assert(c@.op->Invoke_kwargs =~= seq![
        ("client"@, ValueModel::Object(client.handle)),
        ("datasets"@, texts_value(datasets@)),
        ("spec_name"@, ValueModel::Text(spec_name@)),
    ]);
    c
}

/// Builds the request for a collection's JSON text.
pub fn json_call(class: &str, collection: &Handle, indent: usize) -> (c: Call)
    ensures
        c@ == json_request(class@, *collection, indent),
{
    let mut kwargs: Vec<(String, Value)> = Vec::new();
    kwargs.push(("indent".to_owned(), Value::Index(indent)));
    let c = Call::method(class, collection, "json", Vec::new(), kwargs);
    assert(c@.op->Invoke_args =~= seq![]);
    assert(c@.op->Invoke_kwargs =~= seq![("indent"@, ValueModel::Index(indent as nat))]);
    c
}

/// Builds the request that replaces a collection's entries. The request
/// describes what the runtime gets only where no dataset name occurs twice.
pub fn set_entries_call(class: &str, collection: &Handle, entries: &Vec<(String, Vec<Entry>)>) -> (c:
    Call)
    ensures
        c@ == set_entries_request(class@, *collection, groups_of(entries@)),
{
    Call::set(class, collection, "entries", encode_entries(entries))
}

/// The error for a mapping in which a dataset name occurs twice.
pub open spec fn repeated_name(class: Seq<char>) -> ErrorModel {
    ErrorModel {
        kind: ErrorKind::Conversion,
        facade: class,
        member: "entries"@,
        message: "a dataset name occurs twice"@,
    }
}

/// What `set_entries` can return: where a dataset name occurs twice, the
/// error that says so, and the runtime is not asked; else what the request
/// that replaces the entries gives.
pub open spec fn set_entries_outcome(
    class: Seq<char>,
    collection: Handle,
    groups: Groups,
    r: Result<(), ErrorModel>,
) -> bool {
    if names_of(groups).no_duplicates() {
        set_entries_request(class, collection, groups).yields_unit(r)
    } else {
        r == Err::<(), ErrorModel>(repeated_name(class))
    }
}

/// Replaces the entries of the collection behind `collection` by the given
/// mapping. A mapping in which a dataset name occurs twice is refused
/// before the runtime is asked: of two entries under one name the runtime
/// would keep the later one only.
pub fn replace_entries(class: &str, collection: &Handle, entries: &Vec<(String, Vec<Entry>)>) -> (r:
    Result<(), BindingError>)
    ensures
        set_entries_outcome(class@, *collection, groups_of(entries@), plain(r)),
{
    if names_are_distinct(entries) {
        set_entries_call(class, collection, entries).fetch_unit()
    } else {
        Err(
            BindingError::new(
                ErrorKind::Conversion,
                class,
                "entries",
                "a dataset name occurs twice".to_owned(),
            ),
        )
    }
}

impl CallModel {
    /// The result of a request for a mapping from dataset names to lists of
    /// entries.
    pub open spec fn groups_of(self, reply: Result<Value, BindingError>) -> Result<
        Groups,
        ErrorModel,
    > {
        match reply {
            Ok(v) => match v@.groups() {
                Some(groups) => Ok(groups),
                None => Err(self.mismatch()),
            },
            Err(e) => Err(e@),
        }
    }

    /// `r` is what some reply to the request gives when a mapping from
    /// dataset names to lists of entries is asked for.
    pub open spec fn yields_groups(self, r: Result<Groups, ErrorModel>) -> bool {
        exists|reply: Result<Value, BindingError>|
            self.answered_by(groups_shape(), reply) && r == self.groups_of(reply)
    }
}

/// A result with its entries taken by their objects and its error by its
/// content.
pub open spec fn grouped(r: Result<Vec<(String, Vec<Entry>)>, BindingError>) -> Result<
    Groups,
    ErrorModel,
> {
    match r {
        Ok(entries) => Ok(groups_of(entries@)),
        Err(e) => Err(e@),
    }
}

impl Call {
    /// Reads a mapping from dataset names to lists of entries from the
    /// reply.
    pub fn groups(&self, reply: Result<Value, BindingError>) -> (r: Result<
        Vec<(String, Vec<Entry>)>,
        BindingError,
    >)
        ensures
            grouped(r) == self@.groups_of(reply),
    {
        match reply {
            Ok(v) => match decode_entries(&v) {
                Some(entries) => Ok(entries),
                None => Err(self.mismatch()),
            },
            Err(e) => Err(e),
        }
    }

    /// Carries the request out for a mapping from dataset names to lists of
    /// entries.
    pub fn fetch_groups(&self) -> (r: Result<Vec<(String, Vec<Entry>)>, BindingError>)
        ensures
            self@.yields_groups(grouped(r)),
    {
        let shape = Shape::Dict(Box::new(Shape::List(Box::new(Shape::Object))));
        let reply = self.invoke(&shape);
        self.groups(reply)
    }
}

/// A collection of the results of geometry optimizations.
#[derive(Debug)]
pub struct OptimizationResultCollection {
    pub handle: Handle,
}

impl Facade for OptimizationResultCollection {
    open spec fn object(&self) -> Handle {
        self.handle
    }

    fn wrap(handle: Handle) -> (s: Self) {
        OptimizationResultCollection { handle }
    }

    fn handle(&self) -> (h: &Handle) {
        &self.handle
    }
}

impl BaseResultCollection for OptimizationResultCollection {
    open spec fn parsed(filename: Seq<char>, r: Result<Self, BindingError>) -> bool {
        parse_file_request("OptimizationResultCollection"@, filename).yields_handle(wrapped(r))
    }

    open spec fn listed(&self, r: Result<Vec<(String, Vec<Entry>)>, BindingError>) -> bool {
        entries_request("OptimizationResultCollection"@, self.handle).yields_groups(grouped(r))
    }

    fn parse_file(filename: &str) -> (r: Result<Self, BindingError>) {
        parse_file_call("OptimizationResultCollection", filename).fetch_object()
    }

    fn entries(&self) -> (r: Result<Vec<(String, Vec<Entry>)>, BindingError>) {
        Call::get("OptimizationResultCollection", &self.handle, "entries").fetch_groups()
    }
}

impl OptimizationResultCollection {
    /// Fetches the named datasets, as computed under the specification
    /// `spec_name`, from the archive behind `client`.
    pub fn from_server(client: PortalClient, datasets: Vec<&str>, spec_name: &str) -> (r: Result<
        Self,
        BindingError,
    >)
        ensures
            from_server_request(
                "OptimizationResultCollection"@,
                client.handle,
                datasets@,
                spec_name@,
            ).yields_handle(wrapped(r)),
    {
        from_server_call("OptimizationResultCollection", client, &datasets, spec_name).fetch_object()
    }

    /// The collection as JSON text, indented by `indent` columns.
    pub fn json(&self, indent: usize) -> (r: Result<String, BindingError>)
        ensures
            json_request("OptimizationResultCollection"@, self.handle, indent).yields_text(viewed(r)),
    {
        json_call("OptimizationResultCollection", &self.handle, indent).fetch_text()
    }

    /// Replaces the collection's entries by the given mapping, in which no
    /// dataset name may occur twice.
    pub fn set_entries(&mut self, entries: Vec<(String, Vec<Entry>)>) -> (r: Result<
        (),
        BindingError,
    >)
        ensures
            *final(self) == *old(self),
            set_entries_outcome(
                "OptimizationResultCollection"@,
                old(self).handle,
                groups_of(entries@),
                plain(r),
            ),
    {
        replace_entries("OptimizationResultCollection", &self.handle, &entries)
    }

    /// Applies `filters` to the collection from left to right and returns
    /// what the last of them gave. The first filter that fails ends the run
    /// and its error is returned.
    pub fn filter(self, filters: &[Box<dyn Filter<OptimizationResultCollection>>]) -> (r: Result<
        Self,
        BindingError,
    >)
        ensures
            chain(filters@, self, r),
    {
        run(self, filters)
    }
}

/// A collection of the results of torsion drives.
#[derive(Debug)]
pub struct TorsionDriveResultCollection {
    pub handle: Handle,
}

impl Facade for TorsionDriveResultCollection {
    open spec fn object(&self) -> Handle {
        self.handle
    }

    fn wrap(handle: Handle) -> (s: Self) {
        TorsionDriveResultCollection { handle }
    }

    fn handle(&self) -> (h: &Handle) {
        &self.handle
    }
}

impl BaseResultCollection for TorsionDriveResultCollection {
    open spec fn parsed(filename: Seq<char>, r: Result<Self, BindingError>) -> bool {
        parse_file_request("TorsionDriveResultCollection"@, filename).yields_handle(wrapped(r))
    }

    open spec fn listed(&self, r: Result<Vec<(String, Vec<Entry>)>, BindingError>) -> bool {
        entries_request("TorsionDriveResultCollection"@, self.handle).yields_groups(grouped(r))
    }

    fn parse_file(filename: &str) -> (r: Result<Self, BindingError>) {
        parse_file_call("TorsionDriveResultCollection", filename).fetch_object()
    }

    fn entries(&self) -> (r: Result<Vec<(String, Vec<Entry>)>, BindingError>) {
        Call::get("TorsionDriveResultCollection", &self.handle, "entries").fetch_groups()
    }
}

impl TorsionDriveResultCollection {
    /// Fetches the named datasets, as computed under the specification
    /// `spec_name`, from the archive behind `client`.
    pub fn from_server(client: PortalClient, datasets: Vec<&str>, spec_name: &str) -> (r: Result<
        Self,
        BindingError,
    >)
        ensures
            from_server_request(
                "TorsionDriveResultCollection"@,
                client.handle,
                datasets@,
                spec_name@,
            ).yields_handle(wrapped(r)),
    {
        from_server_call("TorsionDriveResultCollection", client, &datasets, spec_name).fetch_object()
    }

    /// The collection as JSON text, indented by `indent` columns.
    pub fn json(&self, indent: usize) -> (r: Result<String, BindingError>)
        ensures
            json_request("TorsionDriveResultCollection"@, self.handle, indent).yields_text(viewed(r)),
    {
        json_call("TorsionDriveResultCollection", &self.handle, indent).fetch_text()
    }

    /// Replaces the collection's entries by the given mapping, in which no
    /// dataset name may occur twice.
    pub fn set_entries(&mut self, entries: Vec<(String, Vec<Entry>)>) -> (r: Result<
        (),
        BindingError,
    >)
        ensures
            *final(self) == *old(self),
            set_entries_outcome(
                "TorsionDriveResultCollection"@,
                old(self).handle,
                groups_of(entries@),
                plain(r),
            ),
    {
        replace_entries("TorsionDriveResultCollection", &self.handle, &entries)
    }

    /// Applies `filters` to the collection from left to right and returns
    /// what the last of them gave. The first filter that fails ends the run
    /// and its error is returned.
    pub fn filter(self, filters: &[Box<dyn Filter<TorsionDriveResultCollection>>]) -> (r: Result<
        Self,
        BindingError,
    >)
        ensures
            chain(filters@, self, r),
    {
        run(self, filters)
    }
}

} // verus!
