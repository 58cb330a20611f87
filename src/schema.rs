//! Entities of the meta-subgraph of subgraphs: what a deployed manifest is
//! recorded as, and the ids of the entities of its tree.
use vstd::prelude::*;
use vstd::string::*;

use crate::admin::{decimal, decimal_text};

verus! {

/// Id of the subgraph of subgraphs.
pub const SUBGRAPHS_ID: &'static str = "subgraphs";

/// Event source that tags every write of these entities.
pub const EVENT_SOURCE: &'static str = "subgraph-added";

/// An ABI named by a mapping, and the link to its file.
#[derive(Clone, Debug)]
pub struct MappingABI {
    pub name: String,
    pub link: String,
}

/// An event of a contract and the handler that processes it.
#[derive(Clone, Debug)]
pub struct MappingEventHandler {
    pub event: String,
    pub handler: String,
}

/// The mapping of a data source.
#[derive(Clone, Debug)]
pub struct Mapping {
    pub kind: String,
    pub api_version: String,
    pub language: String,
    pub link: String,
    pub entities: Vec<String>,
    pub abis: Vec<MappingABI>,
    pub event_handlers: Vec<MappingEventHandler>,
}

/// The contract a data source reads from.
#[derive(Clone, Debug)]
pub struct Source {
    pub address: String,
    pub abi: String,
}

/// One data source of a manifest.
#[derive(Clone, Debug)]
pub struct DataSource {
    pub kind: String,
    pub network: Option<String>,
    pub name: String,
    pub source: Source,
    pub mapping: Mapping,
}

/// A resolved subgraph manifest, with its schema as text.
#[derive(Clone, Debug)]
pub struct SubgraphManifest {
    pub id: String,
    pub spec_version: String,
    pub description: Option<String>,
    pub repository: Option<String>,
    pub schema: String,
    pub data_sources: Vec<DataSource>,
}

/// The `EthereumContractAbi` entity.
#[derive(Clone, Debug)]
pub struct EthereumContractAbi {
    pub name: String,
    pub file: String,
}

/// The `EthereumContractEventHandler` entity.
#[derive(Clone, Debug)]
pub struct EthereumContractEventHandler {
    pub event: String,
    pub handler: String,
}

/// The `EthereumContractMapping` entity.
#[derive(Clone, Debug)]
pub struct EthereumContractMapping {
    pub kind: String,
    pub api_version: String,
    pub language: String,
    pub file: String,
    pub entities: Vec<String>,
    pub abis: Vec<EthereumContractAbi>,
    pub event_handlers: Vec<EthereumContractEventHandler>,
}

/// The `EthereumContractSource` entity.
#[derive(Clone, Debug)]
pub struct EthereumContractSource {
    pub address: String,
    pub abi: String,
}

/// The `EthereumContractDataSource` entity.
#[derive(Clone, Debug)]
pub struct EthereumContractDataSource {
    pub kind: String,
    pub network: Option<String>,
    pub name: String,
    pub source: EthereumContractSource,
    pub mapping: EthereumContractMapping,
}

/// The `SubgraphManifest` entity.
#[derive(Clone, Debug)]
pub struct SubgraphManifestEntity {
    pub spec_version: String,
    pub description: Option<String>,
    pub repository: Option<String>,
    pub schema: String,
    pub data_sources: Vec<EthereumContractDataSource>,
}

/// The `Subgraph` entity: a deployed manifest and when it was recorded.
#[derive(Clone, Debug)]
pub struct SubgraphEntity {
    pub id: String,
    pub manifest: SubgraphManifestEntity,
    pub created_at: u64,
}

/// The view of an optional string.
pub open spec fn opt_view(o: Option<String>) -> Option<Seq<char>> {
    match o {
        Some(s) => Some(s@),
        None => None,
    }
}

/// An ABI entity records the ABI's name and file link.
pub open spec fn abi_of(e: EthereumContractAbi, a: MappingABI) -> bool {
    e.name@ == a.name@ && e.file@ == a.link@
}

/// An event handler entity records the event and the handler.
pub open spec fn event_handler_of(e: EthereumContractEventHandler, h: MappingEventHandler) -> bool {
    e.event@ == h.event@ && e.handler@ == h.handler@
}

/// A mapping entity records the mapping, its file link, its entities, and
/// each ABI and handler in order.
pub open spec fn mapping_of(e: EthereumContractMapping, m: Mapping) -> bool {
    &&& e.kind@ == m.kind@
    &&& e.api_version@ == m.api_version@
    &&& e.language@ == m.language@
    &&& e.file@ == m.link@
    &&& e.entities@ == m.entities@
    &&& e.abis@.len() == m.abis@.len()
    &&& forall|i: int| 0 <= i < m.abis@.len() ==> abi_of(#[trigger] e.abis@[i], m.abis@[i])
    &&& e.event_handlers@.len() == m.event_handlers@.len()
    &&& forall|i: int|
        0 <= i < m.event_handlers@.len() ==> event_handler_of(#[trigger] e.event_handlers@[i], m.event_handlers@[i])
}

/// A data source entity records the data source, its contract and its mapping.
pub open spec fn data_source_of(e: EthereumContractDataSource, d: DataSource) -> bool {
    &&& e.kind@ == d.kind@
    &&& opt_view(e.network) == opt_view(d.network)
    &&& e.name@ == d.name@
    &&& e.source.address@ == d.source.address@
    &&& e.source.abi@ == d.source.abi@
    &&& mapping_of(e.mapping, d.mapping)
}

/// A manifest entity records the manifest and each data source in order.
pub open spec fn manifest_of(e: SubgraphManifestEntity, m: SubgraphManifest) -> bool {
    &&& e.spec_version@ == m.spec_version@
    &&& opt_view(e.description) == opt_view(m.description)
    &&& opt_view(e.repository) == opt_view(m.repository)
    &&& e.schema@ == m.schema@
    &&& e.data_sources@.len() == m.data_sources@.len()
    &&& forall|i: int|
        0 <= i < m.data_sources@.len() ==> data_source_of(#[trigger] e.data_sources@[i], m.data_sources@[i])
}

fn copy_opt(o: &Option<String>) -> (r: Option<String>)
    ensures
        opt_view(r) == opt_view(*o),
{
    match o {
        Some(s) => Some(s.clone()),
        None => None,
    }
}

fn copy_strings(v: &Vec<String>) -> (r: Vec<String>)
    ensures
        r@ == v@,
{
    let mut r: Vec<String> = Vec::new();
    let mut i: usize = 0;
    while i < v.len()
        invariant
            i <= v@.len(),
            r@ == v@.subrange(0, i as int),
        decreases v@.len() - i,
    {
        r.push(v[i].clone());
        i = i + 1;
        assert(r@ =~= v@.subrange(0, i as int));
    }
    assert(r@ =~= v@);
    r
}

impl EthereumContractMapping {
    /// The entity that records `mapping`.
    pub fn from_mapping(mapping: &Mapping) -> (r: EthereumContractMapping)
        ensures
            mapping_of(r, *mapping),
    {
        let mut abis: Vec<EthereumContractAbi> = Vec::new();
        let mut i: usize = 0;
        while i < mapping.abis.len()
            invariant
                i <= mapping.abis@.len(),
                abis@.len() == i,
                forall|j: int| 0 <= j < i ==> abi_of(#[trigger] abis@[j], mapping.abis@[j]),
            decreases mapping.abis@.len() - i,
        {
            let a = &mapping.abis[i];
            abis.push(EthereumContractAbi { name: a.name.clone(), file: a.link.clone() });
            i = i + 1;
        }
        let mut event_handlers: Vec<EthereumContractEventHandler> = Vec::new();
        let mut k: usize = 0;
        while k < mapping.event_handlers.len()
            invariant
                k <= mapping.event_handlers@.len(),
                event_handlers@.len() == k,
                forall|j: int| 0 <= j < k ==> event_handler_of(#[trigger] event_handlers@[j], mapping.event_handlers@[j]),
            decreases mapping.event_handlers@.len() - k,
        {
            let h = &mapping.event_handlers[k];
            event_handlers.push(EthereumContractEventHandler { event: h.event.clone(), handler: h.handler.clone() });
            k = k + 1;
        }
        EthereumContractMapping {
            kind: mapping.kind.clone(),
            api_version: mapping.api_version.clone(),
            language: mapping.language.clone(),
            file: mapping.link.clone(),
            entities: copy_strings(&mapping.entities),
            abis,
            event_handlers,
        }
    }
}

impl EthereumContractDataSource {
    /// The entity that records `data_source`.
    pub fn from_data_source(data_source: &DataSource) -> (r: EthereumContractDataSource)
        ensures
            data_source_of(r, *data_source),
    {
        EthereumContractDataSource {
            kind: data_source.kind.clone(),
            network: copy_opt(&data_source.network),
            name: data_source.name.clone(),
            source: EthereumContractSource {
                address: data_source.source.address.clone(),
                abi: data_source.source.abi.clone(),
            },
            mapping: EthereumContractMapping::from_mapping(&data_source.mapping),
        }
    }
}

impl SubgraphManifestEntity {
    /// The entity that records `manifest`.
    pub fn from_manifest(manifest: &SubgraphManifest) -> (r: SubgraphManifestEntity)
        ensures
            manifest_of(r, *manifest),
    {
        let mut data_sources: Vec<EthereumContractDataSource> = Vec::new();
        let mut i: usize = 0;
        while i < manifest.data_sources.len()
            invariant
                i <= manifest.data_sources@.len(),
                data_sources@.len() == i,
                forall|j: int| 0 <= j < i ==> data_source_of(#[trigger] data_sources@[j], manifest.data_sources@[j]),
            decreases manifest.data_sources@.len() - i,
        {
            data_sources.push(EthereumContractDataSource::from_data_source(&manifest.data_sources[i]));
            i = i + 1;
        }
        SubgraphManifestEntity {
            spec_version: manifest.spec_version.clone(),
            description: copy_opt(&manifest.description),
            repository: copy_opt(&manifest.repository),
            schema: manifest.schema.clone(),
            data_sources,
        }
    }
}

impl SubgraphEntity {
    /// The entity that records `source_manifest` as deployed at `created_at`.
    pub fn new(source_manifest: &SubgraphManifest, created_at: u64) -> (r: SubgraphEntity)
        ensures
            r.id@ == source_manifest.id@,
            manifest_of(r.manifest, *source_manifest),
            r.created_at == created_at,
    {
        SubgraphEntity {
            id: source_manifest.id.clone(),
            manifest: SubgraphManifestEntity::from_manifest(source_manifest),
            created_at,
        }
    }
}

/// Id of the manifest entity of subgraph `parent`.
pub fn manifest_entity_id(parent: &str) -> (r: String)
    ensures
        r@ == parent@ + "-manifest"@,
{
    String::from_str(parent).concat("-manifest")
}

/// Id of the `index`th data source entity of manifest entity `parent`.
pub fn data_source_entity_id(parent: &str, index: usize) -> (r: String)
    ensures
        r@ == parent@ + "-data-source-"@ + decimal(index as nat),
{
    let n = decimal_text(index as u64);
    String::from_str(parent).concat("-data-source-").concat(n.as_str())
}

/// Id of the contract source entity of data source entity `parent`.
pub fn source_entity_id(parent: &str) -> (r: String)
    ensures
        r@ == parent@ + "-source"@,
{
    String::from_str(parent).concat("-source")
}

/// Id of the mapping entity of data source entity `parent`.
pub fn mapping_entity_id(parent: &str) -> (r: String)
    ensures
        r@ == parent@ + "-mapping"@,
{
    String::from_str(parent).concat("-mapping")
}

/// Id of the `index`th ABI entity of mapping entity `parent`.
pub fn abi_entity_id(parent: &str, index: usize) -> (r: String)
    ensures
        r@ == parent@ + "-abi-"@ + decimal(index as nat),
{
    let n = decimal_text(index as u64);
    String::from_str(parent).concat("-abi-").concat(n.as_str())
}

/// Id of the `index`th event handler entity of mapping entity `parent`.
pub fn event_handler_entity_id(parent: &str, index: usize) -> (r: String)
    ensures
        r@ == parent@ + "-event-handler-"@ + decimal(index as nat),
{
    let n = decimal_text(index as u64);
    String::from_str(parent).concat("-event-handler-").concat(n.as_str())
}

/// The abstract value of an entity field.
pub ghost enum ValueModel {
    Str(Seq<char>),
    Null,
    BigInt(nat),
    List(Seq<Seq<char>>),
}

/// The value of an entity field.
#[derive(Clone, Debug)]
pub enum Value {
    String(String),
    Null,
    BigInt(u64),
    List(Vec<String>),
}

/// The views of a sequence of strings.
pub open spec fn strings_view(v: Seq<String>) -> Seq<Seq<char>> {
    v.map_values(|s: String| s@)
}

impl View for Value {
    type V = ValueModel;

    open spec fn view(&self) -> ValueModel {
        match self {
            Value::String(s) => ValueModel::Str(s@),
            Value::Null => ValueModel::Null,
            Value::BigInt(n) => ValueModel::BigInt(*n as nat),
            Value::List(v) => ValueModel::List(strings_view(v@)),
        }
    }
}

/// The field value of an optional string: the string, or null.
pub open spec fn opt_value(o: Option<Seq<char>>) -> ValueModel {
    match o {
        Some(s) => ValueModel::Str(s),
        None => ValueModel::Null,
    }
}

/// The abstract content of a write of one entity.
pub ghost struct OperationModel {
    pub subgraph_id: Seq<char>,
    pub entity_type: Seq<char>,
    pub entity_id: Seq<char>,
    pub data: Seq<(Seq<char>, ValueModel)>,
    pub event_source: Seq<char>,
}

/// A write of one entity of the subgraph of subgraphs: its key, its fields
/// in order, and the event source it is tagged with.
#[derive(Clone, Debug)]
pub struct EntityOperation {
    pub subgraph_id: String,
    pub entity_type: String,
    pub entity_id: String,
    pub data: Vec<(String, Value)>,
    pub event_source: String,
}

/// The views of the fields of an entity.
pub open spec fn data_view(d: Seq<(String, Value)>) -> Seq<(Seq<char>, ValueModel)> {
    d.map_values(|f: (String, Value)| (f.0@, f.1@))
}

impl View for EntityOperation {
    type V = OperationModel;

    open spec fn view(&self) -> OperationModel {
        OperationModel {
            subgraph_id: self.subgraph_id@,
            entity_type: self.entity_type@,
            entity_id: self.entity_id@,
            data: data_view(self.data@),
            event_source: self.event_source@,
        }
    }
}

/// The views of a sequence of writes.
pub open spec fn ops_view(s: Seq<EntityOperation>) -> Seq<OperationModel> {
    s.map_values(|o: EntityOperation| o@)
}

/// The write of entity `id` of type `ty` with fields `data`, in the subgraph
/// of subgraphs, tagged as added by a deploy.
pub open spec fn set_op(ty: Seq<char>, id: Seq<char>, data: Seq<(Seq<char>, ValueModel)>) -> OperationModel {
    OperationModel {
        subgraph_id: SUBGRAPHS_ID@,
        entity_type: ty,
        entity_id: id,
        data,
        event_source: EVENT_SOURCE@,
    }
}

/// The id of the `i`th child of `parent` under `infix`.
pub open spec fn child_id(parent: Seq<char>, infix: Seq<char>, i: nat) -> Seq<char> {
    parent + infix + decimal(i)
}

/// The ids of the first `n` children of `parent` under `infix`.
pub open spec fn child_ids(parent: Seq<char>, infix: Seq<char>, n: nat) -> Seq<Seq<char>> {
    Seq::new(n, |i: int| child_id(parent, infix, i as nat))
}

/// The writes that record ABI entity `a` as `id`.
pub open spec fn abi_ops(a: EthereumContractAbi, id: Seq<char>) -> Seq<OperationModel> {
    seq![set_op("EthereumContractAbi"@, id, seq![
        ("id"@, ValueModel::Str(id)),
        ("name"@, ValueModel::Str(a.name@)),
        ("file"@, ValueModel::Str(a.file@)),
    ])]
}

/// The writes that record the first `n` ABIs of `abis` under mapping `parent`.
pub open spec fn abis_ops(abis: Seq<EthereumContractAbi>, parent: Seq<char>, n: nat) -> Seq<OperationModel>
    decreases n,
{
    if n == 0 {
        seq![]
    } else {
        abis_ops(abis, parent, (n - 1) as nat) + abi_ops(abis[n - 1], child_id(parent, "-abi-"@, (n - 1) as nat))
    }
}

/// The writes that record event handler entity `h` as `id`.
pub open spec fn event_handler_ops(h: EthereumContractEventHandler, id: Seq<char>) -> Seq<OperationModel> {
    seq![set_op("EthereumContractEventHandler"@, id, seq![
        ("id"@, ValueModel::Str(id)),
        ("event"@, ValueModel::Str(h.event@)),
        ("handler"@, ValueModel::Str(h.handler@)),
    ])]
}

/// The writes that record the first `n` handlers of `hs` under mapping `parent`.
pub open spec fn event_handlers_ops(hs: Seq<EthereumContractEventHandler>, parent: Seq<char>, n: nat) -> Seq<OperationModel>
    decreases n,
{
    if n == 0 {
        seq![]
    } else {
        event_handlers_ops(hs, parent, (n - 1) as nat) + event_handler_ops(hs[n - 1], child_id(parent, "-event-handler-"@, (n - 1) as nat))
    }
}

/// The writes that record source entity `s` as `id`.
pub open spec fn source_ops(s: EthereumContractSource, id: Seq<char>) -> Seq<OperationModel> {
    seq![set_op("EthereumContractSource"@, id, seq![
        ("id"@, ValueModel::Str(id)),
        ("address"@, ValueModel::Str(s.address@)),
        ("abi"@, ValueModel::Str(s.abi@)),
    ])]
}

/// The writes that record mapping entity `m` as `id`: its ABIs, its event
/// handlers, then the mapping itself, which lists their ids.
pub open spec fn mapping_ops(m: EthereumContractMapping, id: Seq<char>) -> Seq<OperationModel> {
    abis_ops(m.abis@, id, m.abis@.len()) + event_handlers_ops(m.event_handlers@, id, m.event_handlers@.len())
        + seq![set_op("EthereumContractMapping"@, id, seq![
        ("id"@, ValueModel::Str(id)),
        ("kind"@, ValueModel::Str(m.kind@)),
        ("apiVersion"@, ValueModel::Str(m.api_version@)),
        ("language"@, ValueModel::Str(m.language@)),
        ("file"@, ValueModel::Str(m.file@)),
        ("abis"@, ValueModel::List(child_ids(id, "-abi-"@, m.abis@.len()))),
        ("entities"@, ValueModel::List(strings_view(m.entities@))),
        ("eventHandlers"@, ValueModel::List(child_ids(id, "-event-handler-"@, m.event_handlers@.len()))),
    ])]
}

/// The writes that record data source entity `d` as `id`: its source, its
/// mapping, then the data source itself.
pub open spec fn data_source_ops(d: EthereumContractDataSource, id: Seq<char>) -> Seq<OperationModel> {
    source_ops(d.source, id + "-source"@) + mapping_ops(d.mapping, id + "-mapping"@)
        + seq![set_op("EthereumContractDataSource"@, id, seq![
        ("id"@, ValueModel::Str(id)),
        ("kind"@, ValueModel::Str(d.kind@)),
        ("network"@, opt_value(opt_view(d.network))),
        ("name"@, ValueModel::Str(d.name@)),
        ("source"@, ValueModel::Str(id + "-source"@)),
        ("mapping"@, ValueModel::Str(id + "-mapping"@)),
    ])]
}

/// The writes that record the first `n` data sources of `ds` under manifest `parent`.
pub open spec fn data_sources_ops(ds: Seq<EthereumContractDataSource>, parent: Seq<char>, n: nat) -> Seq<OperationModel>
    decreases n,
{
    if n == 0 {
        seq![]
    } else {
        data_sources_ops(ds, parent, (n - 1) as nat) + data_source_ops(ds[n - 1], child_id(parent, "-data-source-"@, (n - 1) as nat))
    }
}

/// The writes that record manifest entity `m` as `id`: its data sources,
/// then the manifest itself.
pub open spec fn manifest_ops(m: SubgraphManifestEntity, id: Seq<char>) -> Seq<OperationModel> {
    data_sources_ops(m.data_sources@, id, m.data_sources@.len()) + seq![set_op("SubgraphManifest"@, id, seq![
        ("id"@, ValueModel::Str(id)),
        ("specVersion"@, ValueModel::Str(m.spec_version@)),
        ("description"@, opt_value(opt_view(m.description))),
        ("repository"@, opt_value(opt_view(m.repository))),
        ("schema"@, ValueModel::Str(m.schema@)),
        ("dataSources"@, ValueModel::List(child_ids(id, "-data-source-"@, m.data_sources@.len()))),
    ])]
}

/// The writes that record subgraph entity `e`: its manifest, then the
/// subgraph itself.
pub open spec fn subgraph_ops(e: SubgraphEntity) -> Seq<OperationModel> {
    manifest_ops(e.manifest, e.id@ + "-manifest"@) + seq![set_op("Subgraph"@, e.id@, seq![
        ("id"@, ValueModel::Str(e.id@)),
        ("manifest"@, ValueModel::Str(e.id@ + "-manifest"@)),
        ("createdAt"@, ValueModel::BigInt(e.created_at as nat)),
    ])]
}

proof fn lemma_child_ids_push(v: Seq<String>, x: String, parent: Seq<char>, infix: Seq<char>, n: nat)
    requires
        strings_view(v) == child_ids(parent, infix, n),
        x@ == child_id(parent, infix, n),
    ensures
        strings_view(v.push(x)) == child_ids(parent, infix, n + 1),
{
    assert(strings_view(v).len() == n);
    assert(v.len() == n);
    assert forall|j: int| 0 <= j < n + 1 implies strings_view(v.push(x))[j] == child_ids(parent, infix, n + 1)[j] by {
        if j < n {
            assert(v.push(x)[j] == v[j]);
            assert(strings_view(v)[j] == child_ids(parent, infix, n)[j]);
        } else {
            assert(v.push(x)[j] == x);
        }
    }
    assert(strings_view(v.push(x)) =~= child_ids(parent, infix, n + 1));
}

fn push_field(data: &mut Vec<(String, Value)>, key: &str, v: Value)
    ensures
        data_view(final(data)@) == data_view(old(data)@).push((key@, v@)),
{
    let ghost d0 = data@;
    data.push((String::from_str(key), v));
    assert(data_view(data@) =~= data_view(d0).push((key@, v@)));
}

fn opt_field(o: &Option<String>) -> (r: Value)
    ensures
        r@ == opt_value(opt_view(*o)),
{
    match o {
        Some(s) => Value::String(s.clone()),
        None => Value::Null,
    }
}

fn push_op(store: &mut Vec<EntityOperation>, ty: &str, id: &String, data: Vec<(String, Value)>)
    ensures
        ops_view(final(store)@) == ops_view(old(store)@).push(set_op(ty@, id@, data_view(data@))),
{
    let ghost s0 = store@;
    let op = EntityOperation {
        subgraph_id: String::from_str(SUBGRAPHS_ID),
        entity_type: String::from_str(ty),
        entity_id: id.clone(),
        data,
        event_source: String::from_str(EVENT_SOURCE),
    };
    store.push(op);
    assert(ops_view(store@) =~= ops_view(s0).push(set_op(ty@, id@, data_view(data@))));
}

impl EthereumContractAbi {
    /// Appends the writes that record this ABI as `id`; returns `id`.
    pub fn write_to_store(&self, store: &mut Vec<EntityOperation>, id: String) -> (r: String)
        ensures
            r@ == id@,
            ops_view(final(store)@) == ops_view(old(store)@) + abi_ops(*self, id@),
    {
        let ghost s0 = ops_view(store@);
        let mut data: Vec<(String, Value)> = Vec::new();
        assert(data_view(data@) =~= seq![]);
        push_field(&mut data, "id", Value::String(id.clone()));
        push_field(&mut data, "name", Value::String(self.name.clone()));
        push_field(&mut data, "file", Value::String(self.file.clone()));
        assert(data_view(data@) =~= seq![
            ("id"@, ValueModel::Str(id@)),
            ("name"@, ValueModel::Str(self.name@)),
            ("file"@, ValueModel::Str(self.file@)),
        ]);
        push_op(store, "EthereumContractAbi", &id, data);
        assert(ops_view(store@) =~= s0 + abi_ops(*self, id@));
        id
    }
}

impl EthereumContractEventHandler {
    /// Appends the writes that record this handler as `id`; returns `id`.
    pub fn write_to_store(&self, store: &mut Vec<EntityOperation>, id: String) -> (r: String)
        ensures
            r@ == id@,
            ops_view(final(store)@) == ops_view(old(store)@) + event_handler_ops(*self, id@),
    {
        let ghost s0 = ops_view(store@);
        let mut data: Vec<(String, Value)> = Vec::new();
        assert(data_view(data@) =~= seq![]);
        push_field(&mut data, "id", Value::String(id.clone()));
        push_field(&mut data, "event", Value::String(self.event.clone()));
        push_field(&mut data, "handler", Value::String(self.handler.clone()));
        assert(data_view(data@) =~= seq![
            ("id"@, ValueModel::Str(id@)),
            ("event"@, ValueModel::Str(self.event@)),
            ("handler"@, ValueModel::Str(self.handler@)),
        ]);
        push_op(store, "EthereumContractEventHandler", &id, data);
        assert(ops_view(store@) =~= s0 + event_handler_ops(*self, id@));
        id
    }
}

impl EthereumContractSource {
    /// Appends the writes that record this source as `id`; returns `id`.
    pub fn write_to_store(&self, store: &mut Vec<EntityOperation>, id: String) -> (r: String)
        ensures
            r@ == id@,
            ops_view(final(store)@) == ops_view(old(store)@) + source_ops(*self, id@),
    {
        let ghost s0 = ops_view(store@);
        let mut data: Vec<(String, Value)> = Vec::new();
        assert(data_view(data@) =~= seq![]);
        push_field(&mut data, "id", Value::String(id.clone()));
        push_field(&mut data, "address", Value::String(self.address.clone()));
        push_field(&mut data, "abi", Value::String(self.abi.clone()));
        assert(data_view(data@) =~= seq![
            ("id"@, ValueModel::Str(id@)),
            ("address"@, ValueModel::Str(self.address@)),
            ("abi"@, ValueModel::Str(self.abi@)),
        ]);
        push_op(store, "EthereumContractSource", &id, data);
        assert(ops_view(store@) =~= s0 + source_ops(*self, id@));
        id
    }
}

impl EthereumContractMapping {
    /// Appends the writes that record this mapping as `id`: each ABI as
    /// `{id}-abi-{i}`, each handler as `{id}-event-handler-{i}`, then the
    /// mapping. Returns `id`.
    pub fn write_to_store(&self, store: &mut Vec<EntityOperation>, id: String) -> (r: String)
        ensures
            r@ == id@,
            ops_view(final(store)@) == ops_view(old(store)@) + mapping_ops(*self, id@),
    {
        let ghost s0 = ops_view(store@);
        let mut abi_ids: Vec<String> = Vec::new();
        let mut i: usize = 0;
        assert(strings_view(abi_ids@) =~= child_ids(id@, "-abi-"@, 0));
        assert(ops_view(store@) =~= s0 + abis_ops(self.abis@, id@, 0));
        while i < self.abis.len()
            invariant
                i <= self.abis@.len(),
                ops_view(store@) == s0 + abis_ops(self.abis@, id@, i as nat),
                strings_view(abi_ids@) == child_ids(id@, "-abi-"@, i as nat),
            decreases self.abis@.len() - i,
        {
            let abi_id = abi_entity_id(id.as_str(), i);
            let written = self.abis[i].write_to_store(store, abi_id);
            let ghost before = abi_ids@;
            abi_ids.push(written);
            proof {
                lemma_child_ids_push(before, written, id@, "-abi-"@, i as nat);
                assert(ops_view(store@) =~= s0 + abis_ops(self.abis@, id@, (i + 1) as nat));
            }
            i = i + 1;
        }
        let ghost s1 = ops_view(store@);
        let mut handler_ids: Vec<String> = Vec::new();
        let mut k: usize = 0;
        assert(strings_view(handler_ids@) =~= child_ids(id@, "-event-handler-"@, 0));
        assert(ops_view(store@) =~= s1 + event_handlers_ops(self.event_handlers@, id@, 0));
        while k < self.event_handlers.len()
            invariant
                k <= self.event_handlers@.len(),
                ops_view(store@) == s1 + event_handlers_ops(self.event_handlers@, id@, k as nat),
                strings_view(handler_ids@) == child_ids(id@, "-event-handler-"@, k as nat),
            decreases self.event_handlers@.len() - k,
        {
            let handler_id = event_handler_entity_id(id.as_str(), k);
            let written = self.event_handlers[k].write_to_store(store, handler_id);
            let ghost before = handler_ids@;
            handler_ids.push(written);
            proof {
                lemma_child_ids_push(before, written, id@, "-event-handler-"@, k as nat);
                assert(ops_view(store@) =~= s1 + event_handlers_ops(self.event_handlers@, id@, (k + 1) as nat));
            }
            k = k + 1;
        }
        let entities = copy_strings(&self.entities);
        let mut data: Vec<(String, Value)> = Vec::new();
        assert(data_view(data@) =~= seq![]);
        push_field(&mut data, "id", Value::String(id.clone()));
        push_field(&mut data, "kind", Value::String(self.kind.clone()));
        push_field(&mut data, "apiVersion", Value::String(self.api_version.clone()));
        push_field(&mut data, "language", Value::String(self.language.clone()));
        push_field(&mut data, "file", Value::String(self.file.clone()));
        push_field(&mut data, "abis", Value::List(abi_ids));
        push_field(&mut data, "entities", Value::List(entities));
        push_field(&mut data, "eventHandlers", Value::List(handler_ids));
        assert(data_view(data@) =~= seq![
            ("id"@, ValueModel::Str(id@)),
            ("kind"@, ValueModel::Str(self.kind@)),
            ("apiVersion"@, ValueModel::Str(self.api_version@)),
            ("language"@, ValueModel::Str(self.language@)),
            ("file"@, ValueModel::Str(self.file@)),
            ("abis"@, ValueModel::List(child_ids(id@, "-abi-"@, self.abis@.len()))),
            ("entities"@, ValueModel::List(strings_view(self.entities@))),
            ("eventHandlers"@, ValueModel::List(child_ids(id@, "-event-handler-"@, self.event_handlers@.len()))),
        ]);
        push_op(store, "EthereumContractMapping", &id, data);
        assert(ops_view(store@) =~= s0 + mapping_ops(*self, id@));
        id
    }
}

impl EthereumContractDataSource {
    /// Appends the writes that record this data source as `id`: its source as
    /// `{id}-source`, its mapping as `{id}-mapping`, then the data source.
    /// Returns `id`.
    pub fn write_to_store(&self, store: &mut Vec<EntityOperation>, id: String) -> (r: String)
        ensures
            r@ == id@,
            ops_view(final(store)@) == ops_view(old(store)@) + data_source_ops(*self, id@),
    {
        let ghost s0 = ops_view(store@);
        let source_id = self.source.write_to_store(store, source_entity_id(id.as_str()));
        let mapping_id = self.mapping.write_to_store(store, mapping_entity_id(id.as_str()));
        let mut data: Vec<(String, Value)> = Vec::new();
        assert(data_view(data@) =~= seq![]);
        push_field(&mut data, "id", Value::String(id.clone()));
        push_field(&mut data, "kind", Value::String(self.kind.clone()));
        push_field(&mut data, "network", opt_field(&self.network));
        push_field(&mut data, "name", Value::String(self.name.clone()));
        push_field(&mut data, "source", Value::String(source_id));
        push_field(&mut data, "mapping", Value::String(mapping_id));
        assert(data_view(data@) =~= seq![
            ("id"@, ValueModel::Str(id@)),
            ("kind"@, ValueModel::Str(self.kind@)),
            ("network"@, opt_value(opt_view(self.network))),
            ("name"@, ValueModel::Str(self.name@)),
            ("source"@, ValueModel::Str(id@ + "-source"@)),
            ("mapping"@, ValueModel::Str(id@ + "-mapping"@)),
        ]);
        push_op(store, "EthereumContractDataSource", &id, data);
        assert(ops_view(store@) =~= s0 + data_source_ops(*self, id@));
        id
    }
}

impl SubgraphManifestEntity {
    /// Appends the writes that record this manifest as `id`: each data source
    /// as `{id}-data-source-{i}`, then the manifest. Returns `id`.
    pub fn write_to_store(&self, store: &mut Vec<EntityOperation>, id: String) -> (r: String)
        ensures
            r@ == id@,
            ops_view(final(store)@) == ops_view(old(store)@) + manifest_ops(*self, id@),
    {
        let ghost s0 = ops_view(store@);
        let mut ds_ids: Vec<String> = Vec::new();
        let mut i: usize = 0;
        assert(strings_view(ds_ids@) =~= child_ids(id@, "-data-source-"@, 0));
        assert(ops_view(store@) =~= s0 + data_sources_ops(self.data_sources@, id@, 0));
        while i < self.data_sources.len()
            invariant
                i <= self.data_sources@.len(),
                ops_view(store@) == s0 + data_sources_ops(self.data_sources@, id@, i as nat),
                strings_view(ds_ids@) == child_ids(id@, "-data-source-"@, i as nat),
            decreases self.data_sources@.len() - i,
        {
            let ds_id = data_source_entity_id(id.as_str(), i);
            let written = self.data_sources[i].write_to_store(store, ds_id);
            let ghost before = ds_ids@;
            ds_ids.push(written);
            proof {
                lemma_child_ids_push(before, written, id@, "-data-source-"@, i as nat);
                assert(ops_view(store@) =~= s0 + data_sources_ops(self.data_sources@, id@, (i + 1) as nat));
            }
            i = i + 1;
        }
        let mut data: Vec<(String, Value)> = Vec::new();
        assert(data_view(data@) =~= seq![]);
        push_field(&mut data, "id", Value::String(id.clone()));
        push_field(&mut data, "specVersion", Value::String(self.spec_version.clone()));
        push_field(&mut data, "description", opt_field(&self.description));
        push_field(&mut data, "repository", opt_field(&self.repository));
        push_field(&mut data, "schema", Value::String(self.schema.clone()));
        push_field(&mut data, "dataSources", Value::List(ds_ids));
        assert(data_view(data@) =~= seq![
            ("id"@, ValueModel::Str(id@)),
            ("specVersion"@, ValueModel::Str(self.spec_version@)),
            ("description"@, opt_value(opt_view(self.description))),
            ("repository"@, opt_value(opt_view(self.repository))),
            ("schema"@, ValueModel::Str(self.schema@)),
            ("dataSources"@, ValueModel::List(child_ids(id@, "-data-source-"@, self.data_sources@.len()))),
        ]);
        push_op(store, "SubgraphManifest", &id, data);
        assert(ops_view(store@) =~= s0 + manifest_ops(*self, id@));
        id
    }
}

impl SubgraphEntity {
    /// Appends the writes that record this subgraph: its manifest as
    /// `{id}-manifest`, then the `Subgraph` entity.
    pub fn write_to_store(&self, store: &mut Vec<EntityOperation>)
        ensures
            ops_view(final(store)@) == ops_view(old(store)@) + subgraph_ops(*self),
    {
        let ghost s0 = ops_view(store@);
        let manifest_id = self.manifest.write_to_store(store, manifest_entity_id(self.id.as_str()));
        let mut data: Vec<(String, Value)> = Vec::new();
        assert(data_view(data@) =~= seq![]);
        push_field(&mut data, "id", Value::String(self.id.clone()));
        push_field(&mut data, "manifest", Value::String(manifest_id));
        push_field(&mut data, "createdAt", Value::BigInt(self.created_at));
        assert(data_view(data@) =~= seq![
            ("id"@, ValueModel::Str(self.id@)),
            ("manifest"@, ValueModel::Str(self.id@ + "-manifest"@)),
            ("createdAt"@, ValueModel::BigInt(self.created_at as nat)),
        ]);
        push_op(store, "Subgraph", &self.id, data);
        assert(ops_view(store@) =~= s0 + subgraph_ops(*self));
    }
}

} // verus!
