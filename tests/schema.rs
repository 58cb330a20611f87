use subgraph_names::schema::{
    abi_entity_id, data_source_entity_id, event_handler_entity_id, manifest_entity_id,
    mapping_entity_id, source_entity_id, DataSource, Mapping, MappingABI, MappingEventHandler,
    EntityOperation, Source, SubgraphEntity, SubgraphManifest, Value, EVENT_SOURCE, SUBGRAPHS_ID,
};

fn s(x: &str) -> String {
    x.to_string()
}

fn manifest() -> SubgraphManifest {
    SubgraphManifest {
        id: s("Qm1"),
        spec_version: s("0.0.1"),
        description: Some(s("desc")),
        repository: None,
        schema: s("type A { id: ID! }"),
        data_sources: vec![DataSource {
            kind: s("ethereum/contract"),
            network: Some(s("mainnet")),
            name: s("Token"),
            source: Source { address: s("0x22"), abi: s("Token") },
            mapping: Mapping {
                kind: s("ethereum/events"),
                api_version: s("0.0.1"),
                language: s("wasm/assemblyscript"),
                link: s("/ipfs/QmMapping"),
                entities: vec![s("A"), s("B")],
                abis: vec![MappingABI { name: s("Token"), link: s("/ipfs/QmAbi") }],
                event_handlers: vec![MappingEventHandler {
                    event: s("Transfer(address,address,uint256)"),
                    handler: s("handleTransfer"),
                }],
            },
        }],
    }
}

#[test]
fn subgraph_entity_records_manifest() {
    let e = SubgraphEntity::new(&manifest(), 42);
    assert_eq!(e.id, "Qm1");
    assert_eq!(e.created_at, 42);
    assert_eq!(e.manifest.spec_version, "0.0.1");
    assert_eq!(e.manifest.description, Some(s("desc")));
    assert_eq!(e.manifest.repository, None);
    assert_eq!(e.manifest.data_sources.len(), 1);
    let ds = &e.manifest.data_sources[0];
    assert_eq!(ds.network, Some(s("mainnet")));
    assert_eq!(ds.source.address, "0x22");
    assert_eq!(ds.mapping.file, "/ipfs/QmMapping");
    assert_eq!(ds.mapping.entities, vec![s("A"), s("B")]);
    assert_eq!(ds.mapping.abis[0].file, "/ipfs/QmAbi");
    assert_eq!(ds.mapping.event_handlers[0].handler, "handleTransfer");
}

#[test]
fn child_entity_ids() {
    let m = manifest_entity_id("Qm1");
    assert_eq!(m, "Qm1-manifest");
    let d = data_source_entity_id(&m, 0);
    assert_eq!(d, "Qm1-manifest-data-source-0");
    assert_eq!(source_entity_id(&d), "Qm1-manifest-data-source-0-source");
    let map = mapping_entity_id(&d);
    assert_eq!(map, "Qm1-manifest-data-source-0-mapping");
    assert_eq!(abi_entity_id(&map, 12), "Qm1-manifest-data-source-0-mapping-abi-12");
    assert_eq!(event_handler_entity_id(&map, 3), "Qm1-manifest-data-source-0-mapping-event-handler-3");
}

fn field<'a>(op: &'a EntityOperation, key: &str) -> &'a Value {
    &op.data.iter().find(|(k, _)| k == key).expect("field present").1
}

fn string(v: &Value) -> String {
    match v {
        Value::String(s) => s.clone(),
        other => panic!("not a string: {:?}", other),
    }
}

fn list(v: &Value) -> Vec<String> {
    match v {
        Value::List(l) => l.clone(),
        other => panic!("not a list: {:?}", other),
    }
}

#[test]
fn subgraph_is_written_children_first() {
    let mut ops: Vec<EntityOperation> = Vec::new();
    SubgraphEntity::new(&manifest(), 42).write_to_store(&mut ops);
    let keys: Vec<(String, String)> = ops
        .iter()
        .map(|o| (o.entity_type.clone(), o.entity_id.clone()))
        .collect();
    let d = "Qm1-manifest-data-source-0";
    assert_eq!(
        keys,
        vec![
            (s("EthereumContractSource"), format!("{}-source", d)),
            (s("EthereumContractAbi"), format!("{}-mapping-abi-0", d)),
            (s("EthereumContractEventHandler"), format!("{}-mapping-event-handler-0", d)),
            (s("EthereumContractMapping"), format!("{}-mapping", d)),
            (s("EthereumContractDataSource"), s(d)),
            (s("SubgraphManifest"), s("Qm1-manifest")),
            (s("Subgraph"), s("Qm1")),
        ]
    );
    for op in &ops {
        assert_eq!(op.subgraph_id, SUBGRAPHS_ID);
        assert_eq!(op.subgraph_id, "subgraphs");
        assert_eq!(op.event_source, EVENT_SOURCE);
        assert_eq!(op.event_source, "subgraph-added");
        assert_eq!(string(field(op, "id")), op.entity_id);
    }
    let subgraph = &ops[6];
    assert_eq!(string(field(subgraph, "manifest")), "Qm1-manifest");
    assert!(matches!(field(subgraph, "createdAt"), Value::BigInt(42)));
    let manifest_op = &ops[5];
    assert_eq!(list(field(manifest_op, "dataSources")), vec![s(d)]);
    assert!(matches!(field(manifest_op, "repository"), Value::Null));
    assert_eq!(string(field(manifest_op, "description")), "desc");
    assert_eq!(string(field(manifest_op, "specVersion")), "0.0.1");
    let mapping_op = &ops[3];
    assert_eq!(list(field(mapping_op, "entities")), vec![s("A"), s("B")]);
    assert_eq!(list(field(mapping_op, "abis")), vec![format!("{}-mapping-abi-0", d)]);
    assert_eq!(
        list(field(mapping_op, "eventHandlers")),
        vec![format!("{}-mapping-event-handler-0", d)]
    );
    assert_eq!(string(field(mapping_op, "apiVersion")), "0.0.1");
    let ds_op = &ops[4];
    assert_eq!(string(field(ds_op, "network")), "mainnet");
    assert_eq!(string(field(ds_op, "source")), format!("{}-source", d));
    assert_eq!(string(field(ds_op, "mapping")), format!("{}-mapping", d));
    assert_eq!(string(field(&ops[0], "address")), "0x22");
    assert_eq!(string(field(&ops[1], "file")), "/ipfs/QmAbi");
    assert_eq!(string(field(&ops[2], "event")), "Transfer(address,address,uint256)");
}

#[test]
fn manifest_without_data_sources_writes_two_entities() {
    let mut m = manifest();
    m.data_sources.clear();
    let mut ops: Vec<EntityOperation> = Vec::new();
    SubgraphEntity::new(&m, 0).write_to_store(&mut ops);
    assert_eq!(ops.len(), 2);
    assert!(list(field(&ops[0], "dataSources")).is_empty());
}
