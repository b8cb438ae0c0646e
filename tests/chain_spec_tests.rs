use chain_spec::chain_spec::{storage_of_genesis, ChainSpec, ChainType, SerializableLightSyncState};
use chain_spec::genesis::{Genesis, GenesisSource, Resolution, RuntimeGenesis};
use chain_spec::storage::{raw_from_storage, storage_from_raw, ChildInfo, RawGenesis, Storage, StorageChild};

#[derive(Clone, Debug)]
struct TestGenesis(Vec<(String, String)>);

impl RuntimeGenesis for TestGenesis {
    fn build_storage(&self) -> Result<Storage, String> {
        self.built()
    }

    fn built(&self) -> Result<Storage, String> {
        let mut top = Vec::new();
        for (a, b) in &self.0 {
            top.push((a.clone().into_bytes(), b.clone().into_bytes()));
        }
        let child_key = b"child".to_vec();
        let children_default = vec![(
            child_key.clone(),
            StorageChild { data: vec![(vec![1], vec![2, 3])], child_info: ChildInfo::new_default(&child_key) },
        )];
        Ok(Storage { top, children_default })
    }
}

#[derive(Clone, Debug)]
struct FailingGenesis;

impl RuntimeGenesis for FailingGenesis {
    fn build_storage(&self) -> Result<Storage, String> {
        self.built()
    }

    fn built(&self) -> Result<Storage, String> {
        Err("cannot build".to_string())
    }
}

fn test_spec(genesis: TestGenesis) -> ChainSpec<TestGenesis, Option<()>> {
    ChainSpec::from_genesis(
        "Test",
        "test",
        ChainType::Local,
        genesis,
        vec!["/ip4/127.0.0.1/tcp/30333/p2p/QmPeer".to_string()],
        Some(vec![("wss://telemetry.example/submit".to_string(), 0)]),
        Some("tst"),
        None,
        None,
    )
}

fn sample_storage() -> Storage {
    let k1 = b":child_storage:default:a".to_vec();
    let k2 = b":child_storage:default:b".to_vec();
    Storage {
        top: vec![(vec![0x12, 0x34], vec![0xab, 0xcd]), (vec![0x01], vec![])],
        children_default: vec![
            (k1.clone(), StorageChild { data: vec![(vec![9], vec![8])], child_info: ChildInfo::new_default(&k1) }),
            (k2.clone(), StorageChild { data: vec![], child_info: ChildInfo::new_default(&k2) }),
        ],
    }
}

#[test]
fn raw_document_builds_single_top_entry() {
    let raw = RawGenesis { top: vec![(vec![0x12, 0x34], vec![0xab, 0xcd])], children_default: vec![] };
    let mut spec = test_spec(TestGenesis(vec![]));
    spec.client_spec.properties = Some(vec![]);
    assert_eq!(spec.id(), "test");
    assert!(spec.properties().is_empty());
    let storage = storage_of_genesis::<TestGenesis>(Genesis::Raw(raw)).unwrap();
    assert_eq!(storage.top, vec![(vec![0x12, 0x34], vec![0xab, 0xcd])]);
    assert!(storage.children_default.is_empty());
}

#[test]
fn properties_default_to_empty() {
    let spec = test_spec(TestGenesis(vec![]));
    assert!(spec.properties().is_empty());
    let mut spec2 = test_spec(TestGenesis(vec![]));
    spec2.client_spec.properties = Some(vec![("tokenSymbol".to_string(), "\"DOT\"".to_string())]);
    assert_eq!(spec2.properties(), vec![("tokenSymbol".to_string(), "\"DOT\"".to_string())]);
}

#[test]
fn hardcoded_spec_accessors() {
    let spec = test_spec(TestGenesis(vec![]));
    assert_eq!(spec.name(), "Test");
    assert_eq!(spec.id(), "test");
    assert!(matches!(spec.chain_type(), ChainType::Local));
    assert_eq!(spec.boot_nodes().len(), 1);
    assert_eq!(spec.protocol_id(), Some("tst"));
    assert_eq!(spec.telemetry_endpoints().as_ref().unwrap()[0].1, 0);
    assert_eq!(*spec.extensions(), None);
    assert!(spec.get_light_sync_state().is_none());
}

#[test]
fn chain_type_defaults_to_live() {
    assert!(matches!(ChainType::default(), ChainType::Live));
}

#[test]
fn add_boot_node_appends() {
    let mut spec = test_spec(TestGenesis(vec![]));
    spec.add_boot_node("/dns/boot.example/tcp/30333/p2p/QmOther".to_string());
    assert_eq!(spec.boot_nodes().len(), 2);
    assert_eq!(spec.boot_nodes()[1], "/dns/boot.example/tcp/30333/p2p/QmOther");
    assert_eq!(spec.name(), "Test");
}

#[test]
fn light_sync_state_is_recorded() {
    let mut spec = test_spec(TestGenesis(vec![]));
    let state = SerializableLightSyncState {
        finalized_block_header: vec![1, 2],
        babe_epoch_changes: vec![3],
        babe_finalized_block_weight: 7,
        grandpa_authority_set: vec![],
    };
    spec.set_light_sync_state(state);
    let got = spec.get_light_sync_state().unwrap();
    assert_eq!(got.finalized_block_header, vec![1, 2]);
    assert_eq!(got.babe_finalized_block_weight, 7);
    assert_eq!(spec.id(), "test");
}

#[test]
fn storage_source_round_trip() {
    let initial = sample_storage();
    let mut spec = test_spec(TestGenesis(vec![]));
    spec.set_storage(initial.clone());
    let genesis = match spec.resolve_genesis() {
        Resolution::Ready(g) => g,
        _ => panic!("a storage source resolves without outside work"),
    };
    assert!(matches!(genesis, Genesis::Raw(_)));
    let rebuilt = storage_of_genesis(genesis).unwrap();
    assert_eq!(rebuilt, initial);
}

#[test]
fn raw_form_drops_child_info_and_keeps_entries() {
    let raw = raw_from_storage(&sample_storage());
    assert_eq!(raw.top, sample_storage().top);
    assert_eq!(raw.children_default.len(), 2);
    assert_eq!(raw.children_default[0].1, vec![(vec![9], vec![8])]);
    let back = storage_from_raw(raw);
    assert_eq!(back.children_default[1].1.child_info, ChildInfo::ParentKeyId(b":child_storage:default:b".to_vec()));
}

#[test]
fn raw_dump_of_raw_genesis_is_unchanged() {
    let spec = test_spec(TestGenesis(vec![]));
    let raw = raw_from_storage(&sample_storage());
    let a = spec.json_container(true, Genesis::Raw(raw.clone())).unwrap();
    let b = spec.json_container(false, Genesis::Raw(raw.clone())).unwrap();
    match (a.genesis, b.genesis) {
        (Genesis::Raw(x), Genesis::Raw(y)) => {
            assert_eq!(x, y);
            assert_eq!(x, raw);
        },
        _ => panic!("raw genesis must stay raw"),
    }
    assert_eq!(a.client_spec.name, "Test");
}

#[test]
fn raw_dump_of_runtime_genesis_matches_build() {
    let g = TestGenesis(vec![("a".to_string(), "b".to_string())]);
    let spec = test_spec(g.clone());
    let built = storage_of_genesis(Genesis::Runtime(g.clone())).unwrap();
    let dumped = spec.json_container(true, Genesis::Runtime(g.clone())).unwrap();
    match dumped.genesis {
        Genesis::Raw(raw) => {
            assert_eq!(raw.top, built.top);
            assert_eq!(raw.top, vec![(b"a".to_vec(), b"b".to_vec())]);
            assert_eq!(raw.children_default, vec![(b"child".to_vec(), vec![(vec![1], vec![2, 3])])]);
        },
        _ => panic!("a raw dump writes raw genesis"),
    }
    let plain = spec.json_container(false, Genesis::Runtime(g)).unwrap();
    assert!(matches!(plain.genesis, Genesis::Runtime(_)));
}

#[test]
fn raw_dump_passes_build_error_on() {
    let spec: ChainSpec<FailingGenesis, Option<()>> = ChainSpec::from_genesis(
        "F", "f", ChainType::Development, FailingGenesis, vec![], None, None, None, None,
    );
    let r = spec.json_container(true, Genesis::Runtime(FailingGenesis));
    assert_eq!(r.err(), Some("cannot build".to_string()));
    assert_eq!(storage_of_genesis(Genesis::Runtime(FailingGenesis)).err(), Some("cannot build".to_string()));
}

#[test]
fn assimilate_storage_always_fails() {
    let spec = test_spec(TestGenesis(vec![]));
    let mut storage = sample_storage();
    let r = spec.assimilate_storage(&mut storage);
    assert_eq!(r, Err("`assimilate_storage` not implemented for `ChainSpec`.".to_string()));
    assert_eq!(storage, sample_storage());
}

#[test]
fn factory_source_resolves_to_copies() {
    let spec = test_spec(TestGenesis(vec![("k".to_string(), "v".to_string())]));
    for _ in 0..2 {
        match spec.resolve_genesis() {
            Resolution::Ready(Genesis::Runtime(g)) => assert_eq!(g.0, vec![("k".to_string(), "v".to_string())]),
            _ => panic!("a factory source yields a typed genesis"),
        }
    }
    let copy = spec.genesis.clone();
    assert!(matches!(copy, GenesisSource::Factory(_)));
}

#[test]
fn document_sources_ask_for_outside_work() {
    let file: GenesisSource<TestGenesis> = GenesisSource::File("spec.json".to_string());
    assert!(matches!(file.resolve(), Resolution::ReadFile(p) if p == "spec.json"));
    let bytes: GenesisSource<TestGenesis> = GenesisSource::Binary(b"{}".to_vec());
    assert!(matches!(bytes.resolve(), Resolution::Parse(b) if b == b"{}".to_vec()));
}

#[test]
fn build_storage_rebuilds_a_stored_tree() {
    let mut spec = test_spec(TestGenesis(vec![]));
    spec.set_storage(sample_storage());
    assert_eq!(spec.build_storage(), Some(Ok(sample_storage())));
}

#[test]
fn build_storage_of_factory_is_what_the_genesis_builds() {
    let g = TestGenesis(vec![("x".to_string(), "y".to_string())]);
    let spec = test_spec(g.clone());
    assert_eq!(spec.build_storage(), Some(g.build_storage()));
    let failing: ChainSpec<FailingGenesis, Option<()>> = ChainSpec::from_genesis(
        "F", "f", ChainType::Live, FailingGenesis, vec![], None, None, None, None,
    );
    assert_eq!(failing.build_storage(), Some(Err("cannot build".to_string())));
}

#[test]
fn build_storage_of_document_waits_for_parsing() {
    let mut spec = test_spec(TestGenesis(vec![]));
    spec.genesis = GenesisSource::Binary(b"{\"genesis\":{}}".to_vec());
    assert_eq!(spec.build_storage(), None);
    spec.genesis = GenesisSource::File("spec.json".to_string());
    assert_eq!(spec.build_storage(), None);
}

#[test]
fn setting_light_sync_state_keeps_metadata() {
    let mut spec = test_spec(TestGenesis(vec![]));
    spec.set_light_sync_state(SerializableLightSyncState {
        finalized_block_header: vec![],
        babe_epoch_changes: vec![],
        babe_finalized_block_weight: 1,
        grandpa_authority_set: vec![],
    });
    assert!(matches!(spec.chain_type(), ChainType::Local));
    assert_eq!(spec.protocol_id(), Some("tst"));
    assert_eq!(spec.telemetry_endpoints().as_ref().map(|t| t.len()), Some(1));
    assert!(spec.properties().is_empty());
}

#[test]
fn clone_keeps_child_info() {
    let mut storage = sample_storage();
    storage.children_default[0].1.child_info = ChildInfo::ParentKeyId(b"elsewhere".to_vec());
    let mut spec = test_spec(TestGenesis(vec![]));
    spec.set_storage(storage.clone());
    let copy = spec.clone();
    match copy.genesis {
        GenesisSource::Storage(s) => assert_eq!(s, storage),
        _ => panic!("a clone keeps the kind of source"),
    }
    assert_eq!(copy.client_spec.name, "Test");
}
