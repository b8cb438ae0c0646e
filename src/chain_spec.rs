//! Chain specification: descriptive metadata together with a genesis source.
use vstd::prelude::*;
use crate::genesis::{Genesis, GenesisSource, RuntimeGenesis};
use crate::storage::{RawGenesis, Storage, raw_from_storage, same_storage, storage_from_raw};

verus! {

/// Loosely typed chain properties: each key with the JSON text of its value.
pub type Properties = Vec<(String, String)>;

/// Telemetry endpoints: each URL with its verbosity level.
pub type TelemetryEndpoints = Vec<(String, u8)>;

/// The kind of a chain.
pub enum ChainType {
    Development,
    Local,
    Live,
    Custom(String),
}

impl Clone for ChainType {
    fn clone(&self) -> (r: Self)
        ensures
            r == *self,
    {
        match self {
            ChainType::Development => ChainType::Development,
            ChainType::Local => ChainType::Local,
            ChainType::Live => ChainType::Live,
            ChainType::Custom(s) => ChainType::Custom(s.clone()),
        }
    }
}

impl Default for ChainType {
    /// A chain whose document names no type is taken to be live.
    fn default() -> (r: Self)
        ensures
            r == ChainType::Live,
    {
        ChainType::Live
    }
}

/// Checkpoint data that lets a light client sync quickly: three values in their
/// canonical binary encoding, and the weight of the best finalized block.
pub struct SerializableLightSyncState {
    pub finalized_block_header: Vec<u8>,
    pub babe_epoch_changes: Vec<u8>,
    pub babe_finalized_block_weight: u32,
    pub grandpa_authority_set: Vec<u8>,
}

impl SerializableLightSyncState {
    pub open spec fn same_as(&self, o: &SerializableLightSyncState) -> bool {
        &&& self.finalized_block_header@ == o.finalized_block_header@
        &&& self.babe_epoch_changes@ == o.babe_epoch_changes@
        &&& self.babe_finalized_block_weight == o.babe_finalized_block_weight
        &&& self.grandpa_authority_set@ == o.grandpa_authority_set@
    }
}

impl Clone for SerializableLightSyncState {
    fn clone(&self) -> (r: Self)
        ensures
            r.same_as(self),
    {
        SerializableLightSyncState {
            finalized_block_header: self.finalized_block_header.clone(),
            babe_epoch_changes: self.babe_epoch_changes.clone(),
            babe_finalized_block_weight: self.babe_finalized_block_weight,
            grandpa_authority_set: self.grandpa_authority_set.clone(),
        }
    }
}

/// The configuration of a client, genesis storage aside.
pub struct ClientSpec<E> {
    pub name: String,
    pub id: String,
    pub chain_type: ChainType,
    /// Boot node addresses, each a multiaddress ending in a peer id.
    pub boot_nodes: Vec<String>,
    pub telemetry_endpoints: Option<TelemetryEndpoints>,
    pub protocol_id: Option<String>,
    pub properties: Option<Properties>,
    /// Further fields, defined by the user of the library.
    pub extensions: E,
    /// Accepted in documents and never read.
    pub consensus_engine: (),
    pub light_sync_state: Option<SerializableLightSyncState>,
}

pub open spec fn properties_view(p: Properties) -> Seq<(Seq<char>, Seq<char>)> {
    p@.map_values(|e: (String, String)| (e.0@, e.1@))
}

pub open spec fn telemetry_view(t: TelemetryEndpoints) -> Seq<(Seq<char>, u8)> {
    t@.map_values(|e: (String, u8)| (e.0@, e.1))
}

pub open spec fn strings_view(v: Seq<String>) -> Seq<Seq<char>> {
    v.map_values(|s: String| s@)
}

impl<E> ClientSpec<E> {
    /// Two configurations that hold the same metadata; the extensions are compared apart.
    pub open spec fn same_metadata(&self, o: &ClientSpec<E>) -> bool {
        &&& self.name@ == o.name@
        &&& self.id@ == o.id@
        &&& self.chain_type == o.chain_type
        &&& strings_view(self.boot_nodes@) == strings_view(o.boot_nodes@)
        &&& match (self.telemetry_endpoints, o.telemetry_endpoints) {
            (None, None) => true,
            (Some(a), Some(b)) => telemetry_view(a) == telemetry_view(b),
            _ => false,
        }
        &&& match (self.protocol_id, o.protocol_id) {
            (None, None) => true,
            (Some(a), Some(b)) => a@ == b@,
            _ => false,
        }
        &&& match (self.properties, o.properties) {
            (None, None) => true,
            (Some(a), Some(b)) => properties_view(a) == properties_view(b),
            _ => false,
        }
        &&& match (self.light_sync_state, o.light_sync_state) {
            (None, None) => true,
            (Some(a), Some(b)) => a.same_as(&b),
            _ => false,
        }
    }
}

fn copy_strings(v: &Vec<String>) -> (r: Vec<String>)
    ensures
        strings_view(r@) == strings_view(v@),
{
    let mut r: Vec<String> = Vec::new();
    let mut i: usize = 0;
    while i < v.len()
        invariant
            i <= v@.len(),
            r@.len() == i,
            forall|j: int| 0 <= j < i ==> (#[trigger] r@[j])@ == v@[j]@,
        decreases v@.len() - i,
    {
        r.push(v[i].clone());
        i = i + 1;
    }
    assert(strings_view(r@) =~= strings_view(v@));
    r
}

fn copy_properties(p: &Properties) -> (r: Properties)
    ensures
        properties_view(r) == properties_view(*p),
{
    let mut r: Properties = Vec::new();
    let mut i: usize = 0;
    while i < p.len()
        invariant
            i <= p@.len(),
            r@.len() == i,
            forall|j: int| 0 <= j < i ==> (#[trigger] r@[j]).0@ == p@[j].0@ && r@[j].1@ == p@[j].1@,
        decreases p@.len() - i,
    {
        r.push((p[i].0.clone(), p[i].1.clone()));
        i = i + 1;
    }
    assert(properties_view(r) =~= properties_view(*p));
    r
}

fn copy_telemetry(t: &TelemetryEndpoints) -> (r: TelemetryEndpoints)
    ensures
        telemetry_view(r) == telemetry_view(*t),
{
    let mut r: TelemetryEndpoints = Vec::new();
    let mut i: usize = 0;
    while i < t.len()
        invariant
            i <= t@.len(),
            r@.len() == i,
            forall|j: int| 0 <= j < i ==> (#[trigger] r@[j]).0@ == t@[j].0@ && r@[j].1 == t@[j].1,
        decreases t@.len() - i,
    {
        r.push((t[i].0.clone(), t[i].1));
        i = i + 1;
    }
    assert(telemetry_view(r) =~= telemetry_view(*t));
    r
}

impl<E: Clone> Clone for ClientSpec<E> {
    fn clone(&self) -> (r: Self)
        ensures
            r.same_metadata(self),
            cloned::<E>(self.extensions, r.extensions),
    {
        ClientSpec {
            name: self.name.clone(),
            id: self.id.clone(),
            chain_type: self.chain_type.clone(),
            boot_nodes: copy_strings(&self.boot_nodes),
            telemetry_endpoints: match &self.telemetry_endpoints {
                Some(t) => Some(copy_telemetry(t)),
                None => None,
            },
            protocol_id: match &self.protocol_id {
                Some(p) => Some(p.clone()),
                None => None,
            },
            properties: match &self.properties {
                Some(p) => Some(copy_properties(p)),
                None => None,
            },
            extensions: self.extensions.clone(),
            consensus_engine: (),
            light_sync_state: match &self.light_sync_state {
                Some(l) => Some(l.clone()),
                None => None,
            },
        }
    }
}

/// A configuration of a chain, from which its genesis block can be built.
pub struct ChainSpec<G, E> {
    pub client_spec: ClientSpec<E>,
    pub genesis: GenesisSource<G>,
}

impl<G: Clone, E: Clone> Clone for ChainSpec<G, E> {
    fn clone(&self) -> (r: Self)
        ensures
            r.client_spec.same_metadata(&self.client_spec),
            cloned::<E>(self.client_spec.extensions, r.client_spec.extensions),
            match (self.genesis, r.genesis) {
                (GenesisSource::File(a), GenesisSource::File(b)) => a@ == b@,
                (GenesisSource::Binary(a), GenesisSource::Binary(b)) => a@ == b@,
                (GenesisSource::Factory(a), GenesisSource::Factory(b)) => cloned::<G>(a, b),
                (GenesisSource::Storage(a), GenesisSource::Storage(b)) => same_storage(a, b),
                _ => false,
            },
    {
        ChainSpec { client_spec: self.client_spec.clone(), genesis: self.genesis.clone() }
    }
}

/// A chain specification as it is written out: the metadata beside the genesis.
pub struct JsonContainer<G, E> {
    pub client_spec: ClientSpec<E>,
    pub genesis: Genesis<G>,
}

} // verus!

verus! {

/// The storage tree of a resolved genesis. A typed genesis builds its own storage, and
/// its result is handed on unchanged; a raw genesis becomes a tree entry for entry, each
/// child mapping a partition under the default child information of its key.
pub fn storage_of_genesis<G: RuntimeGenesis>(genesis: Genesis<G>) -> (r: Result<Storage, String>)
    ensures
        genesis is Raw ==> r is Ok && r->Ok_0.top_view() == genesis->Raw_0.top_view()
            && r->Ok_0.children_view() == genesis->Raw_0.children_view()
            && r->Ok_0.default_child_infos()
            && (genesis->Raw_0.wf() ==> r->Ok_0.wf()),
        genesis is Runtime ==> r == genesis->Runtime_0.built(),
{
    match genesis {
        Genesis::Runtime(g) => g.build_storage(),
        Genesis::Raw(raw) => Ok(storage_from_raw(raw)),
    }
}

impl<G, E> ChainSpec<G, E> {
    /// Boot node addresses.
    pub fn boot_nodes(&self) -> (r: &[String])
        ensures
            r@ == self.client_spec.boot_nodes@,
    {
        self.client_spec.boot_nodes.as_slice()
    }

    /// Spec name.
    pub fn name(&self) -> (r: &str)
        ensures
            r@ == self.client_spec.name@,
    {
        self.client_spec.name.as_str()
    }

    /// Spec id.
    pub fn id(&self) -> (r: &str)
        ensures
            r@ == self.client_spec.id@,
    {
        self.client_spec.id.as_str()
    }

    /// Telemetry endpoints, if any.
    pub fn telemetry_endpoints(&self) -> (r: &Option<TelemetryEndpoints>)
        ensures
            *r == self.client_spec.telemetry_endpoints,
    {
        &self.client_spec.telemetry_endpoints
    }

    /// Network protocol id.
    pub fn protocol_id(&self) -> (r: Option<&str>)
        ensures
            match (r, self.client_spec.protocol_id) {
                (None, None) => true,
                (Some(a), Some(b)) => a@ == b@,
                _ => false,
            },
    {
        match &self.client_spec.protocol_id {
            Some(p) => Some(p.as_str()),
            None => None,
        }
    }

    /// Additional loosely typed properties of the chain; empty where none were given.
    pub fn properties(&self) -> (r: Properties)
        ensures
            properties_view(r) == match self.client_spec.properties {
                Some(p) => properties_view(p),
                None => Seq::empty(),
            },
    {
        match &self.client_spec.properties {
            Some(p) => copy_properties(p),
            None => {
                let r: Properties = Vec::new();
                assert(properties_view(r) =~= Seq::empty());
                r
            },
        }
    }

    /// Appends a boot node to the list; nothing else changes.
    pub fn add_boot_node(&mut self, addr: String)
        ensures
            final(self).client_spec.boot_nodes@ == old(self).client_spec.boot_nodes@.push(addr),
            final(self).client_spec.name == old(self).client_spec.name,
            final(self).client_spec.id == old(self).client_spec.id,
            final(self).client_spec.chain_type == old(self).client_spec.chain_type,
            final(self).client_spec.telemetry_endpoints == old(self).client_spec.telemetry_endpoints,
            final(self).client_spec.protocol_id == old(self).client_spec.protocol_id,
            final(self).client_spec.properties == old(self).client_spec.properties,
            final(self).client_spec.extensions == old(self).client_spec.extensions,
            final(self).client_spec.light_sync_state == old(self).client_spec.light_sync_state,
            final(self).genesis == old(self).genesis,
    {
        self.client_spec.boot_nodes.push(addr);
    }

    /// The user-defined extensions.
    pub fn extensions(&self) -> (r: &E)
        ensures
            *r == self.client_spec.extensions,
    {
        &self.client_spec.extensions
    }

    /// A hardcoded spec: the metadata as given, no light-sync checkpoint, and a genesis
    /// that comes from the typed value handed over.
    pub fn from_genesis(
        name: &str,
        id: &str,
        chain_type: ChainType,
        constructor: G,
        boot_nodes: Vec<String>,
        telemetry_endpoints: Option<TelemetryEndpoints>,
        protocol_id: Option<&str>,
        properties: Option<Properties>,
        extensions: E,
    ) -> (r: Self)
        ensures
            r.client_spec.name@ == name@,
            r.client_spec.id@ == id@,
            r.client_spec.chain_type == chain_type,
            r.client_spec.boot_nodes == boot_nodes,
            r.client_spec.telemetry_endpoints == telemetry_endpoints,
            match (r.client_spec.protocol_id, protocol_id) {
                (None, None) => true,
                (Some(a), Some(b)) => a@ == b@,
                _ => false,
            },
            r.client_spec.properties == properties,
            r.client_spec.extensions == extensions,
            r.client_spec.light_sync_state is None,
            r.genesis == GenesisSource::<G>::Factory(constructor),
    {
        let client_spec = ClientSpec {
            name: name.to_owned(),
            id: id.to_owned(),
            chain_type,
            boot_nodes,
            telemetry_endpoints,
            protocol_id: match protocol_id {
                Some(p) => Some(p.to_owned()),
                None => None,
            },
            properties,
            extensions,
            consensus_engine: (),
            light_sync_state: None,
        };
        ChainSpec { client_spec, genesis: GenesisSource::Factory(constructor) }
    }

    /// The type of the chain.
    pub fn chain_type(&self) -> (r: ChainType)
        ensures
            r == self.client_spec.chain_type,
    {
        self.client_spec.chain_type.clone()
    }

    /// Records a light-sync checkpoint in the spec; nothing else changes.
    pub fn set_light_sync_state(&mut self, light_sync_state: SerializableLightSyncState)
        ensures
            final(self).client_spec.light_sync_state == Some(light_sync_state),
            final(self).client_spec.boot_nodes == old(self).client_spec.boot_nodes,
            final(self).client_spec.name == old(self).client_spec.name,
            final(self).client_spec.id == old(self).client_spec.id,
            final(self).client_spec.chain_type == old(self).client_spec.chain_type,
            final(self).client_spec.telemetry_endpoints == old(self).client_spec.telemetry_endpoints,
            final(self).client_spec.protocol_id == old(self).client_spec.protocol_id,
            final(self).client_spec.properties == old(self).client_spec.properties,
            final(self).client_spec.extensions == old(self).client_spec.extensions,
            final(self).genesis == old(self).genesis,
    {
        self.client_spec.light_sync_state = Some(light_sync_state);
    }

    /// The light-sync checkpoint, if one was recorded.
    pub fn get_light_sync_state(&self) -> (r: Option<&SerializableLightSyncState>)
        ensures
            match (r, self.client_spec.light_sync_state) {
                (None, None) => true,
                (Some(a), Some(b)) => *a == b,
                _ => false,
            },
    {
        match &self.client_spec.light_sync_state {
            Some(l) => Some(l),
            None => None,
        }
    }

    /// Replaces the genesis with a storage tree computed earlier; the metadata stays.
    pub fn set_storage(&mut self, storage: Storage)
        ensures
            final(self).genesis == GenesisSource::<G>::Storage(storage),
            final(self).client_spec == old(self).client_spec,
    {
        self.genesis = GenesisSource::Storage(storage);
    }

    /// Merging genesis into an existing storage is not offered: this always fails with
    /// the same message and leaves `storage` as it was.
    pub fn assimilate_storage(&self, storage: &mut Storage) -> (r: Result<(), String>)
        ensures
            r is Err,
            r->Err_0@ == "`assimilate_storage` not implemented for `ChainSpec`."@,
            *final(storage) == *old(storage),
    {
        Err("`assimilate_storage` not implemented for `ChainSpec`.".to_owned())
    }
}

} // verus!

verus! {

/// The genesis that a dump writes without building anything: all but a typed genesis
/// dumped raw, which must first be built into storage.
pub open spec fn dumped_genesis<G>(raw: bool, genesis: Genesis<G>) -> Option<Genesis<G>> {
    if raw && genesis is Runtime {
        None
    } else {
        Some(genesis)
    }
}

impl<G: RuntimeGenesis + Clone, E: Clone> ChainSpec<G, E> {
    /// Resolves the genesis source of this spec (see `GenesisSource::resolve`).
    pub fn resolve_genesis(&self) -> (r: crate::genesis::Resolution<G>)
        ensures
            match (self.genesis, r) {
                (GenesisSource::File(p), crate::genesis::Resolution::ReadFile(q)) => p@ == q@,
                (GenesisSource::Binary(b), crate::genesis::Resolution::Parse(c)) => b@ == c@,
                (
                    GenesisSource::Factory(f),
                    crate::genesis::Resolution::Ready(Genesis::Runtime(g)),
                ) => cloned::<G>(f, g),
                (
                    GenesisSource::Storage(s),
                    crate::genesis::Resolution::Ready(Genesis::Raw(raw)),
                ) => raw.top_view() == s.top_view() && raw.children_view() == s.children_view() && (s.wf()
                    ==> raw.wf()),
                _ => false,
            },
    {
        self.genesis.resolve()
    }

    /// Builds the genesis storage where no document has to be read first: a typed genesis
    /// builds its own storage, and a stored tree is rebuilt from its raw form. `None`
    /// where the genesis sits in a JSON document that is still to be read or parsed.
    pub fn build_storage(&self) -> (r: Option<Result<Storage, String>>)
        ensures
            (self.genesis is File || self.genesis is Binary) <==> r is None,
            self.genesis is Factory ==> exists|g: G|
                cloned::<G>(self.genesis->Factory_0, g) && r == Some(#[trigger] g.built()),
            self.genesis is Storage ==> r is Some && r->Some_0 is Ok && ({
                let st = self.genesis->Storage_0;
                let b = r->Some_0->Ok_0;
                &&& b.top_view() == st.top_view()
                &&& b.children_view() == st.children_view()
                &&& b.default_child_infos()
                &&& st.default_child_infos() ==> same_storage(st, b)
                &&& st.wf() ==> b.wf()
            }),
    {
        match self.genesis.resolve() {
            crate::genesis::Resolution::Ready(Genesis::Runtime(g)) => {
                let built = g.build_storage();
                assert(cloned::<G>(self.genesis->Factory_0, g) && Some(built) == Some(g.built()));
                Some(built)
            },
            crate::genesis::Resolution::Ready(Genesis::Raw(raw)) => {
                let ghost resolved = raw;
                let b = storage_from_raw(raw);
                proof {
                    if self.genesis->Storage_0.default_child_infos() {
                        lemma_storage_round_trip(self.genesis->Storage_0, resolved, b);
                    }
                }
                Some(Ok(b))
            },
            _ => None,
        }
    }

    /// The container to dump when a typed genesis was built into `built`: the metadata
    /// of this spec beside the raw form of the storage, or the build's error unchanged.
    pub fn raw_container(&self, built: Result<Storage, String>) -> (r: Result<JsonContainer<G, E>, String>)
        ensures
            match built {
                Ok(s) => r is Ok && r->Ok_0.genesis is Raw
                    && r->Ok_0.genesis->Raw_0.top_view() == s.top_view()
                    && r->Ok_0.genesis->Raw_0.children_view() == s.children_view()
                    && r->Ok_0.client_spec.same_metadata(&self.client_spec)
                    && cloned::<E>(self.client_spec.extensions, r->Ok_0.client_spec.extensions),
                Err(e) => r == Err::<JsonContainer<G, E>, String>(e),
            },
    {
        match built {
            Ok(storage) => Ok(JsonContainer {
                client_spec: self.client_spec.clone(),
                genesis: Genesis::Raw(raw_from_storage(&storage)),
            }),
            Err(e) => Err(e),
        }
    }

    /// The container to dump for the resolved `genesis`. With `raw` set, a typed genesis
    /// is built into storage and written in raw form; otherwise the genesis is written
    /// as it was resolved.
    pub fn json_container(&self, raw: bool, genesis: Genesis<G>) -> (r: Result<JsonContainer<G, E>, String>)
        ensures
            dumped_genesis(raw, genesis) is Some ==> r is Ok && r->Ok_0.genesis == dumped_genesis(
                raw,
                genesis,
            )->Some_0,
            dumped_genesis(raw, genesis) is None ==> match genesis->Runtime_0.built() {
                Ok(st) => r is Ok && r->Ok_0.genesis is Raw && r->Ok_0.genesis->Raw_0.top_view()
                    == st.top_view() && r->Ok_0.genesis->Raw_0.children_view() == st.children_view(),
                Err(e) => r == Err::<JsonContainer<G, E>, String>(e),
            },
            r is Ok ==> r->Ok_0.client_spec.same_metadata(&self.client_spec) && cloned::<E>(
                self.client_spec.extensions,
                r->Ok_0.client_spec.extensions,
            ),
    {
        match genesis {
            Genesis::Runtime(g) => {
                if raw {
                    let built = g.build_storage();
                    self.raw_container(built)
                } else {
                    Ok(JsonContainer { client_spec: self.client_spec.clone(), genesis: Genesis::Runtime(g) })
                }
            },
            Genesis::Raw(r) => Ok(JsonContainer { client_spec: self.client_spec.clone(), genesis: Genesis::Raw(r) }),
        }
    }
}

/// A genesis that is raw already is dumped the same way whether a raw dump is asked
/// for or not.
pub proof fn lemma_raw_dump_idempotent<G>(raw: RawGenesis)
    ensures
        dumped_genesis(true, Genesis::<G>::Raw(raw)) == dumped_genesis(false, Genesis::<G>::Raw(raw)),
        dumped_genesis(true, Genesis::<G>::Raw(raw)) == Some(Genesis::<G>::Raw(raw)),
{
}

/// A storage tree whose children carry the default child information of their keys,
/// turned into a raw genesis by resolving a storage source and built again, is the
/// tree it started from.
pub proof fn lemma_storage_round_trip(initial: Storage, resolved: RawGenesis, rebuilt: Storage)
    requires
        initial.default_child_infos(),
        resolved.top_view() == initial.top_view(),
        resolved.children_view() == initial.children_view(),
        rebuilt.top_view() == resolved.top_view(),
        rebuilt.children_view() == resolved.children_view(),
        rebuilt.default_child_infos(),
    ensures
        same_storage(initial, rebuilt),
{
    assert forall|i: int| 0 <= i < initial.children_default@.len() implies
        (#[trigger] initial.children_default@[i]).1.child_info.key_view()
            == rebuilt.children_default@[i].1.child_info.key_view() by {
        assert(rebuilt.children_view().len() == rebuilt.children_default@.len());
        assert(initial.children_view().len() == initial.children_default@.len());
        assert(rebuilt.children_view()[i].0 == rebuilt.children_default@[i].0@);
        assert(initial.children_view()[i].0 == initial.children_default@[i].0@);
    }
}

} // verus!
