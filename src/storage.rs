//! Genesis storage: the key/value tree a node starts from, and its raw form.
use vstd::prelude::*;

verus! {

/// One key/value pair of a storage mapping.
pub type StorageEntry = (Vec<u8>, Vec<u8>);

/// A storage mapping, held as pairs whose keys are pairwise distinct.
pub type StorageMap = Vec<StorageEntry>;

/// The entries of a mapping, as byte sequences.
pub open spec fn entries_view(m: Seq<StorageEntry>) -> Seq<(Seq<u8>, Seq<u8>)> {
    m.map_values(|e: StorageEntry| (e.0@, e.1@))
}

/// No key occurs twice.
pub open spec fn keys_unique<V>(m: Seq<(Seq<u8>, V)>) -> bool {
    forall|i: int, j: int|
        0 <= i < m.len() && 0 <= j < m.len() && i != j ==> #[trigger] m[i].0 != #[trigger] m[j].0
}

/// Identifies a child trie. A default child trie is keyed by its storage key.
#[derive(Clone, Debug, PartialEq, Eq)]
pub enum ChildInfo {
    ParentKeyId(Vec<u8>),
}

impl ChildInfo {
    /// The storage key that this child information holds.
    pub open spec fn key_view(&self) -> Seq<u8> {
        match self {
            ChildInfo::ParentKeyId(k) => k@,
        }
    }

    /// The default child information for the child trie stored under `storage_key`.
    pub fn new_default(storage_key: &[u8]) -> (r: ChildInfo)
        ensures
            r.key_view() == storage_key@,
    {
        ChildInfo::ParentKeyId(copy_bytes(storage_key))
    }
}

/// One child partition: its content and the information that identifies it.
#[derive(Clone, Debug, PartialEq, Eq)]
pub struct StorageChild {
    pub data: StorageMap,
    pub child_info: ChildInfo,
}

/// A full storage tree: the top mapping and the default child partitions.
#[derive(Clone, Debug, PartialEq, Eq)]
pub struct Storage {
    pub top: StorageMap,
    pub children_default: Vec<(Vec<u8>, StorageChild)>,
}

/// Raw storage content of a genesis block: untyped keys and values.
#[derive(Clone, Debug, PartialEq, Eq)]
pub struct RawGenesis {
    pub top: StorageMap,
    pub children_default: Vec<(Vec<u8>, StorageMap)>,
}

/// Child partitions as storage key and entries, without child information.
pub open spec fn storage_children_view(c: Seq<(Vec<u8>, StorageChild)>) -> Seq<
    (Seq<u8>, Seq<(Seq<u8>, Seq<u8>)>),
> {
    c.map_values(|e: (Vec<u8>, StorageChild)| (e.0@, entries_view(e.1.data@)))
}

/// Raw child mappings as storage key and entries.
pub open spec fn raw_children_view(c: Seq<(Vec<u8>, StorageMap)>) -> Seq<
    (Seq<u8>, Seq<(Seq<u8>, Seq<u8>)>),
> {
    c.map_values(|e: (Vec<u8>, StorageMap)| (e.0@, entries_view(e.1@)))
}

/// Keys are unique in the top mapping, among the child keys, and within each child.
pub open spec fn tree_wf(top: Seq<(Seq<u8>, Seq<u8>)>, children: Seq<(Seq<u8>, Seq<(Seq<u8>, Seq<u8>)>)>) -> bool {
    &&& keys_unique(top)
    &&& keys_unique(children)
    &&& forall|i: int| 0 <= i < children.len() ==> keys_unique(#[trigger] children[i].1)
}

impl Storage {
    pub open spec fn top_view(&self) -> Seq<(Seq<u8>, Seq<u8>)> {
        entries_view(self.top@)
    }

    pub open spec fn children_view(&self) -> Seq<(Seq<u8>, Seq<(Seq<u8>, Seq<u8>)>)> {
        storage_children_view(self.children_default@)
    }

    /// Every child carries the default child information of its own storage key.
    pub open spec fn default_child_infos(&self) -> bool {
        forall|i: int|
            0 <= i < self.children_default@.len() ==> (#[trigger] self.children_default@[i]).1.child_info.key_view()
                == self.children_default@[i].0@
    }

    pub open spec fn wf(&self) -> bool {
        &&& tree_wf(self.top_view(), self.children_view())
        &&& self.default_child_infos()
    }
}

impl RawGenesis {
    pub open spec fn top_view(&self) -> Seq<(Seq<u8>, Seq<u8>)> {
        entries_view(self.top@)
    }

    pub open spec fn children_view(&self) -> Seq<(Seq<u8>, Seq<(Seq<u8>, Seq<u8>)>)> {
        raw_children_view(self.children_default@)
    }

    pub open spec fn wf(&self) -> bool {
        tree_wf(self.top_view(), self.children_view())
    }
}

/// A copy of a byte string.
pub fn copy_bytes(b: &[u8]) -> (r: Vec<u8>)
    ensures
        r@ == b@,
{
    let mut r: Vec<u8> = Vec::new();
    let mut i: usize = 0;
    while i < b.len()
        invariant
            i <= b@.len(),
            r@ == b@.subrange(0, i as int),
        decreases b@.len() - i,
    {
        r.push(b[i]);
        i = i + 1;
        assert(r@ =~= b@.subrange(0, i as int));
    }
    assert(r@ =~= b@);
    r
}

/// A copy of a storage mapping, entry by entry, in the same order.
pub fn copy_entries(m: &StorageMap) -> (r: StorageMap)
    ensures
        entries_view(r@) == entries_view(m@),
{
    let mut r: StorageMap = Vec::new();
    let mut i: usize = 0;
    while i < m.len()
        invariant
            i <= m@.len(),
            r@.len() == i,
            forall|j: int| 0 <= j < i ==> (#[trigger] r@[j]).0@ == m@[j].0@ && r@[j].1@ == m@[j].1@,
        decreases m@.len() - i,
    {
        let k = copy_bytes(m[i].0.as_slice());
        let v = copy_bytes(m[i].1.as_slice());
        r.push((k, v));
        i = i + 1;
    }
    assert(entries_view(r@) =~= entries_view(m@));
    r
}

/// The raw form of a storage tree: every top entry and every child's entries,
/// keyed by the child's storage key; child information is left behind.
pub fn raw_from_storage(s: &Storage) -> (r: RawGenesis)
    ensures
        r.top_view() == s.top_view(),
        r.children_view() == s.children_view(),
        s.wf() ==> r.wf(),
{
    let top = copy_entries(&s.top);
    let mut children: Vec<(Vec<u8>, StorageMap)> = Vec::new();
    let mut i: usize = 0;
    while i < s.children_default.len()
        invariant
            i <= s.children_default@.len(),
            children@.len() == i,
            forall|j: int|
                0 <= j < i ==> (#[trigger] children@[j]).0@ == s.children_default@[j].0@
                    && entries_view(children@[j].1@) == entries_view(s.children_default@[j].1.data@),
        decreases s.children_default@.len() - i,
    {
        let key = copy_bytes(s.children_default[i].0.as_slice());
        let data = copy_entries(&s.children_default[i].1.data);
        children.push((key, data));
        i = i + 1;
    }
    assert(raw_children_view(children@) =~= storage_children_view(s.children_default@));
    RawGenesis { top, children_default: children }
}

/// The storage tree of a raw genesis: the top entries as they are, and each child
/// mapping as a partition with the default child information of its key.
pub fn storage_from_raw(raw: RawGenesis) -> (r: Storage)
    ensures
        r.top_view() == raw.top_view(),
        r.children_view() == raw.children_view(),
        r.default_child_infos(),
        raw.wf() ==> r.wf(),
{
    let RawGenesis { top, children_default } = raw;
    let mut children: Vec<(Vec<u8>, StorageChild)> = Vec::new();
    let mut i: usize = 0;
    while i < children_default.len()
        invariant
            i <= children_default@.len(),
            children@.len() == i,
            forall|j: int|
                0 <= j < i ==> (#[trigger] children@[j]).0@ == children_default@[j].0@
                    && entries_view(children@[j].1.data@) == entries_view(children_default@[j].1@),
            forall|j: int|
                0 <= j < children@.len() ==> (#[trigger] children@[j]).1.child_info.key_view()
                    == children@[j].0@,
        decreases children_default@.len() - i,
    {
        let key = copy_bytes(children_default[i].0.as_slice());
        let child_info = ChildInfo::new_default(key.as_slice());
        let data = copy_entries(&children_default[i].1);
        children.push((key, StorageChild { data, child_info }));
        i = i + 1;
    }
    assert(storage_children_view(children@) =~= raw_children_view(children_default@));
    Storage { top, children_default: children }
}

} // verus!

verus! {

/// Two storage trees with the same entries and children in the same order, each child
/// with the same child information (the storage key that the information holds).
pub open spec fn same_storage(a: Storage, b: Storage) -> bool {
    &&& a.top_view() == b.top_view()
    &&& a.children_view() == b.children_view()
    &&& forall|i: int|
        0 <= i < a.children_default@.len() ==> (#[trigger] a.children_default@[i]).1.child_info.key_view()
            == b.children_default@[i].1.child_info.key_view()
}

/// A copy of a storage tree: the same entries in the same order, and the same child
/// information for each child.
pub fn copy_storage(s: &Storage) -> (r: Storage)
    ensures
        same_storage(*s, r),
{
    let top = copy_entries(&s.top);
    let mut children: Vec<(Vec<u8>, StorageChild)> = Vec::new();
    let mut i: usize = 0;
    while i < s.children_default.len()
        invariant
            i <= s.children_default@.len(),
            children@.len() == i,
            forall|j: int|
                0 <= j < i ==> (#[trigger] children@[j]).0@ == s.children_default@[j].0@
                    && entries_view(children@[j].1.data@) == entries_view(s.children_default@[j].1.data@)
                    && children@[j].1.child_info.key_view() == s.children_default@[j].1.child_info.key_view(),
        decreases s.children_default@.len() - i,
    {
        let key = copy_bytes(s.children_default[i].0.as_slice());
        let data = copy_entries(&s.children_default[i].1.data);
        let child_info = match &s.children_default[i].1.child_info {
            ChildInfo::ParentKeyId(k) => ChildInfo::ParentKeyId(copy_bytes(k.as_slice())),
        };
        children.push((key, StorageChild { data, child_info }));
        i = i + 1;
    }
    assert(storage_children_view(children@) =~= storage_children_view(s.children_default@));
    Storage { top, children_default: children }
}

} // verus!
