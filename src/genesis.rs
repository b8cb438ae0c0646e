//! Where genesis data comes from, and what resolving a source yields.
use vstd::prelude::*;
use crate::storage::{RawGenesis, Storage, raw_from_storage, same_storage};

verus! {

/// A typed genesis value of some runtime: it knows how to build its own storage.
pub trait RuntimeGenesis: Sized {
    /// What building this genesis yields.
    spec fn built(&self) -> Result<Storage, String>;

    /// The full storage tree of this genesis, or a description of why it could not be built.
    fn build_storage(&self) -> (r: Result<Storage, String>)
        ensures
            r == self.built(),
    ;
}

/// Genesis data, either typed for a runtime or as raw key/value storage.
pub enum Genesis<G> {
    Runtime(G),
    Raw(RawGenesis),
}

/// A deferred way of obtaining genesis data. Nothing is read or built until it is resolved.
pub enum GenesisSource<G> {
    /// A JSON document on disk whose `genesis` field holds the data.
    File(String),
    /// A JSON document in memory whose `genesis` field holds the data.
    Binary(Vec<u8>),
    /// A typed genesis handed over in code; each resolution yields a fresh copy.
    Factory(G),
    /// A storage tree computed earlier.
    Storage(Storage),
}

/// The outcome of resolving a source: the genesis itself, or the outside work that is
/// still owed before the `genesis` field of a JSON document can be read.
pub enum Resolution<G> {
    Ready(Genesis<G>),
    /// Read the document at this path, then parse it.
    ReadFile(String),
    /// Parse this document.
    Parse(Vec<u8>),
}

impl<G: Clone> Clone for GenesisSource<G> {
    fn clone(&self) -> (r: Self)
        ensures
            match (self, r) {
                (GenesisSource::File(a), GenesisSource::File(b)) => a@ == b@,
                (GenesisSource::Binary(a), GenesisSource::Binary(b)) => a@ == b@,
                (GenesisSource::Factory(a), GenesisSource::Factory(b)) => cloned::<G>(*a, b),
                (GenesisSource::Storage(a), GenesisSource::Storage(b)) => same_storage(*a, b),
                _ => false,
            },
    {
        match self {
            GenesisSource::File(path) => GenesisSource::File(path.clone()),
            GenesisSource::Binary(d) => GenesisSource::Binary(crate::storage::copy_bytes(d.as_slice())),
            GenesisSource::Factory(f) => GenesisSource::Factory(f.clone()),
            GenesisSource::Storage(s) => GenesisSource::Storage(crate::storage::copy_storage(s)),
        }
    }
}

impl<G: Clone> GenesisSource<G> {
    /// Resolves this source as far as this library can: a typed genesis is copied, a
    /// storage tree is turned into raw genesis entry for entry, and a JSON document is
    /// handed back to be read or parsed.
    pub fn resolve(&self) -> (r: Resolution<G>)
        ensures
            match (self, r) {
                (GenesisSource::File(p), Resolution::ReadFile(q)) => p@ == q@,
                (GenesisSource::Binary(b), Resolution::Parse(c)) => b@ == c@,
                (GenesisSource::Factory(f), Resolution::Ready(Genesis::Runtime(g))) => cloned::<G>(*f, g),
                (GenesisSource::Storage(s), Resolution::Ready(Genesis::Raw(raw))) => raw.top_view()
                    == s.top_view() && raw.children_view() == s.children_view() && (s.wf() ==> raw.wf()),
                _ => false,
            },
    {
        match self {
            GenesisSource::File(path) => Resolution::ReadFile(path.clone()),
            GenesisSource::Binary(d) => Resolution::Parse(crate::storage::copy_bytes(d.as_slice())),
            GenesisSource::Factory(f) => Resolution::Ready(Genesis::Runtime(f.clone())),
            GenesisSource::Storage(s) => Resolution::Ready(Genesis::Raw(raw_from_storage(s))),
        }
    }
}

} // verus!
