use vstd::prelude::*;
use crate::code::{bytes_eq, copy_bytes, ContractCode};

verus! {

/// Identity of a virtual-machine backend.
#[derive(PartialEq, Eq, Structural, Clone, Copy, Debug)]
pub enum VMKind {
    Wasmer0,
    Wasmtime,
    Wasmer2,
    NearVm,
}

/// What a cache entry is keyed by: the contract's digest, the backend that
/// compiled it, and the fingerprint of every setting that shapes the artifact.
#[derive(Debug)]
pub struct CacheKey {
    pub code_hash: Vec<u8>,
    pub vm_kind: VMKind,
    pub fingerprint: u64,
}

pub type CacheKeyView = (Seq<u8>, VMKind, u64);

impl View for CacheKey {
    type V = CacheKeyView;

    open spec fn view(&self) -> CacheKeyView {
        (self.code_hash@, self.vm_kind, self.fingerprint)
    }
}

impl CacheKey {
    /// The key of `code` compiled by `vm_kind` under settings `fingerprint`.
    pub fn new(code: &ContractCode, vm_kind: VMKind, fingerprint: u64) -> (r: CacheKey)
        ensures
            r@ == (code.digest(), vm_kind, fingerprint),
    {
        CacheKey { code_hash: copy_bytes(code.hash()), vm_kind, fingerprint }
    }

    pub fn same_as(&self, other: &CacheKey) -> (r: bool)
        ensures
            r == (self@ == other@),
    {
        self.vm_kind == other.vm_kind && self.fingerprint == other.fingerprint && bytes_eq(
            &self.code_hash,
            &other.code_hash,
        )
    }
}

/// The map that a sequence of writes leaves: a later write of a key replaces
/// an earlier one.
pub open spec fn entries_map(s: Seq<(CacheKey, Vec<u8>)>) -> Map<CacheKeyView, Seq<u8>>
    decreases s.len(),
{
    if s.len() == 0 {
        Map::empty()
    } else {
        entries_map(s.drop_last()).insert(s.last().0@, s.last().1@)
    }
}

/// What `put` found under the key before it wrote.
#[derive(PartialEq, Eq, Structural, Clone, Copy, Debug)]
pub enum PutOutcome {
    /// The key was absent.
    Inserted,
    /// The same artifact was already there.
    Unchanged,
    /// A different artifact was there: the compiler is not deterministic.
    /// The new artifact replaced it.
    Conflict,
}

/// In-memory cache of compiled artifacts; it never evicts.
pub struct CompiledContractCache {
    entries: Vec<(CacheKey, Vec<u8>)>,
}

impl View for CompiledContractCache {
    type V = Map<CacheKeyView, Seq<u8>>;

    closed spec fn view(&self) -> Map<CacheKeyView, Seq<u8>> {
        entries_map(self.entries@)
    }
}

impl CompiledContractCache {
    pub fn new() -> (r: CompiledContractCache)
        ensures
            r@ == Map::<CacheKeyView, Seq<u8>>::empty(),
    {
        CompiledContractCache { entries: Vec::new() }
    }

    /// The artifact stored under `key`, if any. A miss is no error.
    pub fn get(&self, key: &CacheKey) -> (r: Option<Vec<u8>>)
        ensures
            r is None <==> !self@.contains_key(key@),
            r is Some ==> r->0@ == self@[key@],
    {
        let ghost s = self.entries@;
        let mut i: usize = self.entries.len();
        assert(s.take(i as int) =~= s);
        while i > 0
            invariant
                s == self.entries@,
                0 <= i <= s.len(),
                entries_map(s).contains_key(key@) == entries_map(s.take(i as int)).contains_key(
                    key@,
                ),
                entries_map(s).contains_key(key@) ==> entries_map(s)[key@] == entries_map(
                    s.take(i as int),
                )[key@],
            decreases i,
        {
            let ghost t = s.take(i as int);
            assert(t.drop_last() =~= s.take(i - 1));
            assert(t.last() == s[i - 1]);
            if self.entries[i - 1].0.same_as(key) {
                return Some(copy_bytes(&self.entries[i - 1].1));
            }
            i = i - 1;
        }
        assert(s.take(0) =~= Seq::<(CacheKey, Vec<u8>)>::empty());
        None
    }

    /// Stores `artifact` under `key`; a later `get` of the key returns it.
    pub fn put(&mut self, key: CacheKey, artifact: Vec<u8>) -> (r: PutOutcome)
        ensures
            final(self)@ == old(self)@.insert(key@, artifact@),
            r == PutOutcome::Inserted <==> !old(self)@.contains_key(key@),
            r == PutOutcome::Unchanged <==> (old(self)@.contains_key(key@) && old(self)@[key@]
                == artifact@),
            r == PutOutcome::Conflict <==> (old(self)@.contains_key(key@) && old(self)@[key@]
                != artifact@),
    {
        let previous = self.get(&key);
        match previous {
            Some(prev) => {
                if bytes_eq(&prev, &artifact) {
                    assert(self@.insert(key@, artifact@) =~= self@);
                    PutOutcome::Unchanged
                } else {
                    self.push_entry(key, artifact);
                    PutOutcome::Conflict
                }
            },
            None => {
                self.push_entry(key, artifact);
                PutOutcome::Inserted
            },
        }
    }

    fn push_entry(&mut self, key: CacheKey, artifact: Vec<u8>)
        ensures
            final(self)@ == old(self)@.insert(key@, artifact@),
    {
        self.entries.push((key, artifact));
        assert(self.entries@.drop_last() =~= old(self).entries@);
    }
}

/// A write followed by a read of the same key returns what was written.
pub proof fn lemma_cache_round_trip(
    before: Map<CacheKeyView, Seq<u8>>,
    key: CacheKeyView,
    artifact: Seq<u8>,
)
    ensures
        before.insert(key, artifact).contains_key(key),
        before.insert(key, artifact)[key] == artifact,
{
}

/// A write leaves every other key as it was.
pub proof fn lemma_cache_put_isolated(
    before: Map<CacheKeyView, Seq<u8>>,
    key: CacheKeyView,
    artifact: Seq<u8>,
    other: CacheKeyView,
)
    requires
        other != key,
    ensures
        before.insert(key, artifact).contains_key(other) == before.contains_key(other),
        before.contains_key(other) ==> before.insert(key, artifact)[other] == before[other],
{
}

} // verus!
