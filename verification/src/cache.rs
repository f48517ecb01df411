//! The compiled-module cache: maps a content-and-mode key to a ready
//! compiled artifact, and is lazily configured exactly once with a
//! compiler pipeline description.

use vstd::prelude::*;

use crate::allocation::copy_bytes;
use crate::engine::{
    arc_clone, compile_module_metered, compile_module_unmetered, valid_module,
};
use std::sync::Arc;

verus! {

/// The flat cost model for metered execution: every guest operator is
/// charged the same number of units against the instruction budget.
pub fn flat_operator_cost(cost_per_operator: u64) -> (c: u64)
    ensures
        c == cost_per_operator,
{
    cost_per_operator
}

/// A process-wide, mode-dependent pipeline description. Metered mode
/// injects cost accounting capped at `instruction_budget`, charging
/// `cost_per_operator` units per guest operator; unmetered mode has no
/// cost accounting.
#[derive(Clone, Copy, Debug, PartialEq, Eq, Structural)]
pub struct CompilerConfiguration {
    pub instruction_budget: u64,
    pub cost_per_operator: u64,
}

/// The standard configuration: a budget of ten billion units, one unit
/// per operator.
pub open spec fn standard_configuration() -> CompilerConfiguration {
    CompilerConfiguration { instruction_budget: 10000000000u64, cost_per_operator: 1u64 }
}

impl CompilerConfiguration {
    /// The standard pipeline description.
    pub fn standard() -> (c: CompilerConfiguration)
        ensures
            c == standard_configuration(),
    {
        CompilerConfiguration { instruction_budget: 10000000000, cost_per_operator: 1 }
    }
}

/// A cache key: the content identity of the module bytes together with
/// the execution mode. Identical bytes under different modes are
/// distinct keys, and so never share an entry.
pub struct CacheKey {
    pub content: Vec<u8>,
    pub metered: bool,
}

impl View for CacheKey {
    type V = (Seq<u8>, bool);

    open spec fn view(&self) -> (Seq<u8>, bool) {
        (self.content@, self.metered)
    }
}

/// A compiled artifact: the module together with its dedicated execution
/// store and the mode it was compiled under. Shared by handle; access to
/// the store serializes through its lock. The fields stay inside the
/// crate, so a module is never paired with another artifact's store and
/// the recorded mode always matches the pipeline the module was
/// compiled under.
pub struct ModuleWithStore {
    pub(crate) module: wasmer::Module,
    pub(crate) store: Arc<parking_lot::Mutex<wasmer::Store>>,
    pub(crate) mode_metered: bool,
}

impl ModuleWithStore {
    /// Whether the artifact was compiled under the metered pipeline.
    pub open(crate) spec fn is_metered(&self) -> bool {
        self.mode_metered
    }

    /// The artifact's dedicated execution store, as a shared handle.
    pub open(crate) spec fn store_handle(&self) -> Arc<parking_lot::Mutex<wasmer::Store>> {
        self.store
    }

    /// Whether the artifact was compiled under the metered pipeline.
    pub fn metered(&self) -> (b: bool)
        ensures
            b == self.is_metered(),
    {
        self.mode_metered
    }
}

/// Why the cache returned no artifact.
#[derive(Debug)]
pub enum CacheError {
    /// The cache was accessed before a configuration was installed: a
    /// non-fatal signal; the caller installs one and retries.
    UninitializedCache,
    /// The module bytes failed to compile: fatal for this key only.
    CompileFailed(wasmer::CompileError),
}

/// Whether a key equals another, content and mode both.
fn key_eq(a: &CacheKey, b: &CacheKey) -> (r: bool)
    ensures
        r == (a@ == b@),
{
    if a.metered != b.metered {
        return false;
    }
    if a.content.len() != b.content.len() {
        return false;
    }
    let mut i: usize = 0;
    while i < a.content.len()
        invariant
            i <= a.content.len(),
            a.content.len() == b.content.len(),
            a.metered == b.metered,
            forall|j: int| 0 <= j < i ==> a.content@[j] == b.content@[j],
        decreases a.content.len() - i,
    {
        if a.content[i] != b.content[i] {
            return false;
        }
        i += 1;
    }
    proof {
        assert(a.content@ =~= b.content@);
    }
    true
}

/// The map that a sequence of cache entries denotes: each key to its
/// artifact, later entries shadowing earlier ones (the cache never holds
/// two entries with one key, so nothing is ever shadowed).
pub open spec fn entry_map(s: Seq<(CacheKey, Arc<ModuleWithStore>)>) -> Map<
    (Seq<u8>, bool),
    Arc<ModuleWithStore>,
>
    decreases s.len(),
{
    if s.len() == 0 {
        Map::empty()
    } else {
        entry_map(s.drop_last()).insert(s.last().0@, s.last().1)
    }
}

/// Whether no two entries share a key.
pub open spec fn unique_keys(s: Seq<(CacheKey, Arc<ModuleWithStore>)>) -> bool {
    forall|i: int, j: int|
        #![trigger s[i], s[j]]
        0 <= i < j < s.len() ==> s[i].0@ != s[j].0@
}

proof fn lemma_entry_map_contains(s: Seq<(CacheKey, Arc<ModuleWithStore>)>, k: (Seq<u8>, bool))
    ensures
        entry_map(s).contains_key(k) <==> exists|i: int| 0 <= i < s.len() && s[i].0@ == k,
    decreases s.len(),
{
    if s.len() > 0 {
        let prefix = s.drop_last();
        lemma_entry_map_contains(prefix, k);
        if s.last().0@ == k {
            assert(s[s.len() - 1].0@ == k);
        } else {
            if entry_map(s).contains_key(k) {
                let i = choose|i: int| 0 <= i < prefix.len() && prefix[i].0@ == k;
                assert(s[i].0@ == k);
            }
            if exists|i: int| 0 <= i < s.len() && s[i].0@ == k {
                let i = choose|i: int| 0 <= i < s.len() && s[i].0@ == k;
                assert(i < s.len() - 1);
                assert(prefix[i].0@ == k);
            }
        }
    }
}

proof fn lemma_entry_map_index(s: Seq<(CacheKey, Arc<ModuleWithStore>)>, i: int)
    requires
        unique_keys(s),
        0 <= i < s.len(),
    ensures
        entry_map(s).contains_key(s[i].0@),
        entry_map(s)[s[i].0@] == s[i].1,
    decreases s.len(),
{
    if i < s.len() - 1 {
        let prefix = s.drop_last();
        assert forall|a: int, b: int|
            #![trigger prefix[a], prefix[b]]
            0 <= a < b < prefix.len() implies prefix[a].0@ != prefix[b].0@ by {
            assert(s[a].0@ != s[b].0@);
        }
        lemma_entry_map_index(prefix, i);
        assert(s[s.len() - 1].0@ != s[i].0@);
        assert(prefix[i] == s[i]);
    }
}

proof fn lemma_entry_map_push(
    s: Seq<(CacheKey, Arc<ModuleWithStore>)>,
    e: (CacheKey, Arc<ModuleWithStore>),
)
    ensures
        entry_map(s.push(e)) == entry_map(s).insert(e.0@, e.1),
{
    assert(s.push(e).drop_last() =~= s);
    assert(s.push(e).last() == e);
}

/// What installing a configuration into current state yields: the first
/// installation wins; any later one is ignored.
pub open spec fn install_once(
    current: Option<CompilerConfiguration>,
    offered: CompilerConfiguration,
) -> Option<CompilerConfiguration> {
    if current is None {
        Some(offered)
    } else {
        current
    }
}

/// The compiled-module cache. Uninitialized at construction; installed
/// with a configuration exactly once; maps content-and-mode keys to
/// shared compiled artifacts thereafter.
pub struct ModuleCache {
    configuration: Option<CompilerConfiguration>,
    entries: Vec<(CacheKey, Arc<ModuleWithStore>)>,
}

impl ModuleCache {
    /// The cached artifacts, keyed by content identity and mode.
    pub closed spec fn artifacts(&self) -> Map<(Seq<u8>, bool), Arc<ModuleWithStore>> {
        entry_map(self.entries@)
    }

    /// The installed pipeline configuration, if any.
    pub closed spec fn config(&self) -> Option<CompilerConfiguration> {
        self.configuration
    }

    #[verifier::type_invariant]
    closed spec fn wf(&self) -> bool {
        &&& unique_keys(self.entries@)
        &&& (self.configuration is None ==> self.entries@.len() == 0)
        &&& (self.configuration matches Some(c) ==> c.cost_per_operator <= u32::MAX as u64)
        &&& forall|i: int|
            0 <= i < self.entries@.len() ==> (#[trigger] self.entries@[i]).1.mode_metered
                == self.entries@[i].0.metered
    }

    /// A fresh cache: unconfigured and empty.
    pub fn new() -> (c: ModuleCache)
        ensures
            c.config() is None,
            c.artifacts() == Map::<(Seq<u8>, bool), Arc<ModuleWithStore>>::empty(),
    {
        ModuleCache { configuration: None, entries: Vec::new() }
    }

    /// Whether a configuration has been installed.
    pub fn is_configured(&self) -> (b: bool)
        ensures
            b == (self.config() is Some),
    {
        match self.configuration {
            Some(_) => true,
            None => false,
        }
    }

    /// The installed pipeline configuration, if any.
    pub fn current_configuration(&self) -> (c: Option<CompilerConfiguration>)
        ensures
            c == self.config(),
    {
        self.configuration
    }

    /// Installs a compiler configuration. The first installation wins;
    /// a later attempt changes nothing and reports failure. The
    /// per-operator cost must fit in 32 bits, so that the engine's
    /// 64-bit cost accounting cannot overflow (see the compile
    /// wrappers).
    pub fn install_configuration(&mut self, configuration: CompilerConfiguration) -> (installed:
        bool)
        requires
            configuration.cost_per_operator <= u32::MAX as u64,
        ensures
            final(self).config() == install_once(old(self).config(), configuration),
            final(self).artifacts() == old(self).artifacts(),
            installed == (old(self).config() is None),
            old(self).config() is None ==> old(self).artifacts() == Map::<
                (Seq<u8>, bool),
                Arc<ModuleWithStore>,
            >::empty(),
    {
        proof {
            use_type_invariant(&*self);
        }
        match self.configuration {
            None => {
                self.configuration = Some(configuration);
                true
            },
            Some(_) => false,
        }
    }

    /// Looks the key up, compiling and caching the bytes on a miss.
    ///
    /// A hit returns the cached artifact itself, as a cheap shared
    /// handle, and changes nothing: nothing is recompiled. A miss under
    /// an installed configuration compiles the bytes with the pipeline
    /// of the key's mode and caches the result under the key. An error
    /// comes exactly when no configuration is installed, or when the
    /// bytes fail to compile on a miss; other entries are unaffected
    /// either way.
    pub fn get(&mut self, key: &CacheKey, bytes: &Vec<u8>) -> (r: Result<
        Arc<ModuleWithStore>,
        CacheError,
    >)
        ensures
            final(self).config() == old(self).config(),
            old(self).config() is None ==> {
                &&& r matches Err(CacheError::UninitializedCache)
                &&& final(self).artifacts() == old(self).artifacts()
            },
            old(self).config() is Some && old(self).artifacts().contains_key(key@) ==> {
                &&& r matches Ok(a) && a == old(self).artifacts()[key@]
                &&& final(self).artifacts() == old(self).artifacts()
            },
            old(self).config() is Some && !old(self).artifacts().contains_key(key@)
                && valid_module(bytes@) ==> {
                &&& r matches Ok(a) && final(self).artifacts() == old(self).artifacts().insert(
                    key@,
                    a,
                )
            },
            old(self).config() is Some && !old(self).artifacts().contains_key(key@)
                && !valid_module(bytes@) ==> {
                &&& r matches Err(CacheError::CompileFailed(_))
                &&& final(self).artifacts() == old(self).artifacts()
            },
            r matches Ok(a) ==> a.is_metered() == key.metered,
            r is Err <==> (old(self).config() is None || (!old(self).artifacts().contains_key(key@)
                && !valid_module(bytes@))),
            old(self).config() is None ==> old(self).artifacts() == Map::<
                (Seq<u8>, bool),
                Arc<ModuleWithStore>,
            >::empty(),
    {
        proof {
            use_type_invariant(&*self);
        }
        let cfg = match self.configuration {
            Some(c) => c,
            None => {
                return Err(CacheError::UninitializedCache);
            },
        };
        let ghost entries0 = self.entries@;
        let mut i: usize = 0;
        while i < self.entries.len()
            invariant
                *self == *old(self),
                self.entries@ == entries0,
                i <= entries0.len(),
                forall|j: int| 0 <= j < i ==> entries0[j].0@ != key@,
            decreases entries0.len() - i,
        {
            if key_eq(&self.entries[i].0, key) {
                let handle = arc_clone(&self.entries[i].1);
                proof {
                    use_type_invariant(&*self);
                    lemma_entry_map_index(entries0, i as int);
                }
                return Ok(handle);
            }
            i += 1;
        }
        proof {
            lemma_entry_map_contains(entries0, key@);
        }
        let compiled = if key.metered {
            compile_module_metered(bytes, cfg.instruction_budget, cfg.cost_per_operator)
        } else {
            compile_module_unmetered(bytes)
        };
        match compiled {
            Err(e) => Err(CacheError::CompileFailed(e)),
            Ok((module, store)) => {
                let artifact = Arc::new(
                    ModuleWithStore { module, store, mode_metered: key.metered },
                );
                let handle = arc_clone(&artifact);
                let key_copy = CacheKey { content: copy_bytes(&key.content), metered: key.metered };
                let mut entries: Vec<(CacheKey, Arc<ModuleWithStore>)> = Vec::new();
                std::mem::swap(&mut entries, &mut self.entries);
                entries.push((key_copy, artifact));
                proof {
                    lemma_entry_map_push(entries0, (key_copy, artifact));
                }
                self.entries = entries;
                Ok(handle)
            },
        }
    }
}

/// Cache correctness: once an artifact is cached for a key, the key is
/// bound to that very artifact, so a later lookup for it yields the same
/// artifact — the same store and module, shared, not recompiled.
pub proof fn lemma_cache_correctness(
    m: Map<(Seq<u8>, bool), Arc<ModuleWithStore>>,
    k: (Seq<u8>, bool),
    a: Arc<ModuleWithStore>,
)
    ensures
        m.insert(k, a).contains_key(k),
        m.insert(k, a)[k] == a,
{
}

/// Cache discrimination: for byte-identical content, the metered and the
/// unmetered key differ, so their artifacts occupy two independent
/// entries and caching either never disturbs the other.
pub proof fn lemma_cache_discrimination(
    m: Map<(Seq<u8>, bool), Arc<ModuleWithStore>>,
    content: Seq<u8>,
    metered_artifact: Arc<ModuleWithStore>,
    unmetered_artifact: Arc<ModuleWithStore>,
)
    ensures
        (content, true) != (content, false),
        m.insert((content, true), metered_artifact).insert(
            (content, false),
            unmetered_artifact,
        )[(content, true)] == metered_artifact,
        m.insert((content, true), metered_artifact).insert(
            (content, false),
            unmetered_artifact,
        )[(content, false)] == unmetered_artifact,
{
}

/// Exactly-once initialization: whatever configuration is offered later,
/// the first installed one wins and is never replaced.
pub proof fn lemma_exactly_once_initialization(
    first: CompilerConfiguration,
    later: CompilerConfiguration,
)
    ensures
        install_once(install_once(None, first), later) == Some(first),
{
}

} // verus!
