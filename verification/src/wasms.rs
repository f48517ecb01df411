//! Test guest modules: a closed set of small, hand-assembled modules
//! with fixed 32-byte content keys, standing in for real content
//! addressing.

use vstd::prelude::*;

use crate::cache::{
    standard_configuration, CacheError, CacheKey, CompilerConfiguration, ModuleCache,
    ModuleWithStore,
};
use crate::engine::{empty_imports, valid_module};
use crate::instance::{build_instance, InstanceError, InstanceWithStore};
use std::sync::Arc;

verus! {

/// The test guests.
pub enum TestWasm {
    /// A module with no imports and no exports: compiles and
    /// instantiates to an inert instance.
    Empty,
    /// A module whose exported `run` counts to a million and returns:
    /// cheap unmetered, far beyond any small instruction budget.
    Io,
    /// A module whose exported `run` loops indefinitely: only a
    /// metering budget can stop it.
    Test,
    /// A module declaring one page of exported linear memory, capped
    /// at one page.
    Memory,
}

/// The binary encoding of each test guest.
pub open spec fn module_bytes(w: TestWasm) -> Seq<u8> {
    match w {
        TestWasm::Empty => seq![0x00u8, 0x61, 0x73, 0x6d, 0x01, 0x00, 0x00, 0x00],
        TestWasm::Io => seq![
            0x00u8, 0x61, 0x73, 0x6d, 0x01, 0x00, 0x00, 0x00,
            0x01, 0x04, 0x01, 0x60, 0x00, 0x00,
            0x03, 0x02, 0x01, 0x00,
            0x07, 0x07, 0x01, 0x03, 0x72, 0x75, 0x6e, 0x00, 0x00,
            0x0a, 0x1e, 0x01, 0x1c, 0x01, 0x01, 0x7f,
            0x02, 0x40, 0x03, 0x40, 0x20, 0x00, 0x41, 0xc0, 0x84, 0x3d, 0x4e,
            0x0d, 0x01, 0x20, 0x00, 0x41, 0x01, 0x6a, 0x21, 0x00, 0x0c, 0x00,
            0x0b, 0x0b, 0x0b,
        ],
        TestWasm::Test => seq![
            0x00u8, 0x61, 0x73, 0x6d, 0x01, 0x00, 0x00, 0x00,
            0x01, 0x04, 0x01, 0x60, 0x00, 0x00,
            0x03, 0x02, 0x01, 0x00,
            0x07, 0x07, 0x01, 0x03, 0x72, 0x75, 0x6e, 0x00, 0x00,
            0x0a, 0x09, 0x01, 0x07, 0x00, 0x03, 0x40, 0x0c, 0x00, 0x0b, 0x0b,
        ],
        TestWasm::Memory => seq![
            0x00u8, 0x61, 0x73, 0x6d, 0x01, 0x00, 0x00, 0x00,
            0x05, 0x04, 0x01, 0x01, 0x01, 0x01,
            0x07, 0x0a, 0x01, 0x06, 0x6d, 0x65, 0x6d, 0x6f, 0x72, 0x79, 0x02, 0x00,
        ],
    }
}

/// The tag that fills a test guest's fixed 32-byte key: one value per
/// guest and mode, so no two fixtures collide.
pub open spec fn key_tag(w: TestWasm, metered: bool) -> u8 {
    match w {
        TestWasm::Empty => if metered { 1u8 } else { 0u8 },
        TestWasm::Io => if metered { 3u8 } else { 2u8 },
        TestWasm::Test => if metered { 5u8 } else { 4u8 },
        TestWasm::Memory => if metered { 7u8 } else { 6u8 },
    }
}

/// The cache key of a test guest under a mode, as the cache sees it.
pub open spec fn module_key(w: TestWasm, metered: bool) -> (Seq<u8>, bool) {
    (Seq::new(32, |i: int| key_tag(w, metered)), metered)
}

/// A vector of `count` copies of one byte.
fn fill_bytes(value: u8, count: usize) -> (r: Vec<u8>)
    ensures
        r@ == Seq::new(count as nat, |i: int| value),
{
    let mut r: Vec<u8> = Vec::new();
    let mut i: usize = 0;
    while i < count
        invariant
            i <= count,
            r@ == Seq::new(i as nat, |j: int| value),
        decreases count - i,
    {
        r.push(value);
        proof {
            assert(r@ =~= Seq::new((i + 1) as nat, |j: int| value));
        }
        i += 1;
    }
    r
}

impl TestWasm {
    /// The guest's module bytes.
    pub fn bytes(&self) -> (b: Vec<u8>)
        ensures
            b@ == module_bytes(*self),
    {
        let b: Vec<u8> = match self {
            TestWasm::Empty => vec![0x00u8, 0x61, 0x73, 0x6d, 0x01, 0x00, 0x00, 0x00],
            TestWasm::Io => vec![
                0x00u8, 0x61, 0x73, 0x6d, 0x01, 0x00, 0x00, 0x00,
                0x01, 0x04, 0x01, 0x60, 0x00, 0x00,
                0x03, 0x02, 0x01, 0x00,
                0x07, 0x07, 0x01, 0x03, 0x72, 0x75, 0x6e, 0x00, 0x00,
                0x0a, 0x1e, 0x01, 0x1c, 0x01, 0x01, 0x7f,
                0x02, 0x40, 0x03, 0x40, 0x20, 0x00, 0x41, 0xc0, 0x84, 0x3d, 0x4e,
                0x0d, 0x01, 0x20, 0x00, 0x41, 0x01, 0x6a, 0x21, 0x00, 0x0c, 0x00,
                0x0b, 0x0b, 0x0b,
            ],
            TestWasm::Test => vec![
                0x00u8, 0x61, 0x73, 0x6d, 0x01, 0x00, 0x00, 0x00,
                0x01, 0x04, 0x01, 0x60, 0x00, 0x00,
                0x03, 0x02, 0x01, 0x00,
                0x07, 0x07, 0x01, 0x03, 0x72, 0x75, 0x6e, 0x00, 0x00,
                0x0a, 0x09, 0x01, 0x07, 0x00, 0x03, 0x40, 0x0c, 0x00, 0x0b, 0x0b,
            ],
            TestWasm::Memory => vec![
                0x00u8, 0x61, 0x73, 0x6d, 0x01, 0x00, 0x00, 0x00,
                0x05, 0x04, 0x01, 0x01, 0x01, 0x01,
                0x07, 0x0a, 0x01, 0x06, 0x6d, 0x65, 0x6d, 0x6f, 0x72, 0x79, 0x02, 0x00,
            ],
        };
        proof {
            assert(b@ =~= module_bytes(*self));
        }
        b
    }

    /// The guest's name.
    pub fn name(&self) -> (r: &'static str)
        ensures
            r@ == match *self {
                TestWasm::Empty => "empty"@,
                TestWasm::Io => "io"@,
                TestWasm::Test => "test"@,
                TestWasm::Memory => "memory"@,
            },
    {
        match self {
            TestWasm::Empty => "empty",
            TestWasm::Io => "io",
            TestWasm::Test => "test",
            TestWasm::Memory => "memory",
        }
    }

    /// The guest's fixed cache key under the given mode: 32 copies of
    /// the guest-and-mode tag, together with the mode itself.
    pub fn key(&self, metered: bool) -> (k: CacheKey)
        ensures
            k@ == module_key(*self, metered),
    {
        let tag: u8 = match (self, metered) {
            (TestWasm::Empty, false) => 0,
            (TestWasm::Empty, true) => 1,
            (TestWasm::Io, false) => 2,
            (TestWasm::Io, true) => 3,
            (TestWasm::Test, false) => 4,
            (TestWasm::Test, true) => 5,
            (TestWasm::Memory, false) => 6,
            (TestWasm::Memory, true) => 7,
        };
        CacheKey { content: fill_bytes(tag, 32), metered }
    }

    /// The guest's compiled artifact from the cache, compiling on the
    /// first use. When the cache turns out to be unconfigured, the
    /// standard configuration is installed — exactly once, since a
    /// configured cache never signals again — and the lookup is
    /// retried, so the caller never sees the uninitialized signal.
    pub fn module(&self, cache: &mut ModuleCache, metered: bool) -> (r: Result<
        Arc<ModuleWithStore>,
        CacheError,
    >)
        ensures
            final(cache).config() == install_once_standard(old(cache).config()),
            r matches Ok(a) ==> a.is_metered() == metered,
            r matches Ok(a) ==> final(cache).artifacts() == old(cache).artifacts().insert(
                module_key(*self, metered),
                a,
            ),
            old(cache).artifacts().contains_key(module_key(*self, metered)) ==> {
                &&& r matches Ok(a) && a == old(cache).artifacts()[module_key(*self, metered)]
                &&& final(cache).artifacts() == old(cache).artifacts()
            },
            r is Err <==> (!valid_module(module_bytes(*self)) && !old(
                cache,
            ).artifacts().contains_key(module_key(*self, metered))),
            r matches Err(e) ==> e matches CacheError::CompileFailed(_) && final(cache).artifacts()
                == old(cache).artifacts(),
    {
        let key = self.key(metered);
        let bytes = self.bytes();
        let r = cache.get(&key, &bytes);
        match r {
            Ok(a) => {
                proof {
                    if old(cache).artifacts().contains_key(key@) {
                        assert(old(cache).artifacts().insert(key@, a) =~= old(cache).artifacts());
                    }
                }
                Ok(a)
            },
            Err(CacheError::UninitializedCache) => {
                cache.install_configuration(CompilerConfiguration::standard());
                let r2 = cache.get(&key, &bytes);
                match r2 {
                    Ok(a) => Ok(a),
                    Err(e) => Err(e),
                }
            },
            Err(e) => Err(e),
        }
    }

    /// A fresh executable instance of the guest under the given mode,
    /// with an empty import set: none of the test guests imports
    /// anything.
    pub fn _instance(&self, cache: &mut ModuleCache, metered: bool) -> (r: Result<
        InstanceWithStore,
        InstanceError,
    >)
        ensures
            final(cache).config() == install_once_standard(old(cache).config()),
            r matches Ok(inst) ==> {
                &&& inst.is_metered() == metered
                &&& final(cache).artifacts().contains_key(module_key(*self, metered))
                &&& inst.store_handle() == final(cache).artifacts()[module_key(
                    *self,
                    metered,
                )].store_handle()
            },
            (r matches Err(InstanceError::Cache(_))) <==> (!valid_module(module_bytes(*self))
                && !old(cache).artifacts().contains_key(module_key(*self, metered))),
            r matches Err(InstanceError::Cache(e)) ==> e matches CacheError::CompileFailed(_),
    {
        let artifact = match self.module(cache, metered) {
            Ok(a) => a,
            Err(e) => {
                return Err(InstanceError::Cache(e));
            },
        };
        let imports = empty_imports();
        match build_instance(&artifact, &imports) {
            Ok(inst) => Ok(inst),
            Err(e) => Err(InstanceError::Instantiation(e)),
        }
    }

    /// A fresh metered instance of the guest.
    pub fn instance(&self, cache: &mut ModuleCache) -> (r: Result<InstanceWithStore, InstanceError>)
        ensures
            final(cache).config() == install_once_standard(old(cache).config()),
            r matches Ok(inst) ==> {
                &&& inst.is_metered()
                &&& final(cache).artifacts().contains_key(module_key(*self, true))
                &&& inst.store_handle() == final(cache).artifacts()[module_key(
                    *self,
                    true,
                )].store_handle()
            },
            (r matches Err(InstanceError::Cache(_))) <==> (!valid_module(module_bytes(*self))
                && !old(cache).artifacts().contains_key(module_key(*self, true))),
            r matches Err(InstanceError::Cache(e)) ==> e matches CacheError::CompileFailed(_),
    {
        self._instance(cache, true)
    }

    /// A fresh unmetered instance of the guest.
    pub fn unmetered_instance(&self, cache: &mut ModuleCache) -> (r: Result<
        InstanceWithStore,
        InstanceError,
    >)
        ensures
            final(cache).config() == install_once_standard(old(cache).config()),
            r matches Ok(inst) ==> {
                &&& !inst.is_metered()
                &&& final(cache).artifacts().contains_key(module_key(*self, false))
                &&& inst.store_handle() == final(cache).artifacts()[module_key(
                    *self,
                    false,
                )].store_handle()
            },
            (r matches Err(InstanceError::Cache(_))) <==> (!valid_module(module_bytes(*self))
                && !old(cache).artifacts().contains_key(module_key(*self, false))),
            r matches Err(InstanceError::Cache(e)) ==> e matches CacheError::CompileFailed(_),
    {
        self._instance(cache, false)
    }
}

/// What a lookup through a test guest leaves installed: the standard
/// configuration when none was installed yet, the first one otherwise.
pub open spec fn install_once_standard(
    current: Option<CompilerConfiguration>,
) -> Option<CompilerConfiguration> {
    crate::cache::install_once(current, standard_configuration())
}

} // verus!
