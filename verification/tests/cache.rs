use std::sync::Arc;
use wasm_boundary::cache::{CacheError, CompilerConfiguration, ModuleCache};
use wasm_boundary::wasms::TestWasm;

#[test]
fn uninitialized_cache_signals() {
    let mut cache = ModuleCache::new();
    assert!(!cache.is_configured());
    let key = TestWasm::Empty.key(true);
    let bytes = TestWasm::Empty.bytes();
    assert!(matches!(cache.get(&key, &bytes), Err(CacheError::UninitializedCache)));
    assert!(!cache.is_configured());
}

#[test]
fn first_installed_configuration_wins() {
    let mut cache = ModuleCache::new();
    assert_eq!(cache.current_configuration(), None);
    let first = CompilerConfiguration { instruction_budget: 1000, cost_per_operator: 1 };
    assert!(cache.install_configuration(first));
    assert!(cache.is_configured());
    // A second installation is rejected; the first stays in force.
    assert!(!cache.install_configuration(CompilerConfiguration::standard()));
    assert_eq!(cache.current_configuration(), Some(first));
}

#[test]
fn standard_configuration_values() {
    let standard = CompilerConfiguration::standard();
    assert_eq!(standard.instruction_budget, 10_000_000_000);
    assert_eq!(standard.cost_per_operator, 1);
    let mut cache = ModuleCache::new();
    // The lazy first-use path installs exactly the standard pipeline.
    TestWasm::Empty.module(&mut cache, false).unwrap();
    assert_eq!(cache.current_configuration(), Some(standard));
}

#[test]
fn hit_returns_shared_artifact_without_recompiling() {
    let mut cache = ModuleCache::new();
    cache.install_configuration(CompilerConfiguration::standard());
    let key = TestWasm::Empty.key(true);
    let bytes = TestWasm::Empty.bytes();
    let first = cache.get(&key, &bytes).unwrap();
    let second = cache.get(&key, &bytes).unwrap();
    // The same artifact, shared by handle: same store, same module.
    assert!(Arc::ptr_eq(&first, &second));
    assert!(first.metered() && second.metered());
}

#[test]
fn modes_never_share_an_entry() {
    let mut cache = ModuleCache::new();
    cache.install_configuration(CompilerConfiguration::standard());
    let bytes = TestWasm::Empty.bytes();
    let metered = cache.get(&TestWasm::Empty.key(true), &bytes).unwrap();
    let unmetered = cache.get(&TestWasm::Empty.key(false), &bytes).unwrap();
    assert!(metered.metered());
    assert!(!unmetered.metered());
    assert!(!Arc::ptr_eq(&metered, &unmetered));
    // Each key still yields its own artifact afterwards.
    let metered_again = cache.get(&TestWasm::Empty.key(true), &bytes).unwrap();
    let unmetered_again = cache.get(&TestWasm::Empty.key(false), &bytes).unwrap();
    assert!(Arc::ptr_eq(&metered, &metered_again));
    assert!(Arc::ptr_eq(&unmetered, &unmetered_again));
}

#[test]
fn compile_failure_is_fatal_for_that_key_only() {
    let mut cache = ModuleCache::new();
    cache.install_configuration(CompilerConfiguration::standard());
    let bad_key = TestWasm::Io.key(true);
    let bad_bytes = vec![0xde, 0xad, 0xbe, 0xef];
    assert!(matches!(cache.get(&bad_key, &bad_bytes), Err(CacheError::CompileFailed(_))));
    // The cache remains valid for other keys.
    let good = cache.get(&TestWasm::Empty.key(true), &TestWasm::Empty.bytes());
    assert!(good.is_ok());
}

#[test]
fn module_installs_standard_configuration_once() {
    let mut cache = ModuleCache::new();
    // First use finds the cache unconfigured, installs the standard
    // configuration and retries, so the caller never sees the signal.
    let artifact = TestWasm::Empty.module(&mut cache, true).unwrap();
    assert!(artifact.metered());
    assert!(cache.is_configured());
    let again = TestWasm::Empty.module(&mut cache, true).unwrap();
    assert!(Arc::ptr_eq(&artifact, &again));
}
