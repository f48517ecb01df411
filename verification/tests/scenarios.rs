use wasm_boundary::cache::{CacheKey, CompilerConfiguration, ModuleCache};
use wasm_boundary::instance::{build_instance, CallFault};
use wasm_boundary::wasms::TestWasm;

#[test]
fn inert_module_compiles_and_instantiates() {
    // A module with zero exported functions and zero imports yields a
    // usable, inert instance handle.
    let mut cache = ModuleCache::new();
    let instance = TestWasm::Empty.instance(&mut cache).unwrap();
    assert!(instance.metered());
    // It exports nothing, so there is nothing to call.
    assert!(matches!(instance.call("run"), Err(CallFault::MissingExport)));
}

#[test]
fn endless_loop_aborts_under_small_budget() {
    // A single exported function that loops indefinitely, run under a
    // budget of 1000 units at 1 unit per operation, aborts with the
    // exhaustion signal instead of hanging.
    let mut cache = ModuleCache::new();
    cache.install_configuration(CompilerConfiguration {
        instruction_budget: 1000,
        cost_per_operator: 1,
    });
    let instance = TestWasm::Test.instance(&mut cache).unwrap();
    assert!(matches!(instance.call("run"), Err(CallFault::MeteringExhausted)));
}

#[test]
fn identical_bytes_metered_aborts_unmetered_completes() {
    // The same module bytes under both modes: the metered instance
    // exhausts a tiny budget; the unmetered one runs to completion.
    let mut cache = ModuleCache::new();
    cache.install_configuration(CompilerConfiguration {
        instruction_budget: 1000,
        cost_per_operator: 1,
    });
    let metered = TestWasm::Io.instance(&mut cache).unwrap();
    assert!(matches!(metered.call("run"), Err(CallFault::MeteringExhausted)));
    let unmetered = TestWasm::Io.unmetered_instance(&mut cache).unwrap();
    assert!(unmetered.call("run").is_ok());
}

#[test]
fn memory_module_compiles() {
    let mut cache = ModuleCache::new();
    let artifact = TestWasm::Memory.module(&mut cache, false).unwrap();
    assert!(!artifact.metered());
    let again = TestWasm::Memory.module(&mut cache, false).unwrap();
    assert!(std::sync::Arc::ptr_eq(&artifact, &again));
}

#[test]
fn unsatisfied_imports_are_surfaced() {
    // A module that imports a function, linked against an empty import
    // set: the mismatch is fatal for the attempt and is reported.
    let mut cache = ModuleCache::new();
    cache.install_configuration(CompilerConfiguration::standard());
    let key = CacheKey { content: vec![9u8; 32], metered: false };
    let bytes = vec![
        0x00, 0x61, 0x73, 0x6d, 0x01, 0x00, 0x00, 0x00, // magic, version
        0x01, 0x04, 0x01, 0x60, 0x00, 0x00, // one type: [] -> []
        0x02, 0x09, 0x01, 0x03, 0x65, 0x6e, 0x76, 0x01, 0x66, 0x00, 0x00, // import "env" "f"
    ];
    let artifact = cache.get(&key, &bytes).unwrap();
    let imports = wasmer::Imports::new();
    assert!(build_instance(&artifact, &imports).is_err());
}

#[test]
fn fixture_names_and_keys() {
    assert_eq!(TestWasm::Empty.name(), "empty");
    assert_eq!(TestWasm::Io.name(), "io");
    assert_eq!(TestWasm::Test.name(), "test");
    assert_eq!(TestWasm::Memory.name(), "memory");

    let k = TestWasm::Test.key(true);
    assert_eq!(k.content, vec![5u8; 32]);
    assert!(k.metered);
    let k = TestWasm::Memory.key(false);
    assert_eq!(k.content, vec![6u8; 32]);
    assert!(!k.metered);

    // Every module starts with the binary magic and version.
    for w in [TestWasm::Empty, TestWasm::Io, TestWasm::Test, TestWasm::Memory] {
        let b = w.bytes();
        assert_eq!(&b[0..8], &[0x00, 0x61, 0x73, 0x6d, 0x01, 0x00, 0x00, 0x00]);
    }
}
