//! Trusted boundary to the execution engine.
//!
//! Everything the library needs from the engine crates passes through the
//! declarations and wrappers in this module; nothing else in the library
//! touches the engine directly.

use vstd::prelude::*;

use crate::instance::CallFault;
use wasmer::sys::CompilerConfig;
use wasmer_middlewares::metering::{get_remaining_points, MeteringPoints};

verus! {

#[verifier::external_type_specification]
#[verifier::external_body]
pub struct ExStore(wasmer::Store);

#[verifier::external_type_specification]
#[verifier::external_body]
pub struct ExModule(wasmer::Module);

#[verifier::external_type_specification]
#[verifier::external_body]
pub struct ExImports(wasmer::Imports);

#[verifier::external_type_specification]
#[verifier::external_body]
pub struct ExInstance(wasmer::Instance);

#[verifier::external_type_specification]
#[verifier::external_body]
pub struct ExCompileError(wasmer::CompileError);

#[verifier::external_type_specification]
#[verifier::external_body]
pub struct ExInstantiationError(wasmer::InstantiationError);

#[verifier::external_type_specification]
#[verifier::external_body]
pub struct ExRuntimeError(wasmer::RuntimeError);

#[verifier::external_type_specification]
#[verifier::external_body]
pub struct ExRawMutex(parking_lot::RawMutex);

#[verifier::external_type_specification]
#[verifier::external_body]
#[verifier::reject_recursive_types(R)]
#[verifier::reject_recursive_types(T)]
pub struct ExMutex<R, T: ?Sized>(parking_lot::lock_api::Mutex<R, T>);

/// Whether the engine's compiler accepts a byte sequence as a module.
/// Compilation is a function of the module bytes alone; the pipeline
/// settings (nan canonicalization, metering) never change which modules
/// are accepted.
pub uninterp spec fn valid_module(bytes: Seq<u8>) -> bool;

/// Relies on std's `Arc::clone`: the clone is a second handle to the
/// same shared value.
#[verifier::external_body]
pub(crate) fn arc_clone<T>(a: &std::sync::Arc<T>) -> (r: std::sync::Arc<T>)
    ensures
        r == *a,
{
    std::sync::Arc::clone(a)
}

/// Relies on `wasmer::Module::new` over a Cranelift engine that carries
/// the `wasmer_middlewares::Metering` middleware: compiles the bytes,
/// charging `crate::cache::flat_operator_cost` per operator against
/// `budget`, and fails exactly on bytes the compiler rejects.
///
/// The middleware sums the per-operator costs of a basic block in a
/// `u64`; a block holds fewer than two to the thirty-second operators,
/// so a cost that fits in 32 bits keeps the sum in range, and the
/// bound below rules out the overflow panic inside the middleware.
#[verifier::external_body]
pub(crate) fn compile_module_metered(
    bytes: &Vec<u8>,
    budget: u64,
    cost_per_operator: u64,
) -> (r: Result<
    (wasmer::Module, std::sync::Arc<parking_lot::Mutex<wasmer::Store>>),
    wasmer::CompileError,
>)
    requires
        cost_per_operator <= u32::MAX as u64,
    ensures
        r is Ok <==> valid_module(bytes@),
{
    let metering = std::sync::Arc::new(wasmer_middlewares::Metering::new(
        budget,
        move |_operator: &wasmer::wasmparser::Operator| crate::cache::flat_operator_cost(
            cost_per_operator,
        ),
    ));
    let mut cranelift = wasmer::sys::Cranelift::default();
    cranelift.canonicalize_nans(true);
    cranelift.push_middleware(metering);
    let store = wasmer::Store::new(cranelift);
    let module = wasmer::Module::new(&store, bytes.as_slice())?;
    Ok((module, std::sync::Arc::new(parking_lot::Mutex::new(store))))
}

/// Relies on `wasmer::Module::new` over a plain Cranelift engine, with no
/// cost accounting: compiles the bytes and fails exactly on bytes the
/// compiler rejects.
#[verifier::external_body]
pub(crate) fn compile_module_unmetered(bytes: &Vec<u8>) -> (r: Result<
    (wasmer::Module, std::sync::Arc<parking_lot::Mutex<wasmer::Store>>),
    wasmer::CompileError,
>)
    ensures
        r is Ok <==> valid_module(bytes@),
{
    let mut cranelift = wasmer::sys::Cranelift::default();
    cranelift.canonicalize_nans(true);
    let store = wasmer::Store::new(cranelift);
    let module = wasmer::Module::new(&store, bytes.as_slice())?;
    Ok((module, std::sync::Arc::new(parking_lot::Mutex::new(store))))
}

/// Relies on `wasmer::Imports::new`: an import set with no entries.
#[verifier::external_body]
pub(crate) fn empty_imports() -> wasmer::Imports {
    wasmer::Imports::new()
}

/// Relies on `wasmer::Instance::new`: links the import set against the
/// module's declared imports and instantiates it, under the store's lock.
/// Fails when the import set does not satisfy the module's imports.
#[verifier::external_body]
pub(crate) fn instantiate_module(
    module: &wasmer::Module,
    store: &std::sync::Arc<parking_lot::Mutex<wasmer::Store>>,
    imports: &wasmer::Imports,
) -> Result<wasmer::Instance, wasmer::InstantiationError> {
    let mut guard = store.lock();
    wasmer::Instance::new(&mut *guard, module, imports)
}

/// Relies on `wasmer::Function::call` and on metering's
/// `get_remaining_points`, under the store's lock: runs the named export
/// and, when the call traps with the instruction budget exhausted,
/// reports the exhaustion as such.
///
/// `get_remaining_points` reads the metering accounting that only a
/// metered pipeline injects, so this is called solely from
/// `InstanceWithStore::call` on metered instances; the library keeps
/// that pairing unforgeable, since instances are built only by
/// `build_instance` from artifacts whose mode the cache set when it
/// chose the pipeline.
#[verifier::external_body]
pub(crate) fn call_export_metered(
    instance: &wasmer::Instance,
    store: &std::sync::Arc<parking_lot::Mutex<wasmer::Store>>,
    name: &str,
) -> Result<(), CallFault> {
    let mut guard = store.lock();
    let f = match instance.exports.get_function(name) {
        Ok(f) => f,
        Err(_) => return Err(CallFault::MissingExport),
    };
    match f.call(&mut *guard, &[]) {
        Ok(_) => Ok(()),
        Err(e) => match get_remaining_points(&mut *guard, instance) {
            MeteringPoints::Exhausted => Err(CallFault::MeteringExhausted),
            MeteringPoints::Remaining(_) => Err(CallFault::Trap(e)),
        },
    }
}

/// Relies on `wasmer::Function::call`, under the store's lock: runs the
/// named export. No cost accounting exists in an unmetered pipeline, so a
/// failure is only ever a missing export or an ordinary trap.
#[verifier::external_body]
pub(crate) fn call_export_unmetered(
    instance: &wasmer::Instance,
    store: &std::sync::Arc<parking_lot::Mutex<wasmer::Store>>,
    name: &str,
) -> (r: Result<(), CallFault>)
    ensures
        r matches Err(f) ==> f is MissingExport || f is Trap,
{
    let mut guard = store.lock();
    let f = match instance.exports.get_function(name) {
        Ok(f) => f,
        Err(_) => return Err(CallFault::MissingExport),
    };
    match f.call(&mut *guard, &[]) {
        Ok(_) => Ok(()),
        Err(e) => Err(CallFault::Trap(e)),
    }
}

} // verus!
