//! The instance builder: binds a cached artifact to a concrete import set
//! and runs exported functions under the artifact's store lock.

use vstd::prelude::*;

use crate::cache::{CacheError, ModuleWithStore};
use crate::engine::{
    arc_clone, call_export_metered, call_export_unmetered, instantiate_module,
};
use std::sync::Arc;

verus! {

/// Why running an exported guest function failed.
#[derive(Debug)]
pub enum CallFault {
    /// The instance exports no function under the requested name.
    MissingExport,
    /// Metered execution ran out of its instruction budget and was
    /// aborted: the cancellation signal for runaway guest code.
    MeteringExhausted,
    /// The guest trapped for an ordinary reason of its own.
    Trap(wasmer::RuntimeError),
}

/// Why no instance could be produced.
#[derive(Debug)]
pub enum InstanceError {
    /// The cache yielded no artifact for the module.
    Cache(CacheError),
    /// The import set did not satisfy the module's declared imports, or
    /// instantiation failed in the engine: fatal for this attempt.
    Instantiation(wasmer::InstantiationError),
}

/// An executable instance bound to its artifact's store. Owned by the
/// caller that built it; each call serializes on the store's lock. The
/// fields stay inside the crate, so an instance is never paired with a
/// foreign store, and its recorded mode always matches the pipeline its
/// module was compiled under — a metered instance therefore always
/// carries the metering accounting that exhaustion detection reads.
pub struct InstanceWithStore {
    pub(crate) instance: wasmer::Instance,
    pub(crate) store: Arc<parking_lot::Mutex<wasmer::Store>>,
    pub(crate) mode_metered: bool,
}

impl InstanceWithStore {
    /// Whether the instance executes under the metered pipeline.
    pub open(crate) spec fn is_metered(&self) -> bool {
        self.mode_metered
    }

    /// The store the instance shares with its artifact.
    pub open(crate) spec fn store_handle(&self) -> Arc<parking_lot::Mutex<wasmer::Store>> {
        self.store
    }

    /// Whether the instance executes under the metered pipeline.
    pub fn metered(&self) -> (b: bool)
        ensures
            b == self.is_metered(),
    {
        self.mode_metered
    }
}

/// Links the import set against the artifact's module and instantiates
/// it under the store's lock. A signature mismatch is surfaced, never
/// patched. The instance shares the artifact's store and keeps the
/// artifact's execution mode.
pub fn build_instance(artifact: &Arc<ModuleWithStore>, imports: &wasmer::Imports) -> (r: Result<
    InstanceWithStore,
    wasmer::InstantiationError,
>)
    ensures
        r matches Ok(inst) ==> inst.is_metered() == artifact.is_metered() && inst.store_handle()
            == artifact.store_handle(),
{
    let store = arc_clone(&artifact.store);
    match instantiate_module(&artifact.module, &store, imports) {
        Ok(instance) => Ok(
            InstanceWithStore { instance, store, mode_metered: artifact.metered() },
        ),
        Err(e) => Err(e),
    }
}

impl InstanceWithStore {
    /// Runs the exported function of the given name, which must take
    /// and return nothing. Under a metered pipeline a call that exhausts
    /// its instruction budget is aborted and reported as exhaustion; an
    /// unmetered instance carries no cost accounting, so it never
    /// reports exhaustion.
    pub fn call(&self, name: &str) -> (r: Result<(), CallFault>)
        ensures
            !self.is_metered() ==> (r matches Err(f) ==> !(f is MeteringExhausted)),
    {
        if self.mode_metered {
            call_export_metered(&self.instance, &self.store, name)
        } else {
            call_export_unmetered(&self.instance, &self.store, name)
        }
    }
}

} // verus!
