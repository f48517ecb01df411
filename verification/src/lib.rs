use vstd::prelude::*;

pub mod allocation;
pub mod cache;
pub mod engine;
pub mod instance;
pub mod wasms;

verus! {

/// An address into the guest's linear memory.
pub type GuestPtr = u32;

/// A byte count for a region of guest linear memory.
pub type Len = u32;

} // verus!
