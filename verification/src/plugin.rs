//! Host-plugin surface. The plugin hosts the vision thread, reads from the
//! ring buffer on the audio thread, and writes parameter updates that the
//! host records as automation.

use vstd::prelude::*;

verus! {

/// The tracker plugin. It carries no state yet.
pub struct TrackerPlugin;

/// Version of the C ABI exported by the application crate. No stable ABI
/// has been published yet, so the version is zero.
pub fn uify_abi_version() -> (v: u32)
    ensures
        v == 0,
{
    0
}

} // verus!
