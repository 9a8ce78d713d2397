//! Guest architecture versions.

use vstd::prelude::*;

verus! {

/// Version of the ARM architecture that the guest code targets.
#[derive(Clone, Copy, Debug, PartialEq, Eq, Structural)]
pub enum ArchVersion {
    V3,
    V4,
    V4T,
    V5TE,
    V6K,
    V6T2,
    V7,
    V8,
}

} // verus!
