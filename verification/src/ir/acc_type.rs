//! Kinds of memory access.

use vstd::prelude::*;

verus! {

/// The kind of a memory access.
#[derive(Clone, Copy, Debug, PartialEq, Eq, Structural)]
pub enum AccType {
    Normal,
    Atomic,
    Ordered,
    Unprivileged,
}

} // verus!
