//! Guest front ends.

pub mod a32;
