//! A verified front end for a dynamic recompiler of 32-bit ARM code.
//!
//! The crate decodes A32 and Thumb instructions and translates them to a
//! small intermediate representation. Every function states in its contract
//! exactly what it decodes or which intermediate instructions it appends.

pub mod bits;
pub mod frontend;
pub mod interface;
pub mod ir;
