//! Types shared with the embedding program.

pub mod a32;
