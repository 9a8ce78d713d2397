//! The intermediate representation.

pub mod a32_emitter;
pub mod acc_type;
pub mod block;
pub mod cond;
pub mod emitter_ops;
pub mod lanes;
pub mod location;
pub mod meaning;
pub mod meaning_steps;
pub mod opcode;
pub mod terminal;
pub mod value;
