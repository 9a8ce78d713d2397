//! The 32-bit ARM front end.

pub mod decoder;
pub mod decoder_bits;
pub mod decoder_laws;
pub mod decoder_thumb16;
pub mod decoder_thumb16_bits;
pub mod decoder_thumb32;
pub mod decoder_thumb32_bits;
pub mod fpscr;
pub mod it_state;
pub mod psr;
pub mod translate;
pub mod types;
