//! Interface types of the 32-bit guest.

pub mod arch_version;
pub mod coprocessor_util;
