//! Host-processor identification library.
//!
//! The crate decodes the processor's identification registers into a
//! normalized, architecture-independent data model: vendor, brand string,
//! version (family/model/stepping), core counts, cache hierarchy, clock
//! frequency and instruction-set feature flags.  All decoding and all
//! fallback logic is verified; the only trusted pieces are the raw
//! register reads and core-count queries themselves.

pub mod arch;
pub mod cli;
pub mod cpu;
pub mod error;
pub mod printer;

pub use cpu::info::{CpuError, CpuInfo, Frequency, Vendor, Version};
pub use error::Error;
