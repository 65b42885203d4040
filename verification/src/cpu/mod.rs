//! Processor detection and querying: feature flags, raw identification
//! registers, cache topology, frequency and the aggregated snapshot.

pub mod cpuid;
pub mod flags;
pub mod frequency;
pub mod info;

pub use flags::{detect_features, ArmFeatures, FeatureError, X86Features};
pub use cpuid::{CacheInfo, CacheType, CpuidError, CpuidWrapper};
pub use info::{CpuError, CpuInfo, Frequency, Vendor, Version};
pub use cpuid::CpuidRegister;
