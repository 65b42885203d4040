//! Error types for the crate's public surface.

use vstd::prelude::*;

use crate::cpu::flags::FeatureError;
use crate::cpu::info::CpuError;

verus! {

/// Main error type for detection operations.
#[derive(Debug)]
pub enum Error {
    /// CPU detection failed outright.
    CpuDetection(String),
    /// A CPU information error.
    Cpu(CpuError),
    /// A feature detection error.
    Feature(FeatureError),
    /// No identification backend exists for the running architecture.
    UnsupportedArchitecture,
    /// Any other error, described in text.
    Other(String),
}

impl From<CpuError> for Error {
    /// Wraps a CPU information error.
    fn from(err: CpuError) -> (r: Error) {
        Error::Cpu(err)
    }
}

impl vstd::std_specs::convert::FromSpecImpl<CpuError> for Error {
    open spec fn obeys_from_spec() -> bool {
        true
    }

    open spec fn from_spec(err: CpuError) -> Error {
        Error::Cpu(err)
    }
}

impl From<FeatureError> for Error {
    /// Wraps a feature detection error.
    fn from(err: FeatureError) -> (r: Error) {
        Error::Feature(err)
    }
}

impl vstd::std_specs::convert::FromSpecImpl<FeatureError> for Error {
    open spec fn obeys_from_spec() -> bool {
        true
    }

    open spec fn from_spec(err: FeatureError) -> Error {
        Error::Feature(err)
    }
}

impl From<String> for Error {
    /// Wraps a plain error description.
    fn from(err: String) -> (r: Error) {
        Error::Other(err)
    }
}

impl vstd::std_specs::convert::FromSpecImpl<String> for Error {
    open spec fn obeys_from_spec() -> bool {
        true
    }

    open spec fn from_spec(err: String) -> Error {
        Error::Other(err)
    }
}

} // verus!
