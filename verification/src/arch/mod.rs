//! Architecture-specific CPU detection implementations, and the OS-level
//! core-count queries they share.

use vstd::prelude::*;

pub mod aarch64;
pub mod x86_64;

verus! {

/// Relies on `num_cpus::get`: returns the number of available logical CPUs
/// of the current system, documented to always be at least one.
pub assume_specification[ num_cpus::get ]() -> (r: usize)
    ensures
        1 <= r,
;

/// Relies on `num_cpus::get_physical`: returns the number of physical cores
/// of the current system, documented to always be at least one.
pub assume_specification[ num_cpus::get_physical ]() -> (r: usize)
    ensures
        1 <= r,
;

/// A count clamped into the 32-bit range.
pub open spec fn spec_clamp_u32(n: int) -> u32 {
    if n > 0xFFFF_FFFF {
        0xFFFF_FFFFu32
    } else {
        n as u32
    }
}

/// Normalizes raw core counts: both are clamped to 32 bits and the physical
/// count is capped at the logical count, so that a physical count never
/// exceeds the logical one.
pub fn normalize_core_counts(physical_raw: usize, logical_raw: usize) -> (r: (u32, u32))
    requires
        1 <= physical_raw,
        1 <= logical_raw,
    ensures
        r.1 == spec_clamp_u32(logical_raw as int),
        r.0 == (if physical_raw >= logical_raw {
            r.1
        } else {
            spec_clamp_u32(physical_raw as int)
        }),
        1 <= r.0 <= r.1,
{
    let logical: u32 = if logical_raw > 0xFFFF_FFFFusize {
        0xFFFF_FFFFu32
    } else {
        logical_raw as u32
    };
    let physical: u32 = if physical_raw >= logical_raw {
        logical
    } else if physical_raw > 0xFFFF_FFFFusize {
        0xFFFF_FFFFu32
    } else {
        physical_raw as u32
    };
    (physical, logical)
}

/// Queries the OS for the core counts and normalizes them.  The first
/// component is the physical count, the second the logical count.
pub fn core_counts() -> (r: (u32, u32))
    ensures
        1 <= r.0 <= r.1,
{
    let logical_raw = num_cpus::get();
    let physical_raw = num_cpus::get_physical();
    normalize_core_counts(physical_raw, logical_raw)
}

} // verus!
