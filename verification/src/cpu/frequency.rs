//! CPU frequency resolution.
//!
//! Reading the OS sources (processor listing, scaling files, a generic
//! system query) is I/O and stays outside the library; what lives here is
//! the resolution chain itself: authoritative readings first, then the
//! generic current-frequency reading, and as a last resort a heuristic
//! estimate of base and maximum around whatever current value was found —
//! documented as approximate, not measured.  All values are whole MHz.

use vstd::prelude::*;

use crate::cpu::info::Frequency;

verus! {

/// Raw frequency readings, as the OS exposes them.  Every field is
/// independent and optional; a reading that could not be made is absent.
#[derive(Clone, Copy, PartialEq, Eq, Debug)]
pub struct FrequencyReadings {
    /// Current frequency from the processor listing, whole MHz.
    pub cpuinfo_current_mhz: Option<u32>,
    /// Maximum frequency from the processor listing, whole MHz.
    pub cpuinfo_max_mhz: Option<u32>,
    /// Minimum frequency from the processor listing, whole MHz; used as the
    /// base frequency.
    pub cpuinfo_min_mhz: Option<u32>,
    /// Current frequency from the scaling driver, kHz.
    pub scaling_cur_khz: Option<u32>,
    /// Maximum frequency from the scaling driver, kHz.
    pub scaling_max_khz: Option<u32>,
    /// Base frequency from the scaling driver, kHz.
    pub base_khz: Option<u32>,
}

impl Default for FrequencyReadings {
    /// No reading made at all.
    fn default() -> (r: Self)
        ensures
            r.cpuinfo_current_mhz is None,
            r.cpuinfo_max_mhz is None,
            r.cpuinfo_min_mhz is None,
            r.scaling_cur_khz is None,
            r.scaling_max_khz is None,
            r.base_khz is None,
    {
        FrequencyReadings {
            cpuinfo_current_mhz: None,
            cpuinfo_max_mhz: None,
            cpuinfo_min_mhz: None,
            scaling_cur_khz: None,
            scaling_max_khz: None,
            base_khz: None,
        }
    }
}

/// A kHz reading in whole MHz.
pub open spec fn spec_khz_to_mhz(khz: u32) -> u32 {
    (khz / 1000) as u32
}

/// Converts a kHz reading to whole MHz.
pub fn khz_to_mhz(khz: u32) -> (r: u32)
    ensures
        r == spec_khz_to_mhz(khz),
{
    khz / 1000
}

/// A 64-bit value clamped into the 32-bit range.
pub open spec fn spec_clamp_mhz(n: int) -> u32 {
    if n > 0xFFFF_FFFF {
        0xFFFF_FFFFu32
    } else {
        n as u32
    }
}

/// The frequency resolved from the authoritative readings alone: each field
/// prefers the processor listing and falls back to the scaling driver's
/// kHz reading.
pub open spec fn spec_resolve_authoritative(rd: FrequencyReadings) -> Frequency {
    Frequency {
        current: match rd.cpuinfo_current_mhz {
            Some(m) => Some(m),
            None => match rd.scaling_cur_khz {
                Some(k) => Some(spec_khz_to_mhz(k)),
                None => None,
            },
        },
        max: match rd.cpuinfo_max_mhz {
            Some(m) => Some(m),
            None => match rd.scaling_max_khz {
                Some(k) => Some(spec_khz_to_mhz(k)),
                None => None,
            },
        },
        base: match rd.cpuinfo_min_mhz {
            Some(m) => Some(m),
            None => match rd.base_khz {
                Some(k) => Some(spec_khz_to_mhz(k)),
                None => None,
            },
        },
    }
}

/// The heuristic estimate around a generic current reading: base is ninety
/// percent of the current value and max a tenth above it, clamped into
/// range.  An absent reading yields the wholly-unknown frequency.
pub open spec fn spec_resolve_generic(current: Option<u32>) -> Frequency {
    match current {
        Some(c) => Frequency {
            base: Some(((c as int) * 9 / 10) as u32),
            max: Some(spec_clamp_mhz((c as int) * 11 / 10)),
            current: Some(c),
        },
        None => Frequency { base: None, max: None, current: None },
    }
}

/// The resolved frequency: the authoritative readings when any of them was
/// made, otherwise the heuristic estimate around the generic reading.
pub open spec fn spec_resolve_frequency(
    rd: FrequencyReadings,
    generic_current_mhz: Option<u32>,
) -> Frequency {
    let auth = spec_resolve_authoritative(rd);
    if auth.base is None && auth.max is None && auth.current is None {
        spec_resolve_generic(generic_current_mhz)
    } else {
        auth
    }
}

/// The frequency resolved from a management-instrumentation report of
/// current and maximum clock speeds: both pass through unchanged, and the
/// base is estimated as eighty percent of the maximum whenever the maximum
/// is known — a documented rule of thumb, not a measurement.
pub open spec fn spec_resolve_reported(current: Option<u32>, max: Option<u32>) -> Frequency {
    Frequency {
        base: match max {
            Some(m) => Some(((m as int) * 8 / 10) as u32),
            None => None,
        },
        max,
        current,
    }
}

/// Resolves a management-instrumentation report of current and maximum
/// clock speeds, estimating the base frequency from the maximum.
pub fn resolve_reported_frequency(current: Option<u32>, max: Option<u32>) -> (r: Frequency)
    ensures
        r == spec_resolve_reported(current, max),
{
    let base: Option<u32> = match max {
        Some(m) => Some(((m as u64) * 8 / 10) as u32),
        None => None,
    };
    Frequency { base, max, current }
}

/// A Hz reading, as a firmware interface reports it, in whole MHz,
/// saturated at the 32-bit maximum.
pub open spec fn spec_hz_to_mhz(hz: u64) -> u32 {
    if hz / 1_000_000 > 0xFFFF_FFFF {
        0xFFFF_FFFFu32
    } else {
        (hz / 1_000_000) as u32
    }
}

/// Converts a Hz reading to whole MHz.
pub fn hz_to_mhz(hz: u64) -> (r: u32)
    ensures
        r == spec_hz_to_mhz(hz),
{
    let mhz = hz / 1_000_000;
    if mhz > 0xFFFF_FFFFu64 {
        0xFFFF_FFFFu32
    } else {
        mhz as u32
    }
}

/// Resolves the heuristic estimate around a generic current reading.
pub fn resolve_generic_frequency(current: Option<u32>) -> (r: Frequency)
    ensures
        r == spec_resolve_generic(current),
{
    match current {
        Some(c) => {
            let base: u32 = ((c as u64) * 9 / 10) as u32;
            let max64: u64 = (c as u64) * 11 / 10;
            let max: u32 = if max64 > 0xFFFF_FFFFu64 {
                0xFFFF_FFFFu32
            } else {
                max64 as u32
            };
            Frequency { base: Some(base), max: Some(max), current: Some(c) }
        },
        None => Frequency { base: None, max: None, current: None },
    }
}

/// Resolves the frequency from the readings, trying the sources in fixed
/// order: the processor listing, then the scaling driver, then the generic
/// reading with the heuristic estimate.
pub fn resolve_frequency(rd: &FrequencyReadings, generic_current_mhz: Option<u32>) -> (r:
    Frequency)
    ensures
        r == spec_resolve_frequency(*rd, generic_current_mhz),
{
    let current: Option<u32> = match rd.cpuinfo_current_mhz {
        Some(m) => Some(m),
        None => match rd.scaling_cur_khz {
            Some(k) => Some(khz_to_mhz(k)),
            None => None,
        },
    };
    let max: Option<u32> = match rd.cpuinfo_max_mhz {
        Some(m) => Some(m),
        None => match rd.scaling_max_khz {
            Some(k) => Some(khz_to_mhz(k)),
            None => None,
        },
    };
    let base: Option<u32> = match rd.cpuinfo_min_mhz {
        Some(m) => Some(m),
        None => match rd.base_khz {
            Some(k) => Some(khz_to_mhz(k)),
            None => None,
        },
    };
    if base.is_none() && max.is_none() && current.is_none() {
        resolve_generic_frequency(generic_current_mhz)
    } else {
        Frequency { base, max, current }
    }
}

} // verus!
