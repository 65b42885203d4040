//! Tests for the frequency resolution chain.

use cpufetch::cpu::frequency::FrequencyReadings;
use cpufetch::cpu::frequency::hz_to_mhz;
use cpufetch::cpu::frequency::khz_to_mhz;
use cpufetch::cpu::frequency::resolve_frequency;
use cpufetch::cpu::frequency::resolve_reported_frequency;

fn no_readings() -> FrequencyReadings {
    FrequencyReadings {
        cpuinfo_current_mhz: None,
        cpuinfo_max_mhz: None,
        cpuinfo_min_mhz: None,
        scaling_cur_khz: None,
        scaling_max_khz: None,
        base_khz: None,
    }
}

#[test]
fn test_khz_to_mhz() {
    assert_eq!(khz_to_mhz(3_500_000), 3500);
    assert_eq!(khz_to_mhz(999), 0);
}

#[test]
fn test_authoritative_readings_win() {
    let mut rd = no_readings();
    rd.cpuinfo_current_mhz = Some(2400);
    rd.cpuinfo_max_mhz = Some(4000);
    rd.cpuinfo_min_mhz = Some(800);
    let f = resolve_frequency(&rd, Some(9999));
    assert_eq!(f.current, Some(2400));
    assert_eq!(f.max, Some(4000));
    assert_eq!(f.base, Some(800));
}

#[test]
fn test_scaling_fallback_converts_khz() {
    let mut rd = no_readings();
    rd.scaling_cur_khz = Some(3_500_000);
    rd.scaling_max_khz = Some(4_200_000);
    let f = resolve_frequency(&rd, None);
    assert_eq!(f.current, Some(3500));
    assert_eq!(f.max, Some(4200));
    assert_eq!(f.base, None);
}

#[test]
fn test_listing_preferred_over_scaling() {
    let mut rd = no_readings();
    rd.cpuinfo_current_mhz = Some(2000);
    rd.scaling_cur_khz = Some(3_000_000);
    let f = resolve_frequency(&rd, None);
    assert_eq!(f.current, Some(2000));
}

#[test]
fn test_generic_heuristic_estimate() {
    // With no authoritative reading at all, base and max are estimated
    // ten percent around the generic current value.
    let f = resolve_frequency(&no_readings(), Some(2000));
    assert_eq!(f.current, Some(2000));
    assert_eq!(f.base, Some(1800));
    assert_eq!(f.max, Some(2200));
}

#[test]
fn test_reported_frequency_estimates_base() {
    // A management-instrumentation report passes current and maximum
    // through; the base is estimated as eighty percent of the maximum.
    let f = resolve_reported_frequency(Some(3000), Some(4000));
    assert_eq!(f.current, Some(3000));
    assert_eq!(f.max, Some(4000));
    assert_eq!(f.base, Some(3200));

    let g = resolve_reported_frequency(Some(2500), None);
    assert_eq!(g.current, Some(2500));
    assert_eq!(g.max, None);
    assert_eq!(g.base, None);
}

#[test]
fn test_hz_to_mhz() {
    assert_eq!(hz_to_mhz(3_200_000_000), 3200);
    assert_eq!(hz_to_mhz(999_999), 0);
}

#[test]
fn test_nothing_resolves_to_nothing() {
    let f = resolve_frequency(&no_readings(), None);
    assert_eq!(f.base, None);
    assert_eq!(f.max, None);
    assert_eq!(f.current, None);
}
