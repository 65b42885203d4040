//! Tests for the data model: vendor names, version folding, defaults and
//! the cached-snapshot holder.

use cpufetch::cpu::info::CpuCache;
use cpufetch::cpu::info::CpuInfo;
use cpufetch::cpu::info::Vendor;
use cpufetch::cpu::info::fold_family;
use cpufetch::cpu::info::fold_model;

#[test]
fn test_vendor_display() {
    assert_eq!(Vendor::Intel.name(), "Intel");
    assert_eq!(Vendor::AMD.name(), "AMD");
    assert_eq!(Vendor::ARM.name(), "ARM");
    assert_eq!(Vendor::Unknown(String::new()).name(), "Unknown");
}

#[test]
fn test_cpu_info_default() {
    let info = CpuInfo::default();
    assert!(matches!(info.vendor, Vendor::Unknown(_)));
    assert_eq!(info.physical_cores, 0);
    assert_eq!(info.logical_cores, 0);
    assert_eq!(info.cache_sizes, [None; 4]);
}

#[test]
fn test_fold_family_extended() {
    // Base family 0xF folds the extended nibble in: (0x2 << 4) + 0xF.
    assert_eq!(fold_family(0xF, 0x2), 0x2F);
}

#[test]
fn test_fold_family_plain() {
    // Any other base family is used unchanged.
    assert_eq!(fold_family(0x6, 0x2), 0x6);
    assert_eq!(fold_family(0x5, 0xFF), 0x5);
}

#[test]
fn test_fold_model_extended() {
    // Base family 0x6 folds the extended model in: (0x3 << 4) + 0x5.
    assert_eq!(fold_model(0x6, 0x5, 0x3), 0x35);
    // Base family 0xF folds as well.
    assert_eq!(fold_model(0xF, 0xA, 0x1), 0x1A);
}

#[test]
fn test_fold_model_plain() {
    assert_eq!(fold_model(0x5, 0x7, 0x3), 0x7);
}

#[test]
fn test_cached_holder_detects_once() {
    let mut cache = CpuCache::new();
    assert_eq!(cache.detect_count, 0);
    let first = cache.get().expect("Failed to detect CPU");
    assert_eq!(cache.detect_count, 1);
    let second = cache.get().expect("Failed to read cached CPU");
    // The second access must not have re-run detection.
    assert_eq!(cache.detect_count, 1);
    assert_eq!(first.vendor, second.vendor);
    assert_eq!(first.brand_string, second.brand_string);
    assert_eq!(first.version, second.version);
    assert_eq!(first.physical_cores, second.physical_cores);
    assert_eq!(first.logical_cores, second.logical_cores);
    assert_eq!(first.cache_sizes, second.cache_sizes);
    assert_eq!(first.features, second.features);
}
