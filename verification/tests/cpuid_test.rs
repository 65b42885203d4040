//! Tests for the identification backend: live queries on the host and the
//! decoding and fallback logic on constructed snapshots.

use cpufetch::cpu::cpuid::CacheType;
use cpufetch::cpu::cpuid::CpuidRegister;
use cpufetch::cpu::cpuid::CpuidRegs;
use cpufetch::cpu::cpuid::CpuidSnapshot;
use cpufetch::cpu::cpuid::CpuidWrapper;
use cpufetch::cpu::cpuid::decode_brand_string;
use cpufetch::cpu::cpuid::decode_cache_descriptor;
use cpufetch::cpu::cpuid::resolve_cache_topology;

fn empty_snapshot() -> CpuidSnapshot {
    CpuidSnapshot {
        highest_leaf: 0,
        vendor_ebx: 0,
        vendor_edx: 0,
        vendor_ecx: 0,
        leaf1: None,
        leaf7: None,
        highest_ext_leaf: 0,
        brand_regs: None,
        cache_params: Vec::new(),
        amd_l1: None,
        amd_l2l3: None,
    }
}

fn intel_vendor_regs() -> (u32, u32, u32) {
    (
        u32::from_le_bytes(*b"Genu"),
        u32::from_le_bytes(*b"ineI"),
        u32::from_le_bytes(*b"ntel"),
    )
}

#[test]
fn cpuid_test_basic_info() {
    let wrapper = CpuidWrapper::new();
    let info = wrapper.get_basic_info().expect("Failed to get basic CPU info");

    // Basic sanity checks that should pass on any x86/x86_64 CPU
    assert!(!info.vendor_string.is_empty());
    assert!(!info.brand_string.is_empty());

    // All modern CPUs should have at least one feature
    assert!(info.base_features != 0 || info.extended_features != 0);
}

#[test]
fn cpuid_test_cache_topology() {
    let wrapper = CpuidWrapper::new();
    let topology = wrapper.get_cache_topology().expect("Failed to get cache topology");

    // Most CPUs should have at least one cache
    let has_at_least_one_cache = topology.caches.iter().any(|cache| cache.is_some());
    assert!(has_at_least_one_cache, "No caches detected on this CPU");
}

#[test]
fn test_basic_info() {
    let cpuid = CpuidWrapper::new();
    let info = cpuid.get_basic_info().expect("Failed to get basic info");

    // Verify basic information is correct
    assert!(!info.vendor_string.is_empty());
    assert!(!info.brand_string.is_empty());
    assert!(info.family > 0);

    println!("Vendor: {}", info.vendor_string);
    println!("Brand: {}", info.brand_string);
    println!(
        "Family: {}, Model: {}, Stepping: {}",
        info.family, info.model, info.stepping
    );
}

#[test]
fn test_cache_topology() {
    let cpuid = CpuidWrapper::new();
    let topology = cpuid.get_cache_topology().expect("Failed to get cache topology");

    // Print all detected caches for debugging
    for (i, cache) in topology.caches.iter().enumerate() {
        if let Some(cache_info) = cache {
            println!(
                "Cache[{}]: Level={}, Type={}, Size={}KB, Line size={}, Associativity={}, Cores sharing={}",
                i,
                cache_info.level,
                cache_info.cache_type.name(),
                cache_info.size_kb,
                cache_info.line_size,
                cache_info.associativity,
                cache_info.shared_by
            );
        } else {
            println!("Cache[{}]: Not present", i);
        }
    }

    // Check that at least one cache was detected
    let cache_count = topology.caches.iter().filter(|c| c.is_some()).count();

    assert!(
        cache_count > 0,
        "No caches detected, which is unexpected for modern CPUs"
    );
}

#[test]
fn test_features() {
    let cpuid = CpuidWrapper::new();

    // Check basic features that almost all modern CPUs should have
    assert!(
        cpuid.has_feature(0, CpuidRegister::EDX),
        "FPU should be supported"
    );

    // Print available features for debugging
    if let Ok(info) = cpuid.get_basic_info() {
        println!("Base features: {:#x}", info.base_features);
        println!("Extended features: {:#x}", info.extended_features);
    }
}

#[test]
fn test_cache_size_computation() {
    // associativity = 8, line partitions = 1, line size = 64 bytes,
    // sets = 64: size must be 8 * 1 * 64 * 64 / 1024 = 32 KB.
    let regs = CpuidRegs {
        eax: 1 | (1 << 5),                      // data cache, level 1
        ebx: (7 << 22) | (0 << 12) | 63,        // 8 ways, 1 partition, 64-byte lines
        ecx: 63,                                // 64 sets
        edx: 0,
    };
    let info = decode_cache_descriptor(&regs);
    assert_eq!(info.size_kb, 32);
    assert_eq!(info.associativity, 8);
    assert_eq!(info.line_size, 64);
    assert_eq!(info.sets, 64);
    assert_eq!(info.level, 1);
    assert_eq!(info.cache_type, CacheType::Data);
}

#[test]
fn test_strategy_order_stops_at_first_success() {
    // A backend that fails the deterministic strategy but answers the
    // vendor-extended one: the result must be attributable only to the
    // second strategy's data.
    let mut snap = empty_snapshot();
    snap.highest_leaf = 7;
    snap.amd_l1 = Some(CpuidRegs {
        eax: 0,
        ebx: 0,
        ecx: (32 << 24) | (8 << 16) | 64,       // L1 data: 32 KB, 8-way, 64-byte lines
        edx: (64 << 24) | (8 << 16) | 64,       // L1 instruction: 64 KB
    });
    snap.amd_l2l3 = Some(CpuidRegs {
        eax: 0,
        ebx: 0,
        ecx: (512 << 16) | (6 << 12) | 64,      // L2: 512 KB
        edx: 0,                                 // no L3
    });

    let topology = resolve_cache_topology(&snap);
    let l1i = topology.caches[0].expect("L1 instruction slot must be filled");
    assert_eq!(l1i.size_kb, 64);
    assert_eq!(l1i.cache_type, CacheType::Instruction);
    assert_eq!(l1i.sets, 0); // the extended leaves report no set counts
    let l1d = topology.caches[1].expect("L1 data slot must be filled");
    assert_eq!(l1d.size_kb, 32);
    let l2 = topology.caches[2].expect("L2 slot must be filled");
    assert_eq!(l2.size_kb, 512);
    assert_eq!(l2.cache_type, CacheType::Unified);
    assert!(topology.caches[3].is_none());
}

#[test]
fn test_strategy_one_shadows_strategy_two() {
    // When the deterministic enumeration yields, the vendor-extended data
    // must be ignored entirely: no merging across strategies.
    let mut snap = empty_snapshot();
    snap.highest_leaf = 7;
    snap.cache_params = vec![CpuidRegs {
        eax: 2 | (1 << 5),                      // instruction cache, level 1
        ebx: (7 << 22) | 63,                    // 8 ways, 64-byte lines
        ecx: 63,                                // 64 sets
        edx: 0,
    }];
    snap.amd_l2l3 = Some(CpuidRegs {
        eax: 0,
        ebx: 0,
        ecx: (512 << 16) | (6 << 12) | 64,      // would give an L2 entry
        edx: 0,
    });

    let topology = resolve_cache_topology(&snap);
    let l1i = topology.caches[0].expect("L1 instruction slot must be filled");
    assert_eq!(l1i.size_kb, 32);
    assert_eq!(l1i.sets, 64); // deterministic data carries set counts
    assert!(
        topology.caches[2].is_none(),
        "the L2 entry of the weaker strategy must not leak in"
    );
}

#[test]
fn test_defaults_apply_despite_legacy_leaf() {
    // Nothing deterministic, nothing vendor-extended.  The legacy
    // descriptor table is never decoded, so even on a processor that
    // reports the legacy leaf its parse yields nothing and the hard-coded
    // vendor defaults apply.
    let (ebx, edx, ecx) = intel_vendor_regs();
    let mut snap = empty_snapshot();
    snap.highest_leaf = 2;
    snap.vendor_ebx = ebx;
    snap.vendor_edx = edx;
    snap.vendor_ecx = ecx;
    snap.leaf1 = Some(CpuidRegs { eax: 0, ebx: 0, ecx: 0, edx: 0 });

    let topology = resolve_cache_topology(&snap);
    assert_eq!(topology.caches[0].expect("default L1i").size_kb, 32);
    assert_eq!(topology.caches[1].expect("default L1d").size_kb, 32);
    assert!(topology.caches[2].is_none());
    assert!(topology.caches[3].is_none());
}

#[test]
fn test_unknown_vendor_has_no_defaults() {
    // The last-resort defaults are keyed by the vendor identification;
    // an unrecognized vendor gets an empty topology.
    let mut snap = empty_snapshot();
    snap.highest_leaf = 7;
    snap.vendor_ebx = u32::from_le_bytes(*b"KVMK");
    snap.vendor_edx = u32::from_le_bytes(*b"VMKV");
    snap.vendor_ecx = u32::from_le_bytes(*b"M\0\0\0");
    snap.leaf1 = Some(CpuidRegs { eax: 0, ebx: 0, ecx: 0, edx: 0 });

    let topology = resolve_cache_topology(&snap);
    assert!(topology.caches.iter().all(|c| c.is_none()));
}

#[test]
fn test_default_tier_for_intel() {
    // Even the legacy leaf is missing: the hard-coded vendor defaults
    // apply, keyed by the identification bytes.
    let (ebx, edx, ecx) = intel_vendor_regs();
    let mut snap = empty_snapshot();
    snap.highest_leaf = 1;
    snap.vendor_ebx = ebx;
    snap.vendor_edx = edx;
    snap.vendor_ecx = ecx;
    snap.leaf1 = Some(CpuidRegs { eax: 0, ebx: 0, ecx: 0, edx: 0 });

    let topology = resolve_cache_topology(&snap);
    let l1i = topology.caches[0].expect("default L1 instruction entry");
    assert_eq!(l1i.size_kb, 32);
    assert_eq!(l1i.associativity, 8);
    assert_eq!(l1i.line_size, 64);
    let l1d = topology.caches[1].expect("default L1 data entry");
    assert_eq!(l1d.size_kb, 32);
    assert!(topology.caches[2].is_none());
    assert!(topology.caches[3].is_none());
}

#[test]
fn test_default_tier_for_amd() {
    let mut snap = empty_snapshot();
    snap.highest_leaf = 1;
    snap.vendor_ebx = u32::from_le_bytes(*b"Auth");
    snap.vendor_edx = u32::from_le_bytes(*b"enti");
    snap.vendor_ecx = u32::from_le_bytes(*b"cAMD");
    snap.leaf1 = Some(CpuidRegs { eax: 0, ebx: 0, ecx: 0, edx: 0 });

    let topology = resolve_cache_topology(&snap);
    assert_eq!(topology.caches[0].expect("L1i").size_kb, 64);
    assert_eq!(topology.caches[1].expect("L1d").size_kb, 32);
}

#[test]
fn test_brand_string_trimming() {
    // The 48 brand bytes carry leading spaces and trailing NUL padding;
    // decoding must hand back exactly the trimmed text.
    let mut bytes = [0u8; 48];
    let text = b"  Test CPU @ 3.00GHz";
    bytes[..text.len()].copy_from_slice(text);
    let mut regs = [CpuidRegs { eax: 0, ebx: 0, ecx: 0, edx: 0 }; 3];
    for leaf in 0..3 {
        let chunk = &bytes[leaf * 16..leaf * 16 + 16];
        regs[leaf] = CpuidRegs {
            eax: u32::from_le_bytes(chunk[0..4].try_into().unwrap()),
            ebx: u32::from_le_bytes(chunk[4..8].try_into().unwrap()),
            ecx: u32::from_le_bytes(chunk[8..12].try_into().unwrap()),
            edx: u32::from_le_bytes(chunk[12..16].try_into().unwrap()),
        };
    }
    let mut snap = empty_snapshot();
    snap.brand_regs = Some(regs);
    assert_eq!(decode_brand_string(&snap), "Test CPU @ 3.00GHz");
}

#[test]
fn test_brand_string_interior_nul() {
    // The brand bytes end at their first NUL terminator; whatever follows
    // it is not part of the brand string.
    let mut bytes = [0u8; 48];
    bytes[..3].copy_from_slice(b"AMD");
    bytes[4..9].copy_from_slice(b"Ryzen");
    let mut regs = [CpuidRegs { eax: 0, ebx: 0, ecx: 0, edx: 0 }; 3];
    for leaf in 0..3 {
        let chunk = &bytes[leaf * 16..leaf * 16 + 16];
        regs[leaf] = CpuidRegs {
            eax: u32::from_le_bytes(chunk[0..4].try_into().unwrap()),
            ebx: u32::from_le_bytes(chunk[4..8].try_into().unwrap()),
            ecx: u32::from_le_bytes(chunk[8..12].try_into().unwrap()),
            edx: u32::from_le_bytes(chunk[12..16].try_into().unwrap()),
        };
    }
    let mut snap = empty_snapshot();
    snap.brand_regs = Some(regs);
    assert_eq!(decode_brand_string(&snap), "AMD");
}

#[test]
fn test_brand_string_fallback() {
    // Absent brand leaves fall back to the literal "Unknown", as does an
    // all-padding brand.
    let snap = empty_snapshot();
    assert_eq!(decode_brand_string(&snap), "Unknown");

    let mut padded = empty_snapshot();
    padded.brand_regs = Some([CpuidRegs { eax: 0, ebx: 0, ecx: 0, edx: 0 }; 3]);
    assert_eq!(decode_brand_string(&padded), "Unknown");
}

#[test]
fn test_basic_info_requires_feature_leaf() {
    // A processor without the mandatory feature leaf fails with exactly
    // the unsupported-leaf error.
    let snap = empty_snapshot();
    let r = cpufetch::cpu::cpuid::decode_basic_info(&snap);
    assert!(matches!(
        r,
        Err(cpufetch::cpu::cpuid::CpuidError::UnsupportedLeaf(1))
    ));
}

#[test]
fn test_feature_register_selectors() {
    let cpuid = CpuidWrapper::new();
    // Selectors outside the documented registers always answer false.
    assert!(!cpuid.has_feature(0, CpuidRegister::EAX));
    assert!(!cpuid.has_feature(0, CpuidRegister::EBX));
    assert!(!cpuid.has_extended_feature(0, CpuidRegister::EAX));
    assert!(!cpuid.has_extended_feature(0, CpuidRegister::EDX));
}
