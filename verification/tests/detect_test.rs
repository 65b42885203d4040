//! Tests for whole-CPU detection on the host, and for the determinism of
//! the assembly.

use cpufetch::cpu::flags::ArmPredicates;
use cpufetch::cpu::info::CpuInfo;
use cpufetch::cpu::info::FeatureSet;
use cpufetch::cpu::info::Vendor;

#[test]
fn x86_64_test_detect_cpu() {
    let info = cpufetch::arch::x86_64::detect_cpu().unwrap();
    assert!(!info.brand_string.is_empty());
    assert!(info.logical_cores > 0);
    assert!(info.physical_cores > 0);

    // Print info for debugging
    println!("Detected x86_64 CPU: {:?}", info);
    println!("Cache sizes: {:?}", info.cache_sizes);
}

#[test]
fn aarch64_test_detect_cpu() {
    let predicates = ArmPredicates {
        neon: true,
        aes: false,
        pmull: false,
        sha2: true,
        crc: false,
        lse: false,
        fp: true,
        asimd: true,
    };
    let info = cpufetch::arch::aarch64::detect_cpu(&predicates).unwrap();
    assert_eq!(info.vendor, Vendor::ARM);
    assert!(!info.brand_string.is_empty());
    assert!(info.logical_cores > 0);
    assert!(info.physical_cores > 0);
}

#[test]
fn test_cpu_info_new() {
    // This should work on all supported architectures
    let info = CpuInfo::new().expect("Failed to detect CPU");

    // Basic validations that should pass on any CPU
    assert!(!info.brand_string.is_empty());
    assert!(info.physical_cores > 0);
    assert!(info.logical_cores > 0);

    // Print CPU info for debugging
    println!("Detected CPU: {:?}", info);
}

#[test]
fn test_x86_64_specific() {
    let info = CpuInfo::new().expect("Failed to detect CPU");

    // CPU should always have some basic features on x86_64
    match info.features {
        FeatureSet::X86(f) => assert!(!f.is_empty()),
        FeatureSet::Arm(_) => panic!("x86_64 detection must yield x86 features"),
    }

    // Either Intel or AMD (most likely), but could be other vendors too
    println!("x86_64 CPU vendor: {}", info.vendor.name());
}

#[test]
fn test_cpu_info_cache_detection() {
    // This test verifies that our CPU information includes cache sizes
    let info = CpuInfo::new().expect("Failed to detect CPU");

    // Print detected cache sizes
    println!("Detected cache sizes: {:?}", info.cache_sizes);

    // On modern systems, at least one cache should be detected
    let has_cache = info.cache_sizes.iter().any(|c| c.is_some());
    assert!(has_cache, "No cache detected, which is unexpected for modern CPUs");
}

#[test]
fn test_physical_not_above_logical() {
    let info = CpuInfo::new().expect("Failed to detect CPU");
    assert!(info.physical_cores <= info.logical_cores);
}

#[test]
fn test_detection_idempotent() {
    // Two detection passes on an unchanged host must agree on vendor,
    // version and features; only the current frequency may legitimately
    // vary (and this path leaves frequency absent anyway).
    let a = CpuInfo::new().expect("Failed to detect CPU");
    let b = CpuInfo::new().expect("Failed to detect CPU");
    assert_eq!(a.vendor, b.vendor);
    assert_eq!(a.version, b.version);
    assert_eq!(a.features, b.features);
    assert_eq!(a.brand_string, b.brand_string);
    assert_eq!(a.cache_sizes, b.cache_sizes);
}

#[test]
fn test_build_cpu_info_from_snapshot() {
    // A constructed snapshot runs the whole assembly: vendor mapping,
    // extended-bit folding, feature extraction and cache resolution.
    let ext_model: u32 = 0x3;
    let family: u32 = 0x6;
    let model: u32 = 0x5;
    let stepping: u32 = 0x2;
    let snap = cpufetch::cpu::cpuid::CpuidSnapshot {
        highest_leaf: 7,
        vendor_ebx: u32::from_le_bytes(*b"Genu"),
        vendor_edx: u32::from_le_bytes(*b"ineI"),
        vendor_ecx: u32::from_le_bytes(*b"ntel"),
        leaf1: Some(cpufetch::cpu::cpuid::CpuidRegs {
            eax: (ext_model << 16) | (family << 8) | (model << 4) | stepping,
            ebx: 0,
            ecx: 1,                        // SSE3
            edx: 1 << 25,                  // SSE
        }),
        leaf7: None,
        highest_ext_leaf: 0,
        brand_regs: None,
        cache_params: Vec::new(),
        amd_l1: None,
        amd_l2l3: None,
    };
    let info = cpufetch::arch::x86_64::build_cpu_info(&snap, 2, 4).unwrap();
    assert_eq!(info.vendor, Vendor::Intel);
    assert_eq!(info.brand_string, "Unknown");
    // Base family 0x6 folds the extended model in: (0x3 << 4) + 0x5.
    assert_eq!(info.version.family, 0x6);
    assert_eq!(info.version.model, 0x35);
    assert_eq!(info.version.stepping, 0x2);
    assert_eq!(info.physical_cores, 2);
    assert_eq!(info.logical_cores, 4);
    match info.features {
        FeatureSet::X86(f) => {
            assert!(f.contains(cpufetch::cpu::flags::X86Features::SSE));
            assert!(f.contains(cpufetch::cpu::flags::X86Features::SSE3));
            assert!(!f.contains(cpufetch::cpu::flags::X86Features::AVX2));
        }
        FeatureSet::Arm(_) => panic!("x86 assembly must yield x86 features"),
    }
    // No reading strategy yields, so the hard-coded Intel defaults apply.
    assert_eq!(info.cache_sizes, [Some(32), Some(32), None, None]);
}

#[test]
fn test_unknown_vendor_carries_raw_string() {
    // An unrecognized vendor keeps its raw identification string.
    let snap = cpufetch::cpu::cpuid::CpuidSnapshot {
        highest_leaf: 1,
        vendor_ebx: u32::from_le_bytes(*b"KVMK"),
        vendor_edx: u32::from_le_bytes(*b"VMKV"),
        vendor_ecx: u32::from_le_bytes(*b"M\0\0\0"),
        leaf1: Some(cpufetch::cpu::cpuid::CpuidRegs { eax: 0, ebx: 0, ecx: 0, edx: 0 }),
        leaf7: None,
        highest_ext_leaf: 0,
        brand_regs: None,
        cache_params: Vec::new(),
        amd_l1: None,
        amd_l2l3: None,
    };
    let info = cpufetch::arch::x86_64::build_cpu_info(&snap, 1, 1).unwrap();
    match info.vendor {
        Vendor::Unknown(raw) => assert_eq!(raw, "KVMKVMKVM\0\0\0"),
        _ => panic!("vendor must be unknown"),
    }
}

#[test]
fn test_arm_support_placeholder() {
    // This test exists just to avoid "no tests" warnings on non-ARM platforms
    println!("ARM tests are only available on aarch64 platforms");
}
