//! x86_64 architecture-specific CPU detection.
//!
//! Composes the identification backend's snapshot, the OS core counts and
//! the decoding rules into one normalized [`CpuInfo`] value.  The assembly
//! is a pure function of the snapshot and the counts, so detection on an
//! unchanged host is deterministic in everything but the live reads
//! themselves.

use vstd::prelude::*;

use crate::arch::core_counts;
use crate::cpu::cpuid::{
    ascii_bytes, ascii_chars, decode_basic_info, is_amd_vendor, is_intel_vendor, read_snapshot,
    resolve_cache_topology, spec_amd_id, spec_base_family, spec_base_feature_word,
    spec_base_model, spec_brand_string_ok, spec_extended_family, spec_extended_feature_word,
    spec_extended_model, spec_intel_id, spec_resolve_cache, spec_stepping, spec_vendor_bytes,
    vendor_bytes, CacheInfo, CacheTopology, CacheType, CpuidSnapshot,
};
use crate::cpu::flags::{spec_x86_feature_bits, x86_features_from_snapshot, X86Features};
use crate::cpu::info::{
    fold_family, fold_model, spec_fold_family, spec_fold_model, CpuError, CpuInfo, FeatureSet,
    Frequency, Vendor, Version,
};

verus! {

/// What the vendor enumeration says about the twelve identification bytes:
/// the two recognized identifications map to their vendors, and anything
/// else is unknown and carries the raw identification string — exactly the
/// bytes as characters whenever they are ASCII.
pub open spec fn spec_vendor_ok(bytes: Seq<u8>, v: Vendor) -> bool {
    if bytes == spec_intel_id() {
        v == Vendor::Intel
    } else if bytes == spec_amd_id() {
        v == Vendor::AMD
    } else {
        v matches Vendor::Unknown(s) && (ascii_bytes(bytes) ==> s@ == ascii_chars(bytes))
    }
}

/// Maps the identification bytes to the vendor enumeration.
pub fn vendor_of(bytes: &Vec<u8>) -> (r: Vendor)
    ensures
        spec_vendor_ok(bytes@, r),
{
    if is_intel_vendor(bytes) {
        Vendor::Intel
    } else if is_amd_vendor(bytes) {
        Vendor::AMD
    } else {
        Vendor::Unknown(crate::cpu::cpuid::lossy_string(bytes))
    }
}

/// The simplified-array slot a cache entry is displayed in, by level and
/// type; entries at other levels are not represented in the simplified
/// array.
pub open spec fn spec_display_slot(level: u8, t: CacheType) -> Option<int> {
    if level == 1 && t is Instruction {
        Some(0int)
    } else if level == 1 && t is Data {
        Some(1int)
    } else if level == 2 {
        Some(2int)
    } else if level == 3 {
        Some(3int)
    } else {
        None
    }
}

/// The simplified cache-size array after considering the first `n` topology
/// slots.
pub open spec fn spec_cache_sizes_state(caches: Seq<Option<CacheInfo>>, n: int) -> Seq<
    Option<u32>,
>
    decreases n,
{
    if n <= 0 {
        seq![None, None, None, None]
    } else {
        let prev = spec_cache_sizes_state(caches, n - 1);
        match caches[n - 1] {
            Some(ci) => match spec_display_slot(ci.level, ci.cache_type) {
                Some(s) => prev.update(s, Some(ci.size_kb)),
                None => prev,
            },
            None => prev,
        }
    }
}

/// The simplified cache-size array of a topology: only each entry's size is
/// kept, in the slot named by its level and type.
pub open spec fn spec_cache_sizes(caches: Seq<Option<CacheInfo>>) -> Seq<Option<u32>> {
    spec_cache_sizes_state(caches, 4)
}

/// Maps a cache topology to the simplified KB-only size array.
pub fn cache_sizes_from_topology(t: &CacheTopology) -> (r: [Option<u32>; 4])
    ensures
        r@ == spec_cache_sizes(t.caches@),
{
    let mut o0: Option<u32> = None;
    let mut o1: Option<u32> = None;
    let mut o2: Option<u32> = None;
    let mut o3: Option<u32> = None;
    let mut i: usize = 0;
    while i < 4
        invariant
            0 <= i <= 4,
            seq![o0, o1, o2, o3] =~= spec_cache_sizes_state(t.caches@, i as int),
        decreases 4 - i,
    {
        if let Some(ci) = t.caches[i] {
            let level = ci.level;
            let is_instruction = matches!(ci.cache_type, CacheType::Instruction);
            let is_data = matches!(ci.cache_type, CacheType::Data);
            if level == 1 && is_instruction {
                o0 = Some(ci.size_kb);
            } else if level == 1 && is_data {
                o1 = Some(ci.size_kb);
            } else if level == 2 {
                o2 = Some(ci.size_kb);
            } else if level == 3 {
                o3 = Some(ci.size_kb);
            }
        }
        proof {
            assert(seq![o0, o1, o2, o3] =~= spec_cache_sizes_state(t.caches@, i + 1));
        }
        i += 1;
    }
    let r = [o0, o1, o2, o3];
    proof {
        assert(r@ =~= seq![o0, o1, o2, o3]);
    }
    r
}

/// The exact relation between a snapshot, the core counts and the assembled
/// snapshot value.
pub open spec fn spec_cpu_info_ok(
    snap: CpuidSnapshot,
    physical_cores: u32,
    logical_cores: u32,
    info: CpuInfo,
) -> bool {
    &&& spec_vendor_ok(
        spec_vendor_bytes(snap.vendor_ebx, snap.vendor_edx, snap.vendor_ecx),
        info.vendor,
    )
    &&& snap.leaf1 matches Some(l1) && {
        &&& info.version.family == spec_fold_family(
            spec_base_family(l1.eax),
            spec_extended_family(l1.eax),
        )
        &&& info.version.model == spec_fold_model(
            spec_base_family(l1.eax),
            spec_base_model(l1.eax),
            spec_extended_model(l1.eax),
        )
        &&& info.version.stepping == spec_stepping(l1.eax)
    }
    &&& info.physical_cores == physical_cores
    &&& info.logical_cores == logical_cores
    &&& info.frequency.base is None && info.frequency.max is None && info.frequency.current
        is None
    &&& info.features == FeatureSet::X86(
        X86Features {
            bits: spec_x86_feature_bits(
                spec_base_feature_word(snap),
                spec_extended_feature_word(snap),
            ),
        },
    )
    &&& info.cache_sizes@ == spec_cache_sizes(spec_resolve_cache(snap))
    &&& spec_brand_string_ok(snap, info.brand_string@)
}

/// Assembles a snapshot and the core counts into the normalized model.
///
/// Fails exactly when the snapshot's mandatory feature leaf is absent, with
/// an information-read error; every field of a successful result is pinned
/// by [`spec_cpu_info_ok`].
pub fn build_cpu_info(snap: &CpuidSnapshot, physical_cores: u32, logical_cores: u32) -> (r:
    Result<CpuInfo, CpuError>)
    requires
        1 <= physical_cores <= logical_cores,
    ensures
        r is Ok <==> snap.leaf1 is Some,
        r matches Err(e) ==> e matches CpuError::InfoRead(_),
        r matches Ok(info) ==> spec_cpu_info_ok(*snap, physical_cores, logical_cores, info)
            && info.brand_string@.len() > 0 && 1 <= info.physical_cores <= info.logical_cores,
{
    let basic = match decode_basic_info(snap) {
        Ok(b) => b,
        Err(_) => {
            return Err(CpuError::InfoRead("Failed to get basic CPU info".to_owned()));
        },
    };
    let vb = vendor_bytes(snap.vendor_ebx, snap.vendor_edx, snap.vendor_ecx);
    let vendor = vendor_of(&vb);
    let family = fold_family(basic.family, basic.extended_family);
    let model = fold_model(basic.family, basic.model, basic.extended_model);
    let version = Version { family, model, stepping: basic.stepping };
    let features = x86_features_from_snapshot(snap);
    let topology = resolve_cache_topology(snap);
    let cache_sizes = cache_sizes_from_topology(&topology);
    Ok(
        CpuInfo {
            vendor,
            brand_string: basic.brand_string,
            version,
            physical_cores,
            logical_cores,
            frequency: Frequency { base: None, max: None, current: None },
            cache_sizes,
            features: FeatureSet::X86(features),
        },
    )
}

/// Detects the CPU information of the x86_64 host.
///
/// On success the brand string is non-empty and both core counts are
/// positive, with the physical count never above the logical count; the
/// frequency fields are left absent on this path.
pub fn detect_cpu() -> (r: Result<CpuInfo, CpuError>)
    ensures
        r matches Err(e) ==> e matches CpuError::InfoRead(_),
        r matches Ok(info) ==> info.brand_string@.len() > 0 && 1 <= info.physical_cores
            <= info.logical_cores && (info.features matches FeatureSet::X86(_))
            && info.frequency.base is None && info.frequency.max is None
            && info.frequency.current is None,
{
    let snap = read_snapshot();
    let (physical_cores, logical_cores) = core_counts();
    build_cpu_info(&snap, physical_cores, logical_cores)
}

/// Detection is a function of the identification snapshot: assemblies from
/// equal snapshots agree on vendor, version and features, whatever the
/// core-count readings were.  Only the live register reads themselves can
/// make two detection passes on an unchanged host differ.
pub proof fn lemma_detection_deterministic(
    snap1: CpuidSnapshot,
    snap2: CpuidSnapshot,
    phys1: u32,
    logi1: u32,
    phys2: u32,
    logi2: u32,
    info1: CpuInfo,
    info2: CpuInfo,
)
    requires
        snap1 == snap2,
        spec_cpu_info_ok(snap1, phys1, logi1, info1),
        spec_cpu_info_ok(snap2, phys2, logi2, info2),
    ensures
        info1.vendor is Intel <==> info2.vendor is Intel,
        info1.vendor is AMD <==> info2.vendor is AMD,
        info1.vendor is Unknown && info2.vendor is Unknown && ascii_bytes(
            spec_vendor_bytes(snap1.vendor_ebx, snap1.vendor_edx, snap1.vendor_ecx),
        ) ==> info1.vendor->Unknown_0@ == info2.vendor->Unknown_0@,
        info1.version == info2.version,
        info1.features == info2.features,
        info1.cache_sizes@ == info2.cache_sizes@,
        crate::cpu::cpuid::spec_brand_trimmed(snap1).len() == 0 ==> info1.brand_string@
            == info2.brand_string@,
        crate::cpu::cpuid::ascii_bytes(crate::cpu::cpuid::spec_brand_trimmed(snap1))
            ==> info1.brand_string@ == info2.brand_string@,
{
}

} // verus!
