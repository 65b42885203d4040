//! ARM64 architecture-specific CPU detection.
//!
//! No identification registers are readable from user space on this path:
//! the vendor is fixed to ARM, the brand string is a static placeholder,
//! the version fields are zero, and cache topology and frequency are left
//! absent — a documented limitation.  Capability flags come from the
//! results of the OS runtime predicates, which the caller supplies.

use vstd::prelude::*;

use crate::arch::core_counts;
use crate::cpu::flags::{
    arm_features_from_predicates, spec_arm_feature_bits, ArmFeatures, ArmPredicates,
};
use crate::cpu::info::{CpuError, CpuInfo, FeatureSet, Frequency, Vendor, Version};

verus! {

/// Detects the ARM CPU features from the given runtime capability
/// predicate results.  An unavailable query target contributes no bit, so
/// this never fails.
pub fn detect_arm_features(predicates: &ArmPredicates) -> (r: Result<ArmFeatures, CpuError>)
    ensures
        r matches Ok(f) && f.bits == spec_arm_feature_bits(*predicates),
{
    Ok(arm_features_from_predicates(predicates))
}

/// Detects the CPU information of an ARM64 host from the given runtime
/// capability predicate results.
pub fn detect_cpu(predicates: &ArmPredicates) -> (r: Result<CpuInfo, CpuError>)
    ensures
        r is Ok,
        r matches Ok(info) ==> info.vendor == Vendor::ARM && info.brand_string@
            == "ARM Processor"@ && info.brand_string@.len() > 0 && info.version == (Version {
            family: 0,
            model: 0,
            stepping: 0,
        }) && 1 <= info.physical_cores <= info.logical_cores && info.features == FeatureSet::Arm(
            ArmFeatures { bits: spec_arm_feature_bits(*predicates) },
        ) && info.cache_sizes@ == seq![None::<u32>, None, None, None] && info.frequency.base
            is None && info.frequency.max is None && info.frequency.current is None,
{
    proof {
        reveal_strlit("ARM Processor");
    }
    let (physical_cores, logical_cores) = core_counts();
    let features = arm_features_from_predicates(predicates);
    let cache_sizes: [Option<u32>; 4] = [None, None, None, None];
    proof {
        assert(cache_sizes@ =~= seq![None::<u32>, None, None, None]);
    }
    Ok(
        CpuInfo {
            vendor: Vendor::ARM,
            brand_string: "ARM Processor".to_owned(),
            version: Version { family: 0, model: 0, stepping: 0 },
            physical_cores,
            logical_cores,
            frequency: Frequency { base: None, max: None, current: None },
            cache_sizes,
            features: FeatureSet::Arm(features),
        },
    )
}

} // verus!
