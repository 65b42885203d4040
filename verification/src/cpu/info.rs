//! Core data model for processor information.
//!
//! The types here are the normalized, architecture-independent snapshot that
//! the identification backends produce: vendor identity, version
//! (family/model/stepping with the extended-bit folding rules), core counts,
//! simplified cache sizes, frequency and the capability bit-set.

use vstd::prelude::*;

use crate::cpu::flags::{ArmFeatures, X86Features};

verus! {

/// Errors from CPU information gathering.
#[derive(Debug)]
pub enum CpuError {
    /// The CPU vendor could not be determined.
    VendorDetection(String),
    /// Reading CPU information failed; carries a cause description.
    InfoRead(String),
    /// No known identification mechanism exists for this architecture.
    UnsupportedArch,
}

/// CPU vendor identification, derived once from the identification string
/// and immutable thereafter.  An unrecognized vendor carries its raw
/// identification string.
#[derive(PartialEq, Eq, Debug, Hash)]
pub enum Vendor {
    Intel,
    AMD,
    ARM,
    Apple,
    Unknown(String),
}

impl Vendor {
    /// The vendor's display name; an unrecognized vendor displays as
    /// `Unknown`, whatever its raw identification string was.
    pub open spec fn spec_name(self) -> Seq<char> {
        match self {
            Vendor::Intel => "Intel"@,
            Vendor::AMD => "AMD"@,
            Vendor::ARM => "ARM"@,
            Vendor::Apple => "Apple"@,
            Vendor::Unknown(_) => "Unknown"@,
        }
    }

    /// Returns the vendor's display name.
    pub fn name(&self) -> (r: String)
        ensures
            r@ == self.spec_name(),
    {
        match self {
            Vendor::Intel => "Intel".to_owned(),
            Vendor::AMD => "AMD".to_owned(),
            Vendor::ARM => "ARM".to_owned(),
            Vendor::Apple => "Apple".to_owned(),
            Vendor::Unknown(_) => "Unknown".to_owned(),
        }
    }
}

impl Clone for Vendor {
    /// An exact copy, raw identification string included.
    fn clone(&self) -> (r: Self)
        ensures
            r == *self,
    {
        match self {
            Vendor::Intel => Vendor::Intel,
            Vendor::AMD => Vendor::AMD,
            Vendor::ARM => Vendor::ARM,
            Vendor::Apple => Vendor::Apple,
            Vendor::Unknown(s) => Vendor::Unknown(s.clone()),
        }
    }
}

/// CPU frequency information in whole MHz; each field is best-effort and may
/// be absent independently of the others.
#[derive(Clone, Copy, PartialEq, Eq, Debug)]
pub struct Frequency {
    /// Base/nominal frequency.
    pub base: Option<u32>,
    /// Maximum turbo frequency.
    pub max: Option<u32>,
    /// Current operating frequency.
    pub current: Option<u32>,
}

impl Default for Frequency {
    /// The wholly-unknown frequency: all three fields absent.
    fn default() -> (r: Self)
        ensures
            r.base is None,
            r.max is None,
            r.current is None,
    {
        Frequency { base: None, max: None, current: None }
    }
}

/// Version information for a CPU: family, model and stepping identifiers,
/// each already folded with its extended bits where the folding rules apply.
#[derive(Clone, Copy, PartialEq, Eq, Structural, Debug)]
pub struct Version {
    pub family: u8,
    pub model: u8,
    pub stepping: u8,
}

impl Default for Version {
    /// The all-zero version, used where version registers are meaningless.
    fn default() -> (r: Self)
        ensures
            r.family == 0 && r.model == 0 && r.stepping == 0,
    {
        Version { family: 0, model: 0, stepping: 0 }
    }
}

/// The folded family identifier.
///
/// When the base family nibble is 0xF, the low nibble of the extended family
/// is shifted left four bits and added to the base; otherwise the base is
/// used unchanged.
pub open spec fn spec_fold_family(base: u8, extended: u8) -> u8 {
    if base == 0xF {
        (((extended & 0xF) as u8) * 16 + base) as u8
    } else {
        base
    }
}

/// The folded model identifier.
///
/// When the base family is 0xF or 0x6, the low nibble of the extended model
/// is shifted left four bits and added to the base model; otherwise the base
/// model is used unchanged.
pub open spec fn spec_fold_model(base_family: u8, base_model: u8, extended_model: u8) -> u8 {
    if base_family == 0xF || base_family == 0x6 {
        (((extended_model & 0xF) as u8) * 16 + base_model) as u8
    } else {
        base_model
    }
}

/// Folds the extended family bits into the base family nibble.
pub fn fold_family(base: u8, extended: u8) -> (r: u8)
    requires
        base <= 0xF,
    ensures
        r == spec_fold_family(base, extended),
{
    if base == 0xF {
        let low: u8 = extended & 0xF;
        proof {
            assert(extended & 0xF <= 0xF) by (bit_vector);
        }
        low * 16 + base
    } else {
        base
    }
}

/// Folds the extended model bits into the base model nibble.
pub fn fold_model(base_family: u8, base_model: u8, extended_model: u8) -> (r: u8)
    requires
        base_model <= 0xF,
    ensures
        r == spec_fold_model(base_family, base_model, extended_model),
{
    if base_family == 0xF || base_family == 0x6 {
        let low: u8 = extended_model & 0xF;
        proof {
            assert(extended_model & 0xF <= 0xF) by (bit_vector);
        }
        low * 16 + base_model
    } else {
        base_model
    }
}

/// The capability bit-set of a snapshot.  The x86 and ARM vocabularies are
/// mutually exclusive: one snapshot holds exactly one of them.
#[derive(Clone, Copy, PartialEq, Eq, Structural, Debug)]
pub enum FeatureSet {
    X86(X86Features),
    Arm(ArmFeatures),
}

/// Core CPU information snapshot, assembled once per detection call and
/// never mutated afterwards.
#[derive(Debug)]
pub struct CpuInfo {
    /// CPU vendor identification.
    pub vendor: Vendor,
    /// Marketing name of the CPU.
    pub brand_string: String,
    /// Version information (family/model/stepping).
    pub version: Version,
    /// Number of physical CPU cores.
    pub physical_cores: u32,
    /// Number of logical CPU threads.
    pub logical_cores: u32,
    /// Frequency information.
    pub frequency: Frequency,
    /// Cache sizes in KB; the slot meaning is fixed: 0 = L1 instruction,
    /// 1 = L1 data, 2 = L2, 3 = L3.
    pub cache_sizes: [Option<u32>; 4],
    /// CPU capability flags.
    pub features: FeatureSet,
}

impl Clone for CpuInfo {
    /// An exact copy: every field of the clone equals the original's.
    fn clone(&self) -> (r: Self)
        ensures
            r.vendor == self.vendor,
            r.brand_string == self.brand_string,
            r.version == self.version,
            r.physical_cores == self.physical_cores,
            r.logical_cores == self.logical_cores,
            r.frequency == self.frequency,
            r.cache_sizes == self.cache_sizes,
            r.features == self.features,
    {
        CpuInfo {
            vendor: self.vendor.clone(),
            brand_string: self.brand_string.clone(),
            version: self.version,
            physical_cores: self.physical_cores,
            logical_cores: self.logical_cores,
            frequency: self.frequency,
            cache_sizes: self.cache_sizes,
            features: self.features,
        }
    }
}

impl CpuInfo {
    /// Detects the current CPU and assembles a fresh snapshot.
    ///
    /// This entry point drives the x86 identification backend, the one
    /// whose registers this build can read; the ARM backend is reachable
    /// through its own detection function, which takes the runtime
    /// predicate results as input.  On success the brand string is
    /// non-empty and both core counts are positive, with the physical
    /// count never above the logical count.
    pub fn new() -> (r: Result<CpuInfo, CpuError>)
        ensures
            r matches Ok(info) ==> info.brand_string@.len() > 0 && 1 <= info.physical_cores
                <= info.logical_cores,
            r matches Err(e) ==> e matches CpuError::InfoRead(_),
    {
        crate::arch::x86_64::detect_cpu()
    }
}

/// An explicit lazily-initialized holder for one detected snapshot.
///
/// The first successful access runs detection once and stores the result;
/// later accesses return the stored value without touching the hardware
/// again, which the unchanged `detect_count` witnesses.  The holder is
/// never invalidated: a caller wanting fresh data bypasses it with
/// [`CpuInfo::new`].
#[derive(Debug)]
pub struct CpuCache {
    /// The stored snapshot, absent until the first successful access.
    pub slot: Option<CpuInfo>,
    /// How many times this holder has run the underlying detection.
    pub detect_count: u64,
}

impl CpuCache {
    /// An empty holder that has never run detection.
    pub fn new() -> (r: CpuCache)
        ensures
            r.slot is None,
            r.detect_count == 0,
    {
        CpuCache { slot: None, detect_count: 0 }
    }

    /// Returns the cached snapshot, detecting it first only when the holder
    /// is still empty.
    ///
    /// A populated holder is left untouched — same value, same count, no
    /// re-detection; an empty holder runs detection exactly once.
    pub fn get(&mut self) -> (r: Result<CpuInfo, CpuError>)
        requires
            old(self).detect_count < u64::MAX,
        ensures
            old(self).slot matches Some(stored) ==> *final(self) == *old(self) && (r
                matches Ok(out) && out == stored),
            old(self).slot is None ==> final(self).detect_count == old(self).detect_count + 1,
            r matches Ok(out) ==> final(self).slot matches Some(stored) && stored == out,
            old(self).slot is None && r is Err ==> final(self).slot is None,
    {
        match &self.slot {
            Some(info) => {
                let out = info.clone();
                Ok(out)
            },
            None => {
                self.detect_count = self.detect_count + 1;
                match CpuInfo::new() {
                    Ok(info) => {
                        let out = info.clone();
                        self.slot = Some(info);
                        Ok(out)
                    },
                    Err(e) => Err(e),
                }
            },
        }
    }
}

impl Default for CpuInfo {
    /// The neutral snapshot: unknown vendor, empty brand, zero counts and
    /// wholly-absent cache and frequency data.
    fn default() -> (r: Self)
        ensures
            r.vendor matches Vendor::Unknown(s) && s@.len() == 0,
            r.brand_string@.len() == 0,
            r.version == (Version { family: 0, model: 0, stepping: 0 }),
            r.physical_cores == 0,
            r.logical_cores == 0,
            r.frequency.base is None && r.frequency.max is None && r.frequency.current is None,
            r.cache_sizes == [None::<u32>, None, None, None],
            r.features == FeatureSet::X86(X86Features { bits: 0 }),
    {
        CpuInfo {
            vendor: Vendor::Unknown(String::new()),
            brand_string: String::new(),
            version: Version { family: 0, model: 0, stepping: 0 },
            physical_cores: 0,
            logical_cores: 0,
            frequency: Frequency { base: None, max: None, current: None },
            cache_sizes: [None, None, None, None],
            features: FeatureSet::X86(X86Features { bits: 0 }),
        }
    }
}

} // verus!

