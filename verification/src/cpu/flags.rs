//! Capability bit-sets.
//!
//! Two independent feature vocabularies, one per architecture family:
//! [`X86Features`] and [`ArmFeatures`].  Each is a fixed enumeration of
//! named capability bits over a 64-bit word, with set operations whose
//! contracts pin the resulting word exactly.

use vstd::prelude::*;

use crate::cpu::cpuid::{
    read_snapshot, spec_base_feature_word, spec_extended_feature_word, CpuidSnapshot,
};

verus! {

/// Errors from CPU feature detection.
#[derive(Debug)]
pub enum FeatureError {
    /// Feature detection is not supported on this architecture.
    UnsupportedArch,
    /// A named feature could not be queried.
    DetectionFailed(String),
}

/// Bit-set of capability flags for the x86 family.
///
/// Each named capability is a one-bit mask; a value of this type is the
/// union of the capabilities it holds.
#[derive(Clone, Copy, PartialEq, Eq, Structural, Debug)]
pub struct X86Features {
    pub bits: u64,
}

/// Bit-set of capability flags for the ARM family.
#[derive(Clone, Copy, PartialEq, Eq, Structural, Debug)]
pub struct ArmFeatures {
    pub bits: u64,
}

impl X86Features {
    pub const SSE: u64 = 1u64 << 0;

    pub const SSE2: u64 = 1u64 << 1;

    pub const SSE3: u64 = 1u64 << 2;

    pub const SSSE3: u64 = 1u64 << 3;

    pub const SSE4_1: u64 = 1u64 << 4;

    pub const SSE4_2: u64 = 1u64 << 5;

    pub const AVX: u64 = 1u64 << 6;

    pub const AVX2: u64 = 1u64 << 7;

    pub const FMA: u64 = 1u64 << 8;

    pub const BMI1: u64 = 1u64 << 9;

    pub const BMI2: u64 = 1u64 << 10;

    pub const F16C: u64 = 1u64 << 11;

    pub const POPCNT: u64 = 1u64 << 12;

    pub const AES: u64 = 1u64 << 13;

    pub const AVX512F: u64 = 1u64 << 14;

    pub const AVX512BW: u64 = 1u64 << 15;

    pub const AVX512CD: u64 = 1u64 << 16;

    pub const AVX512DQ: u64 = 1u64 << 17;

    pub const AVX512VL: u64 = 1u64 << 18;

    /// True when every bit of `mask` is present in `self`.
    pub open spec fn spec_contains(self, mask: u64) -> bool {
        self.bits & mask == mask
    }

    /// The union of the two sets, at the specification level.
    pub open spec fn spec_union(self, other: X86Features) -> X86Features {
        X86Features { bits: self.bits | other.bits }
    }

    /// The intersection of the two sets, at the specification level.
    pub open spec fn spec_intersection(self, other: X86Features) -> X86Features {
        X86Features { bits: self.bits & other.bits }
    }

    /// The set with no capabilities.
    pub fn empty() -> (r: X86Features)
        ensures
            r.bits == 0u64,
    {
        X86Features { bits: 0 }
    }

    /// The set holding exactly the given capability bits.
    pub fn from_bits(bits: u64) -> (r: X86Features)
        ensures
            r.bits == bits,
    {
        X86Features { bits }
    }

    /// The raw capability word.
    pub fn bits(&self) -> (r: u64)
        ensures
            r == self.bits,
    {
        self.bits
    }

    /// True when the set holds no capability at all.
    pub fn is_empty(&self) -> (r: bool)
        ensures
            r == (self.bits == 0),
    {
        self.bits == 0
    }

    /// Membership test: all bits of `mask` are set in `self`.
    pub fn contains(&self, mask: u64) -> (r: bool)
        ensures
            r == self.spec_contains(mask),
    {
        self.bits & mask == mask
    }

    /// Adds every bit of `mask` to `self`.
    pub fn insert(&mut self, mask: u64)
        ensures
            final(self).bits == old(self).bits | mask,
    {
        self.bits = self.bits | mask;
    }

    /// The union of the two sets.
    pub fn union(self, other: X86Features) -> (r: X86Features)
        ensures
            r == self.spec_union(other),
    {
        X86Features { bits: self.bits | other.bits }
    }

    /// The intersection of the two sets.
    pub fn intersection(self, other: X86Features) -> (r: X86Features)
        ensures
            r == self.spec_intersection(other),
    {
        X86Features { bits: self.bits & other.bits }
    }
}

impl ArmFeatures {
    pub const NEON: u64 = 1u64 << 0;

    pub const AES: u64 = 1u64 << 1;

    pub const PMULL: u64 = 1u64 << 2;

    pub const SHA1: u64 = 1u64 << 3;

    pub const SHA2: u64 = 1u64 << 4;

    pub const CRC32: u64 = 1u64 << 5;

    pub const ATOMICS: u64 = 1u64 << 6;

    pub const FP: u64 = 1u64 << 7;

    pub const ASIMD: u64 = 1u64 << 8;

    pub const FPHP: u64 = 1u64 << 9;

    pub const ASIMDHP: u64 = 1u64 << 10;

    pub const ASIMDDP: u64 = 1u64 << 11;

    pub const ASIMDFHM: u64 = 1u64 << 12;

    /// True when every bit of `mask` is present in `self`.
    pub open spec fn spec_contains(self, mask: u64) -> bool {
        self.bits & mask == mask
    }

    /// The union of the two sets, at the specification level.
    pub open spec fn spec_union(self, other: ArmFeatures) -> ArmFeatures {
        ArmFeatures { bits: self.bits | other.bits }
    }

    /// The intersection of the two sets, at the specification level.
    pub open spec fn spec_intersection(self, other: ArmFeatures) -> ArmFeatures {
        ArmFeatures { bits: self.bits & other.bits }
    }

    /// The set with no capabilities.
    pub fn empty() -> (r: ArmFeatures)
        ensures
            r.bits == 0u64,
    {
        ArmFeatures { bits: 0 }
    }

    /// The set holding exactly the given capability bits.
    pub fn from_bits(bits: u64) -> (r: ArmFeatures)
        ensures
            r.bits == bits,
    {
        ArmFeatures { bits }
    }

    /// The raw capability word.
    pub fn bits(&self) -> (r: u64)
        ensures
            r == self.bits,
    {
        self.bits
    }

    /// True when the set holds no capability at all.
    pub fn is_empty(&self) -> (r: bool)
        ensures
            r == (self.bits == 0),
    {
        self.bits == 0
    }

    /// Membership test: all bits of `mask` are set in `self`.
    pub fn contains(&self, mask: u64) -> (r: bool)
        ensures
            r == self.spec_contains(mask),
    {
        self.bits & mask == mask
    }

    /// Adds every bit of `mask` to `self`.
    pub fn insert(&mut self, mask: u64)
        ensures
            final(self).bits == old(self).bits | mask,
    {
        self.bits = self.bits | mask;
    }

    /// The union of the two sets.
    pub fn union(self, other: ArmFeatures) -> (r: ArmFeatures)
        ensures
            r == self.spec_union(other),
    {
        ArmFeatures { bits: self.bits | other.bits }
    }

    /// The intersection of the two sets.
    pub fn intersection(self, other: ArmFeatures) -> (r: ArmFeatures)
        ensures
            r == self.spec_intersection(other),
    {
        ArmFeatures { bits: self.bits & other.bits }
    }
}

/// The x86 capability word derived from the two combined feature words.
///
/// The base word holds the feature leaf's EDX register in its upper half
/// and ECX in its lower; the extended word holds the extended-feature
/// leaf's EBX in its upper half and ECX in its lower.  Each named
/// capability is taken from its architecturally-defined bit.
pub open spec fn spec_x86_feature_bits(base: u64, extended: u64) -> u64 {
    let b = 0u64;
    let b = b | (if base & (1u64 << 57) != 0 { X86Features::SSE } else { 0u64 });
    let b = b | (if base & (1u64 << 58) != 0 { X86Features::SSE2 } else { 0u64 });
    let b = b | (if base & (1u64 << 0) != 0 { X86Features::SSE3 } else { 0u64 });
    let b = b | (if base & (1u64 << 9) != 0 { X86Features::SSSE3 } else { 0u64 });
    let b = b | (if base & (1u64 << 19) != 0 { X86Features::SSE4_1 } else { 0u64 });
    let b = b | (if base & (1u64 << 20) != 0 { X86Features::SSE4_2 } else { 0u64 });
    let b = b | (if base & (1u64 << 28) != 0 { X86Features::AVX } else { 0u64 });
    let b = b | (if extended & (1u64 << 37) != 0 { X86Features::AVX2 } else { 0u64 });
    let b = b | (if base & (1u64 << 12) != 0 { X86Features::FMA } else { 0u64 });
    let b = b | (if extended & (1u64 << 35) != 0 { X86Features::BMI1 } else { 0u64 });
    let b = b | (if extended & (1u64 << 40) != 0 { X86Features::BMI2 } else { 0u64 });
    let b = b | (if base & (1u64 << 29) != 0 { X86Features::F16C } else { 0u64 });
    let b = b | (if base & (1u64 << 23) != 0 { X86Features::POPCNT } else { 0u64 });
    let b = b | (if base & (1u64 << 25) != 0 { X86Features::AES } else { 0u64 });
    let b = b | (if extended & (1u64 << 48) != 0 { X86Features::AVX512F } else { 0u64 });
    let b = b | (if extended & (1u64 << 62) != 0 { X86Features::AVX512BW } else { 0u64 });
    let b = b | (if extended & (1u64 << 60) != 0 { X86Features::AVX512CD } else { 0u64 });
    let b = b | (if extended & (1u64 << 49) != 0 { X86Features::AVX512DQ } else { 0u64 });
    let b = b | (if extended & (1u64 << 63) != 0 { X86Features::AVX512VL } else { 0u64 });
    b
}

/// Builds the x86 capability set from the two combined feature words.
pub fn x86_features_from_words(base: u64, extended: u64) -> (r: X86Features)
    ensures
        r.bits == spec_x86_feature_bits(base, extended),
{
    let b = 0u64;
    let b = b | (if base & (1u64 << 57) != 0 { X86Features::SSE } else { 0u64 });
    let b = b | (if base & (1u64 << 58) != 0 { X86Features::SSE2 } else { 0u64 });
    let b = b | (if base & (1u64 << 0) != 0 { X86Features::SSE3 } else { 0u64 });
    let b = b | (if base & (1u64 << 9) != 0 { X86Features::SSSE3 } else { 0u64 });
    let b = b | (if base & (1u64 << 19) != 0 { X86Features::SSE4_1 } else { 0u64 });
    let b = b | (if base & (1u64 << 20) != 0 { X86Features::SSE4_2 } else { 0u64 });
    let b = b | (if base & (1u64 << 28) != 0 { X86Features::AVX } else { 0u64 });
    let b = b | (if extended & (1u64 << 37) != 0 { X86Features::AVX2 } else { 0u64 });
    let b = b | (if base & (1u64 << 12) != 0 { X86Features::FMA } else { 0u64 });
    let b = b | (if extended & (1u64 << 35) != 0 { X86Features::BMI1 } else { 0u64 });
    let b = b | (if extended & (1u64 << 40) != 0 { X86Features::BMI2 } else { 0u64 });
    let b = b | (if base & (1u64 << 29) != 0 { X86Features::F16C } else { 0u64 });
    let b = b | (if base & (1u64 << 23) != 0 { X86Features::POPCNT } else { 0u64 });
    let b = b | (if base & (1u64 << 25) != 0 { X86Features::AES } else { 0u64 });
    let b = b | (if extended & (1u64 << 48) != 0 { X86Features::AVX512F } else { 0u64 });
    let b = b | (if extended & (1u64 << 62) != 0 { X86Features::AVX512BW } else { 0u64 });
    let b = b | (if extended & (1u64 << 60) != 0 { X86Features::AVX512CD } else { 0u64 });
    let b = b | (if extended & (1u64 << 49) != 0 { X86Features::AVX512DQ } else { 0u64 });
    let b = b | (if extended & (1u64 << 63) != 0 { X86Features::AVX512VL } else { 0u64 });
    X86Features { bits: b }
}

/// Builds the x86 capability set from a snapshot's feature words; absent
/// leaves contribute zero bits.
pub fn x86_features_from_snapshot(snap: &CpuidSnapshot) -> (r: X86Features)
    ensures
        r.bits == spec_x86_feature_bits(
            spec_base_feature_word(*snap),
            spec_extended_feature_word(*snap),
        ),
{
    let base: u64 = match &snap.leaf1 {
        Some(l1) => ((l1.edx as u64) << 32) | (l1.ecx as u64),
        None => 0,
    };
    let extended: u64 = match &snap.leaf7 {
        Some(l7) => ((l7.ebx as u64) << 32) | (l7.ecx as u64),
        None => 0,
    };
    x86_features_from_words(base, extended)
}

/// Detects the host processor's x86 capability flags from its
/// identification feature words.  Absent leaves contribute no bits rather
/// than failing, so detection always succeeds on this backend.
pub fn detect_features() -> (r: Result<X86Features, FeatureError>)
    ensures
        r is Ok,
{
    let snap = read_snapshot();
    Ok(x86_features_from_snapshot(&snap))
}

/// Results of the ARM runtime capability predicates, one per named query.
/// A query target that is unsupported or unavailable is simply false.
#[derive(Clone, Copy, PartialEq, Eq, Structural, Debug)]
pub struct ArmPredicates {
    pub neon: bool,
    pub aes: bool,
    pub pmull: bool,
    pub sha2: bool,
    pub crc: bool,
    pub lse: bool,
    pub fp: bool,
    pub asimd: bool,
}

/// The ARM capability word derived from the predicate results.
pub open spec fn spec_arm_feature_bits(p: ArmPredicates) -> u64 {
    let b = 0u64;
    let b = b | (if p.neon { ArmFeatures::NEON } else { 0u64 });
    let b = b | (if p.aes { ArmFeatures::AES } else { 0u64 });
    let b = b | (if p.pmull { ArmFeatures::PMULL } else { 0u64 });
    let b = b | (if p.sha2 { ArmFeatures::SHA2 } else { 0u64 });
    let b = b | (if p.crc { ArmFeatures::CRC32 } else { 0u64 });
    let b = b | (if p.lse { ArmFeatures::ATOMICS } else { 0u64 });
    let b = b | (if p.fp { ArmFeatures::FP } else { 0u64 });
    let b = b | (if p.asimd { ArmFeatures::ASIMD } else { 0u64 });
    b
}

/// Builds the ARM capability set from the predicate results.
pub fn arm_features_from_predicates(p: &ArmPredicates) -> (r: ArmFeatures)
    ensures
        r.bits == spec_arm_feature_bits(*p),
{
    let b = 0u64;
    let b = b | (if p.neon { ArmFeatures::NEON } else { 0u64 });
    let b = b | (if p.aes { ArmFeatures::AES } else { 0u64 });
    let b = b | (if p.pmull { ArmFeatures::PMULL } else { 0u64 });
    let b = b | (if p.sha2 { ArmFeatures::SHA2 } else { 0u64 });
    let b = b | (if p.crc { ArmFeatures::CRC32 } else { 0u64 });
    let b = b | (if p.lse { ArmFeatures::ATOMICS } else { 0u64 });
    let b = b | (if p.fp { ArmFeatures::FP } else { 0u64 });
    let b = b | (if p.asimd { ArmFeatures::ASIMD } else { 0u64 });
    ArmFeatures { bits: b }
}

/// Union is commutative: joining two x86 bit-sets in either order gives the
/// same set.
pub proof fn lemma_x86_union_commutative(a: X86Features, b: X86Features)
    ensures
        a.spec_union(b) == b.spec_union(a),
{
    let ab: u64 = a.bits;
    let bb: u64 = b.bits;
    assert(ab | bb == bb | ab) by (bit_vector);
}

/// Union is associative over x86 bit-sets.
pub proof fn lemma_x86_union_associative(a: X86Features, b: X86Features, c: X86Features)
    ensures
        a.spec_union(b).spec_union(c) == a.spec_union(b.spec_union(c)),
{
    let ab: u64 = a.bits;
    let bb: u64 = b.bits;
    let cb: u64 = c.bits;
    assert((ab | bb) | cb == ab | (bb | cb)) by (bit_vector);
}

/// Intersection is commutative over x86 bit-sets.
pub proof fn lemma_x86_intersection_commutative(a: X86Features, b: X86Features)
    ensures
        a.spec_intersection(b) == b.spec_intersection(a),
{
    let ab: u64 = a.bits;
    let bb: u64 = b.bits;
    assert(ab & bb == bb & ab) by (bit_vector);
}

/// Intersection is associative over x86 bit-sets.
pub proof fn lemma_x86_intersection_associative(a: X86Features, b: X86Features, c: X86Features)
    ensures
        a.spec_intersection(b).spec_intersection(c) == a.spec_intersection(b.spec_intersection(c)),
{
    let ab: u64 = a.bits;
    let bb: u64 = b.bits;
    let cb: u64 = c.bits;
    assert((ab & bb) & cb == ab & (bb & cb)) by (bit_vector);
}

/// The empty x86 set contains no named capability (any mask with at least
/// one bit set).
pub proof fn lemma_x86_empty_contains_nothing(mask: u64)
    requires
        mask != 0,
    ensures
        !(X86Features { bits: 0u64 }).spec_contains(mask),
{
    assert(mask != 0 ==> 0u64 & mask != mask) by (bit_vector);
}

/// Inserting a capability into an x86 set makes the set contain it.
pub proof fn lemma_x86_insert_then_contains(s: X86Features, mask: u64)
    ensures
        (X86Features { bits: s.bits | mask }).spec_contains(mask),
{
    let sb: u64 = s.bits;
    assert((sb | mask) & mask == mask) by (bit_vector);
}

/// A capability that shares no bit with anything inserted so far is still
/// absent: inserting `mask` cannot make a set contain a disjoint `other`.
pub proof fn lemma_x86_unrelated_insert_keeps_absent(s: X86Features, mask: u64, other: u64)
    requires
        !s.spec_contains(other),
        mask & other == 0,
    ensures
        !(X86Features { bits: s.bits | mask }).spec_contains(other),
{
    let sb: u64 = s.bits;
    assert(sb & other != other && mask & other == 0 ==> (sb | mask) & other != other)
        by (bit_vector);
}

/// Union is commutative over ARM bit-sets.
pub proof fn lemma_arm_union_commutative(a: ArmFeatures, b: ArmFeatures)
    ensures
        a.spec_union(b) == b.spec_union(a),
{
    let ab: u64 = a.bits;
    let bb: u64 = b.bits;
    assert(ab | bb == bb | ab) by (bit_vector);
}

/// Union is associative over ARM bit-sets.
pub proof fn lemma_arm_union_associative(a: ArmFeatures, b: ArmFeatures, c: ArmFeatures)
    ensures
        a.spec_union(b).spec_union(c) == a.spec_union(b.spec_union(c)),
{
    let ab: u64 = a.bits;
    let bb: u64 = b.bits;
    let cb: u64 = c.bits;
    assert((ab | bb) | cb == ab | (bb | cb)) by (bit_vector);
}

/// Intersection is commutative over ARM bit-sets.
pub proof fn lemma_arm_intersection_commutative(a: ArmFeatures, b: ArmFeatures)
    ensures
        a.spec_intersection(b) == b.spec_intersection(a),
{
    let ab: u64 = a.bits;
    let bb: u64 = b.bits;
    assert(ab & bb == bb & ab) by (bit_vector);
}

/// Intersection is associative over ARM bit-sets.
pub proof fn lemma_arm_intersection_associative(a: ArmFeatures, b: ArmFeatures, c: ArmFeatures)
    ensures
        a.spec_intersection(b).spec_intersection(c) == a.spec_intersection(b.spec_intersection(c)),
{
    let ab: u64 = a.bits;
    let bb: u64 = b.bits;
    let cb: u64 = c.bits;
    assert((ab & bb) & cb == ab & (bb & cb)) by (bit_vector);
}

/// The empty ARM set contains no named capability.
pub proof fn lemma_arm_empty_contains_nothing(mask: u64)
    requires
        mask != 0,
    ensures
        !(ArmFeatures { bits: 0u64 }).spec_contains(mask),
{
    assert(mask != 0 ==> 0u64 & mask != mask) by (bit_vector);
}

/// Inserting a capability into an ARM set makes the set contain it.
pub proof fn lemma_arm_insert_then_contains(s: ArmFeatures, mask: u64)
    ensures
        (ArmFeatures { bits: s.bits | mask }).spec_contains(mask),
{
    let sb: u64 = s.bits;
    assert((sb | mask) & mask == mask) by (bit_vector);
}

/// Inserting an ARM capability disjoint from `other` leaves `other` absent.
pub proof fn lemma_arm_unrelated_insert_keeps_absent(s: ArmFeatures, mask: u64, other: u64)
    requires
        !s.spec_contains(other),
        mask & other == 0,
    ensures
        !(ArmFeatures { bits: s.bits | mask }).spec_contains(other),
{
    let sb: u64 = s.bits;
    assert(sb & other != other && mask & other == 0 ==> (sb | mask) & other != other)
        by (bit_vector);
}

} // verus!
