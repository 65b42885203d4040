//! Tests for the capability bit-sets.

use cpufetch::cpu::flags::ArmFeatures;
use cpufetch::cpu::flags::X86Features;
use cpufetch::cpu::flags::x86_features_from_words;

#[test]
fn test_x86_features_flags() {
    let features = X86Features::from_bits(X86Features::SSE | X86Features::SSE2);
    assert!(features.contains(X86Features::SSE));
    assert!(features.contains(X86Features::SSE2));
    assert!(!features.contains(X86Features::AVX));
}

#[test]
fn test_arm_features_flags() {
    let features = ArmFeatures::from_bits(ArmFeatures::NEON | ArmFeatures::AES);
    assert!(features.contains(ArmFeatures::NEON));
    assert!(features.contains(ArmFeatures::AES));
    assert!(!features.contains(ArmFeatures::SHA2));
}

#[test]
fn test_arm_feature_detection() {
    let features = ArmFeatures::empty();
    assert!(
        !features.contains(ArmFeatures::NEON),
        "Empty features should not contain NEON"
    );

    let mut features = ArmFeatures::empty();
    features.insert(ArmFeatures::NEON);
    assert!(
        features.contains(ArmFeatures::NEON),
        "Features should contain NEON after insertion"
    );
    assert!(
        !features.contains(ArmFeatures::ASIMD),
        "Features should not contain ASIMD"
    );

    features.insert(ArmFeatures::ASIMD);
    assert!(
        features.contains(ArmFeatures::ASIMD),
        "Features should contain ASIMD after insertion"
    );
}

#[test]
fn test_x86_union_commutative_concrete() {
    let a = X86Features::from_bits(X86Features::SSE | X86Features::AVX);
    let b = X86Features::from_bits(X86Features::SSE2 | X86Features::FMA);
    assert_eq!(a.union(b), b.union(a));
}

#[test]
fn test_x86_union_associative_concrete() {
    let a = X86Features::from_bits(X86Features::SSE);
    let b = X86Features::from_bits(X86Features::SSE2);
    let c = X86Features::from_bits(X86Features::AVX512VL);
    assert_eq!(a.union(b).union(c), a.union(b.union(c)));
}

#[test]
fn test_x86_intersection_laws_concrete() {
    let a = X86Features::from_bits(X86Features::SSE | X86Features::SSE2 | X86Features::AVX);
    let b = X86Features::from_bits(X86Features::SSE2 | X86Features::AVX | X86Features::FMA);
    let c = X86Features::from_bits(X86Features::AVX | X86Features::FMA);
    assert_eq!(a.intersection(b), b.intersection(a));
    assert_eq!(
        a.intersection(b).intersection(c),
        a.intersection(b.intersection(c))
    );
    assert_eq!(
        a.intersection(b).bits(),
        X86Features::SSE2 | X86Features::AVX
    );
}

#[test]
fn test_arm_set_laws_concrete() {
    let a = ArmFeatures::from_bits(ArmFeatures::NEON | ArmFeatures::FP);
    let b = ArmFeatures::from_bits(ArmFeatures::FP | ArmFeatures::CRC32);
    assert_eq!(a.union(b), b.union(a));
    assert_eq!(a.intersection(b).bits(), ArmFeatures::FP);
}

#[test]
fn test_empty_set_contains_nothing() {
    let empty = X86Features::empty();
    assert!(empty.is_empty());
    assert!(!empty.contains(X86Features::SSE));
    assert!(!empty.contains(X86Features::AVX512VL));
    let empty_arm = ArmFeatures::empty();
    assert!(!empty_arm.contains(ArmFeatures::NEON));
}

#[test]
fn test_insert_then_contains() {
    let mut s = X86Features::empty();
    s.insert(X86Features::POPCNT);
    assert!(s.contains(X86Features::POPCNT));
    assert!(!s.contains(X86Features::AES));
}

#[test]
fn test_features_from_words_exact() {
    // SSE lives in bit 25 of the upper half of the base word, SSE3 in bit 0
    // of the lower half; AVX2 in bit 5 of the upper half of the extended
    // word.
    let base: u64 = (1u64 << (32 + 25)) | 1u64;
    let extended: u64 = 1u64 << (32 + 5);
    let f = x86_features_from_words(base, extended);
    assert!(f.contains(X86Features::SSE));
    assert!(f.contains(X86Features::SSE3));
    assert!(f.contains(X86Features::AVX2));
    assert!(!f.contains(X86Features::SSE2));
    assert_eq!(
        f.bits(),
        X86Features::SSE | X86Features::SSE3 | X86Features::AVX2
    );
}

#[test]
fn test_features_from_zero_words() {
    let f = x86_features_from_words(0, 0);
    assert!(f.is_empty());
}
