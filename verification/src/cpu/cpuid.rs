//! Identification-register parsing for the x86 family.
//!
//! The backend issues the processor identification instruction through one
//! trusted call and decodes every register in verified code: vendor and
//! brand strings, family/model/stepping fields, feature words and the cache
//! hierarchy.  A [`CpuidSnapshot`] holds everything one detection pass
//! reads, so the decoding layer is a pure function of the snapshot.

use vstd::prelude::*;

verus! {

/// Errors specific to identification-register queries.
#[derive(Debug)]
pub enum CpuidError {
    /// A mandatory leaf is not supported by this processor.
    UnsupportedLeaf(u32),
    /// A mandatory subleaf is not supported by this processor.
    UnsupportedSubleaf(u32, u32),
    /// Information for the given cache level is unavailable.
    CacheInfoNotAvailable(u8),
    /// The identification query could not be issued.
    AccessError(String),
    /// A query returned a value outside the documented shape.
    UnexpectedResult,
    /// This build has no identification backend for the running architecture.
    UnsupportedArchitecture,
}

/// One set of identification registers, as returned for a (leaf, subleaf)
/// query.
#[derive(Clone, Copy, PartialEq, Eq, Structural, Debug)]
pub struct CpuidRegs {
    pub eax: u32,
    pub ebx: u32,
    pub ecx: u32,
    pub edx: u32,
}

/// Everything the identification backend reads from the hardware in one
/// detection pass.  The decoding layer is a pure function of this value, so
/// fallback behaviour can be exercised on constructed snapshots as well as
/// on live reads.
#[derive(Clone, Debug)]
pub struct CpuidSnapshot {
    /// Highest supported standard leaf (EAX of leaf 0).
    pub highest_leaf: u32,
    /// EBX of leaf 0: first four vendor identification bytes.
    pub vendor_ebx: u32,
    /// EDX of leaf 0: middle four vendor identification bytes.
    pub vendor_edx: u32,
    /// ECX of leaf 0: last four vendor identification bytes.
    pub vendor_ecx: u32,
    /// Version and feature information (leaf 1), when supported.
    pub leaf1: Option<CpuidRegs>,
    /// Structured extended feature flags (leaf 7, subleaf 0), when supported.
    pub leaf7: Option<CpuidRegs>,
    /// Highest supported extended leaf (EAX of leaf 0x8000_0000).
    pub highest_ext_leaf: u32,
    /// Brand string registers (leaves 0x8000_0002..=0x8000_0004), when
    /// supported.
    pub brand_regs: Option<[CpuidRegs; 3]>,
    /// Deterministic cache parameter subleaves, in subleaf order, stopped at
    /// the first null descriptor and bounded to the four the topology can
    /// hold.
    pub cache_params: Vec<CpuidRegs>,
    /// Vendor-extended L1 cache and TLB registers (leaf 0x8000_0005).
    pub amd_l1: Option<CpuidRegs>,
    /// Vendor-extended L2/L3 cache and TLB registers (leaf 0x8000_0006).
    pub amd_l2l3: Option<CpuidRegs>,
}

/// Relies on `raw_cpuid::native_cpuid::cpuid_count`: executes the
/// processor's identification instruction for the given leaf and subleaf and
/// hands back the four result registers unchanged.  The values depend on the
/// host processor alone, so nothing is promised about them.
#[verifier::external_body]
fn cpuid_query(leaf: u32, subleaf: u32) -> CpuidRegs {
    let r = raw_cpuid::native_cpuid::cpuid_count(leaf, subleaf);
    CpuidRegs { eax: r.eax, ebx: r.ebx, ecx: r.ecx, edx: r.edx }
}

/// Relies on `String::from_utf8_lossy`: ASCII bytes are one-byte UTF-8
/// sequences, so for an all-ASCII input the result holds exactly the input
/// bytes as characters; invalid sequences become replacement characters, so
/// a non-empty input never yields an empty string.
#[verifier::external_body]
pub(crate) fn lossy_string(bytes: &Vec<u8>) -> (r: String)
    ensures
        ascii_bytes(bytes@) ==> r@ == ascii_chars(bytes@),
        bytes@.len() > 0 ==> r@.len() > 0,
{
    String::from_utf8_lossy(bytes).into_owned()
}

/// True when every byte is in the ASCII range.
pub open spec fn ascii_bytes(s: Seq<u8>) -> bool {
    forall|i: int| 0 <= i < s.len() ==> s[i] < 128
}

/// The bytes read as a character sequence; meaningful for ASCII bytes.
pub open spec fn ascii_chars(s: Seq<u8>) -> Seq<char> {
    Seq::new(s.len(), |i: int| s[i] as char)
}

/// The four bytes of a register, least significant first.
pub open spec fn spec_register_bytes(r: u32) -> Seq<u8> {
    seq![
        (r & 0xFF) as u8,
        ((r >> 8) & 0xFF) as u8,
        ((r >> 16) & 0xFF) as u8,
        ((r >> 24) & 0xFF) as u8,
    ]
}

/// The twelve vendor identification bytes: EBX, then EDX, then ECX.
pub open spec fn spec_vendor_bytes(ebx: u32, edx: u32, ecx: u32) -> Seq<u8> {
    spec_register_bytes(ebx) + spec_register_bytes(edx) + spec_register_bytes(ecx)
}

/// The vendor identification string of Intel processors, as bytes.
pub open spec fn spec_intel_id() -> Seq<u8> {
    seq![
        'G' as u8,
        'e' as u8,
        'n' as u8,
        'u' as u8,
        'i' as u8,
        'n' as u8,
        'e' as u8,
        'I' as u8,
        'n' as u8,
        't' as u8,
        'e' as u8,
        'l' as u8,
    ]
}

/// The vendor identification string of AMD processors, as bytes.
pub open spec fn spec_amd_id() -> Seq<u8> {
    seq![
        'A' as u8,
        'u' as u8,
        't' as u8,
        'h' as u8,
        'e' as u8,
        'n' as u8,
        't' as u8,
        'i' as u8,
        'c' as u8,
        'A' as u8,
        'M' as u8,
        'D' as u8,
    ]
}

/// Appends the four bytes of a register, least significant first.
fn push_register_bytes(out: &mut Vec<u8>, r: u32)
    ensures
        final(out)@ == old(out)@ + spec_register_bytes(r),
{
    out.push((r & 0xFF) as u8);
    out.push(((r >> 8) & 0xFF) as u8);
    out.push(((r >> 16) & 0xFF) as u8);
    out.push(((r >> 24) & 0xFF) as u8);
    assert(out@ =~= old(out)@ + spec_register_bytes(r));
}

/// Collects the twelve vendor identification bytes from the leaf-0
/// registers.
pub fn vendor_bytes(ebx: u32, edx: u32, ecx: u32) -> (r: Vec<u8>)
    ensures
        r@ == spec_vendor_bytes(ebx, edx, ecx),
{
    let mut out: Vec<u8> = Vec::new();
    push_register_bytes(&mut out, ebx);
    push_register_bytes(&mut out, edx);
    push_register_bytes(&mut out, ecx);
    assert(out@ =~= spec_vendor_bytes(ebx, edx, ecx));
    out
}

/// Compares a byte sequence against a twelve-byte vendor identification.
fn bytes_equal_12(v: &Vec<u8>, w: [u8; 12]) -> (r: bool)
    ensures
        r == (v@ == w@),
{
    if v.len() != 12 {
        proof {
            assert(w@.len() == 12);
        }
        return false;
    }
    let mut i: usize = 0;
    while i < 12
        invariant
            0 <= i <= 12,
            v@.len() == 12,
            w@.len() == 12,
            forall|j: int| 0 <= j < i ==> v@[j] == w@[j],
        decreases 12 - i,
    {
        if v[i] != w[i] {
            return false;
        }
        i += 1;
    }
    proof {
        assert(v@ =~= w@);
    }
    true
}

/// True exactly when the bytes spell the Intel vendor identification.
pub fn is_intel_vendor(v: &Vec<u8>) -> (r: bool)
    ensures
        r == (v@ == spec_intel_id()),
{
    let w: [u8; 12] = [
        'G' as u8,
        'e' as u8,
        'n' as u8,
        'u' as u8,
        'i' as u8,
        'n' as u8,
        'e' as u8,
        'I' as u8,
        'n' as u8,
        't' as u8,
        'e' as u8,
        'l' as u8,
    ];
    proof {
        assert(w@ =~= spec_intel_id());
    }
    bytes_equal_12(v, w)
}

/// True exactly when the bytes spell the AMD vendor identification.
pub fn is_amd_vendor(v: &Vec<u8>) -> (r: bool)
    ensures
        r == (v@ == spec_amd_id()),
{
    let w: [u8; 12] = [
        'A' as u8,
        'u' as u8,
        't' as u8,
        'h' as u8,
        'e' as u8,
        'n' as u8,
        't' as u8,
        'i' as u8,
        'c' as u8,
        'A' as u8,
        'M' as u8,
        'D' as u8,
    ];
    proof {
        assert(w@ =~= spec_amd_id());
    }
    bytes_equal_12(v, w)
}

/// Base family field of the leaf-1 EAX register (bits 8..=11).
pub open spec fn spec_base_family(eax: u32) -> u8 {
    ((eax >> 8) & 0xF) as u8
}

/// Base model field of the leaf-1 EAX register (bits 4..=7).
pub open spec fn spec_base_model(eax: u32) -> u8 {
    ((eax >> 4) & 0xF) as u8
}

/// Stepping field of the leaf-1 EAX register (bits 0..=3).
pub open spec fn spec_stepping(eax: u32) -> u8 {
    (eax & 0xF) as u8
}

/// Extended family field of the leaf-1 EAX register (bits 20..=27).
pub open spec fn spec_extended_family(eax: u32) -> u8 {
    ((eax >> 20) & 0xFF) as u8
}

/// Extended model field of the leaf-1 EAX register (bits 16..=19).
pub open spec fn spec_extended_model(eax: u32) -> u8 {
    ((eax >> 16) & 0xF) as u8
}

/// Processor type field of the leaf-1 EAX register (bits 12..=13).
pub open spec fn spec_processor_type(eax: u32) -> u8 {
    ((eax >> 12) & 0x3) as u8
}

/// Two 32-bit feature registers combined into one 64-bit word, the first in
/// the upper half.
pub open spec fn spec_combined_features(hi: u32, lo: u32) -> u64 {
    ((hi as u64) << 32) | (lo as u64)
}

/// The snapshot's base feature word: EDX and ECX of leaf 1 combined, or zero
/// when the leaf is unsupported.
pub open spec fn spec_base_feature_word(snap: CpuidSnapshot) -> u64 {
    match snap.leaf1 {
        Some(l1) => spec_combined_features(l1.edx, l1.ecx),
        None => 0u64,
    }
}

/// The snapshot's extended feature word: EBX and ECX of leaf 7 combined, or
/// zero when the leaf is unsupported.
pub open spec fn spec_extended_feature_word(snap: CpuidSnapshot) -> u64 {
    match snap.leaf7 {
        Some(l7) => spec_combined_features(l7.ebx, l7.ecx),
        None => 0u64,
    }
}

/// True when `bit` names a position inside the 32-bit word and that bit is
/// set.
pub open spec fn spec_bit_set(word: u32, bit: u32) -> bool {
    bit < 32 && (word >> bit) & 1 == 1
}

/// Tests one bit of a 32-bit register; positions outside the word are
/// reported unset.
pub fn bit_set(word: u32, bit: u32) -> (r: bool)
    ensures
        r == spec_bit_set(word, bit),
{
    bit < 32 && (word >> bit) & 1 == 1
}

/// Reads one full identification snapshot from the host processor.
///
/// Leaf availability follows the processor's own reports: a leaf is read
/// only when the highest-supported-leaf registers allow it, and the
/// deterministic cache subleaves come from the vendor's own enumeration
/// leaf.
pub fn read_snapshot() -> (r: CpuidSnapshot)
    ensures
        r.leaf1 is Some <==> r.highest_leaf >= 1,
        r.leaf7 is Some <==> r.highest_leaf >= 7,
        r.brand_regs is Some <==> r.highest_ext_leaf >= 0x8000_0004,
        r.amd_l1 is Some <==> r.highest_ext_leaf >= 0x8000_0005,
        r.amd_l2l3 is Some <==> r.highest_ext_leaf >= 0x8000_0006,
        r.cache_params@.len() <= 4,
        forall|i: int|
            0 <= i < r.cache_params@.len() ==> spec_cache_type_bits(r.cache_params@[i].eax) != 0,
{
    let leaf0 = cpuid_query(0, 0);
    let highest_leaf = leaf0.eax;
    let leaf1 = if highest_leaf >= 1 {
        Some(cpuid_query(1, 0))
    } else {
        None
    };
    let leaf7 = if highest_leaf >= 7 {
        Some(cpuid_query(7, 0))
    } else {
        None
    };
    let ext0 = cpuid_query(0x8000_0000, 0);
    let highest_ext_leaf = ext0.eax;
    let brand_regs = if highest_ext_leaf >= 0x8000_0004 {
        Some([
            cpuid_query(0x8000_0002, 0),
            cpuid_query(0x8000_0003, 0),
            cpuid_query(0x8000_0004, 0),
        ])
    } else {
        None
    };
    let amd_l1 = if highest_ext_leaf >= 0x8000_0005 {
        Some(cpuid_query(0x8000_0005, 0))
    } else {
        None
    };
    let amd_l2l3 = if highest_ext_leaf >= 0x8000_0006 {
        Some(cpuid_query(0x8000_0006, 0))
    } else {
        None
    };

    // The deterministic cache enumeration leaf differs by vendor: AMD
    // processors report it on an extended leaf, the others on leaf 4.
    let vb = vendor_bytes(leaf0.ebx, leaf0.edx, leaf0.ecx);
    let amd = is_amd_vendor(&vb);
    let cache_leaf_supported = if amd {
        highest_ext_leaf >= 0x8000_001D
    } else {
        highest_leaf >= 4
    };
    let cache_leaf: u32 = if amd {
        0x8000_001D
    } else {
        4
    };
    let mut cache_params: Vec<CpuidRegs> = Vec::new();
    if cache_leaf_supported {
        let mut subleaf: u32 = 0;
        while subleaf < 4
            invariant
                cache_params@.len() <= subleaf,
                subleaf <= 4,
                forall|i: int|
                    0 <= i < cache_params@.len() ==> spec_cache_type_bits(
                        cache_params@[i].eax,
                    ) != 0,
            decreases 4 - subleaf,
        {
            let regs = cpuid_query(cache_leaf, subleaf);
            if regs.eax & 0x1F == 0 {
                break;
            }
            cache_params.push(regs);
            subleaf += 1;
        }
    }

    CpuidSnapshot {
        highest_leaf,
        vendor_ebx: leaf0.ebx,
        vendor_edx: leaf0.edx,
        vendor_ecx: leaf0.ecx,
        leaf1,
        leaf7,
        highest_ext_leaf,
        brand_regs,
        cache_params,
        amd_l1,
        amd_l2l3,
    }
}

/// True for the bytes that pad a brand string: NUL and the space character.
pub open spec fn spec_is_brand_pad(b: u8) -> bool {
    b == 0 || b == 32
}

/// The sequence with leading pad bytes removed.
pub open spec fn spec_trim_front(s: Seq<u8>) -> Seq<u8>
    decreases s.len(),
{
    if s.len() > 0 && spec_is_brand_pad(s[0]) {
        spec_trim_front(s.drop_first())
    } else {
        s
    }
}

/// The sequence with trailing pad bytes removed.
pub open spec fn spec_trim_back(s: Seq<u8>) -> Seq<u8>
    decreases s.len(),
{
    if s.len() > 0 && spec_is_brand_pad(s[s.len() - 1]) {
        spec_trim_back(s.drop_last())
    } else {
        s
    }
}

/// The sequence with pad bytes removed from both ends.
pub open spec fn spec_trim(s: Seq<u8>) -> Seq<u8> {
    spec_trim_back(spec_trim_front(s))
}

proof fn lemma_trim_front_skip(s: Seq<u8>, lo: int)
    requires
        0 <= lo <= s.len(),
        forall|j: int| 0 <= j < lo ==> spec_is_brand_pad(s[j]),
        lo == s.len() || !spec_is_brand_pad(s[lo]),
    ensures
        spec_trim_front(s) == s.skip(lo),
    decreases lo,
{
    if lo == 0 {
        assert(s.skip(0) =~= s);
    } else {
        assert(spec_is_brand_pad(s[0]));
        assert(s.len() > 0);
        lemma_trim_front_skip(s.drop_first(), lo - 1);
        assert(s.drop_first().skip(lo - 1) =~= s.skip(lo));
    }
}

proof fn lemma_trim_back_take(s: Seq<u8>, hi: int)
    requires
        0 <= hi <= s.len(),
        forall|j: int| hi <= j < s.len() ==> spec_is_brand_pad(s[j]),
        hi == 0 || !spec_is_brand_pad(s[hi - 1]),
    ensures
        spec_trim_back(s) == s.take(hi),
    decreases s.len() - hi,
{
    if hi == s.len() {
        assert(s.take(hi) =~= s);
    } else {
        assert(spec_is_brand_pad(s[s.len() - 1]));
        lemma_trim_back_take(s.drop_last(), hi);
        assert(s.drop_last().take(hi) =~= s.take(hi));
    }
}

/// Removes NUL and space padding from both ends of a byte sequence.
pub fn trim_pad_bytes(v: &Vec<u8>) -> (r: Vec<u8>)
    ensures
        r@ == spec_trim(v@),
{
    let n = v.len();
    let mut lo: usize = 0;
    while lo < n && (v[lo] == 0 || v[lo] == 32)
        invariant
            0 <= lo <= n,
            n == v@.len(),
            forall|j: int| 0 <= j < lo ==> spec_is_brand_pad(v@[j]),
        decreases n - lo,
    {
        lo += 1;
    }
    proof {
        lemma_trim_front_skip(v@, lo as int);
    }
    let mut hi: usize = n;
    while hi > lo && (v[hi - 1] == 0 || v[hi - 1] == 32)
        invariant
            lo <= hi <= n,
            n == v@.len(),
            forall|j: int| hi <= j < n ==> spec_is_brand_pad(v@[j]),
            forall|j: int| 0 <= j < lo ==> spec_is_brand_pad(v@[j]),
        decreases hi,
    {
        hi -= 1;
    }
    proof {
        // Either the scan stopped on a non-pad byte, or everything from `lo`
        // up is padding; in the second case the leading scan's stop
        // condition forces hi == lo == 0 or a non-pad byte at lo.
        if hi > lo {
            lemma_trim_back_take(v@.skip(lo as int), hi - lo);
        } else {
            if lo < n {
                assert(!spec_is_brand_pad(v@[lo as int]));
            }
            lemma_trim_back_take(v@.skip(lo as int), 0);
        }
    }
    let mut out: Vec<u8> = Vec::new();
    let mut i: usize = lo;
    while i < hi
        invariant
            lo <= i <= hi <= n,
            n == v@.len(),
            out@ =~= v@.subrange(lo as int, i as int),
        decreases hi - i,
    {
        out.push(v[i]);
        assert(out@ =~= v@.subrange(lo as int, i + 1 as int));
        i += 1;
    }
    proof {
        assert(v@.skip(lo as int).take((hi - lo) as int) =~= v@.subrange(lo as int, hi as int));
    }
    out
}

/// Index of the first NUL byte, or the length when there is none.
pub open spec fn spec_first_nul_byte(s: Seq<u8>) -> int
    decreases s.len(),
{
    if s.len() == 0 {
        0
    } else if s[0] == 0 {
        0
    } else {
        1 + spec_first_nul_byte(s.drop_first())
    }
}

proof fn lemma_first_nul_byte_is(s: Seq<u8>, k: int)
    requires
        0 <= k <= s.len(),
        forall|j: int| 0 <= j < k ==> s[j] != 0,
        k == s.len() || s[k] == 0,
    ensures
        spec_first_nul_byte(s) == k,
    decreases k,
{
    if k > 0 {
        lemma_first_nul_byte_is(s.drop_first(), k - 1);
    }
}

/// The sequence up to, and not including, its first NUL byte.
pub open spec fn spec_truncate_at_nul(s: Seq<u8>) -> Seq<u8> {
    s.take(spec_first_nul_byte(s))
}

/// Cuts a byte sequence at its first NUL.
pub fn truncate_at_nul(v: &Vec<u8>) -> (r: Vec<u8>)
    ensures
        r@ == spec_truncate_at_nul(v@),
{
    let n = v.len();
    let mut end: usize = 0;
    while end < n && v[end] != 0
        invariant
            0 <= end <= n,
            n == v@.len(),
            forall|j: int| 0 <= j < end ==> v@[j] != 0,
        decreases n - end,
    {
        end += 1;
    }
    proof {
        lemma_first_nul_byte_is(v@, end as int);
    }
    let mut out: Vec<u8> = Vec::new();
    let mut i: usize = 0;
    while i < end
        invariant
            0 <= i <= end <= n,
            n == v@.len(),
            out@ =~= v@.subrange(0, i as int),
        decreases end - i,
    {
        out.push(v[i]);
        assert(out@ =~= v@.subrange(0, i + 1 as int));
        i += 1;
    }
    proof {
        assert(v@.take(end as int) =~= v@.subrange(0, end as int));
    }
    out
}

/// The 48 brand-string bytes of the snapshot, in register order, or the
/// empty sequence when the brand leaves are unsupported.
pub open spec fn spec_brand_bytes(snap: CpuidSnapshot) -> Seq<u8> {
    match snap.brand_regs {
        Some(a) => spec_register_bytes(a@[0].eax) + spec_register_bytes(a@[0].ebx)
            + spec_register_bytes(a@[0].ecx) + spec_register_bytes(a@[0].edx)
            + spec_register_bytes(a@[1].eax) + spec_register_bytes(a@[1].ebx)
            + spec_register_bytes(a@[1].ecx) + spec_register_bytes(a@[1].edx)
            + spec_register_bytes(a@[2].eax) + spec_register_bytes(a@[2].ebx)
            + spec_register_bytes(a@[2].ecx) + spec_register_bytes(a@[2].edx),
        None => Seq::empty(),
    }
}

/// The snapshot's brand string: the brand bytes cut at their first NUL,
/// then stripped of padding.
pub open spec fn spec_brand_trimmed(snap: CpuidSnapshot) -> Seq<u8> {
    spec_trim(spec_truncate_at_nul(spec_brand_bytes(snap)))
}

/// What the decoded brand string promises: the literal `"Unknown"` when the
/// leaves yield nothing, the trimmed bytes as characters when they are
/// ASCII, and a non-empty string in every case.
pub open spec fn spec_brand_string_ok(snap: CpuidSnapshot, s: Seq<char>) -> bool {
    &&& (spec_brand_trimmed(snap).len() == 0 ==> s == "Unknown"@)
    &&& (spec_brand_trimmed(snap).len() > 0 && ascii_bytes(spec_brand_trimmed(snap)) ==> s
        == ascii_chars(spec_brand_trimmed(snap)))
    &&& s.len() > 0
}

/// Decodes the brand string of a snapshot: the 48 bytes of the brand
/// leaves, cut at the first NUL terminator and stripped of padding, with
/// the literal `"Unknown"` as the fallback when nothing remains.
pub fn decode_brand_string(snap: &CpuidSnapshot) -> (r: String)
    ensures
        spec_brand_string_ok(*snap, r@),
{
    proof {
        reveal_strlit("Unknown");
    }
    match &snap.brand_regs {
        None => "Unknown".to_owned(),
        Some(regs) => {
            let mut bytes: Vec<u8> = Vec::new();
            push_register_bytes(&mut bytes, regs[0].eax);
            push_register_bytes(&mut bytes, regs[0].ebx);
            push_register_bytes(&mut bytes, regs[0].ecx);
            push_register_bytes(&mut bytes, regs[0].edx);
            push_register_bytes(&mut bytes, regs[1].eax);
            push_register_bytes(&mut bytes, regs[1].ebx);
            push_register_bytes(&mut bytes, regs[1].ecx);
            push_register_bytes(&mut bytes, regs[1].edx);
            push_register_bytes(&mut bytes, regs[2].eax);
            push_register_bytes(&mut bytes, regs[2].ebx);
            push_register_bytes(&mut bytes, regs[2].ecx);
            push_register_bytes(&mut bytes, regs[2].edx);
            assert(bytes@ =~= spec_brand_bytes(*snap));
            let cut = truncate_at_nul(&bytes);
            let trimmed = trim_pad_bytes(&cut);
            if trimmed.len() == 0 {
                "Unknown".to_owned()
            } else {
                lossy_string(&trimmed)
            }
        },
    }
}

/// Basic CPU information extracted from the identification registers.
#[derive(Clone, Debug)]
pub struct BasicInfo {
    /// CPU vendor identification string.
    pub vendor_string: String,
    /// Brand/model string.
    pub brand_string: String,
    /// Family ID (base field, before extended-bit folding).
    pub family: u8,
    /// Model ID (base field, before extended-bit folding).
    pub model: u8,
    /// Stepping ID.
    pub stepping: u8,
    /// Extended family ID.
    pub extended_family: u8,
    /// Extended model ID.
    pub extended_model: u8,
    /// Processor type.
    pub processor_type: u8,
    /// Base features: leaf-1 EDX in the upper half, ECX in the lower.
    pub base_features: u64,
    /// Extended features: leaf-7 EBX in the upper half, ECX in the lower.
    pub extended_features: u64,
}

/// The exact relation between a snapshot and the basic information decoded
/// from it.
pub open spec fn spec_basic_info_ok(snap: CpuidSnapshot, b: BasicInfo) -> bool {
    &&& snap.leaf1 matches Some(l1) && {
        &&& b.family == spec_base_family(l1.eax)
        &&& b.model == spec_base_model(l1.eax)
        &&& b.stepping == spec_stepping(l1.eax)
        &&& b.extended_family == spec_extended_family(l1.eax)
        &&& b.extended_model == spec_extended_model(l1.eax)
        &&& b.processor_type == spec_processor_type(l1.eax)
    }
    &&& b.base_features == spec_base_feature_word(snap)
    &&& b.extended_features == spec_extended_feature_word(snap)
    &&& (ascii_bytes(spec_vendor_bytes(snap.vendor_ebx, snap.vendor_edx, snap.vendor_ecx))
        ==> b.vendor_string@ == ascii_chars(
        spec_vendor_bytes(snap.vendor_ebx, snap.vendor_edx, snap.vendor_ecx),
    ))
    &&& spec_brand_string_ok(snap, b.brand_string@)
}

/// Decodes the basic information of a snapshot.
///
/// Fails exactly when the mandatory feature-information leaf is absent; the
/// optional extended-feature leaf contributes zero bits when absent rather
/// than failing.
pub fn decode_basic_info(snap: &CpuidSnapshot) -> (r: Result<BasicInfo, CpuidError>)
    ensures
        r is Ok <==> snap.leaf1 is Some,
        r matches Err(e) ==> e == CpuidError::UnsupportedLeaf(1u32),
        r matches Ok(b) ==> spec_basic_info_ok(*snap, b)
            && b.family <= 0xF && b.model <= 0xF && b.stepping <= 0xF
            && b.extended_model <= 0xF && b.processor_type <= 3
            && b.brand_string@.len() > 0,
{
    match &snap.leaf1 {
        None => Err(CpuidError::UnsupportedLeaf(1)),
        Some(l1) => {
            let eax = l1.eax;
            proof {
                lemma_leaf1_field_bounds(eax);
            }
            let vb = vendor_bytes(snap.vendor_ebx, snap.vendor_edx, snap.vendor_ecx);
            let vendor_string = lossy_string(&vb);
            let brand_string = decode_brand_string(snap);
            let base_features: u64 = ((l1.edx as u64) << 32) | (l1.ecx as u64);
            let extended_features: u64 = match &snap.leaf7 {
                Some(l7) => ((l7.ebx as u64) << 32) | (l7.ecx as u64),
                None => 0,
            };
            Ok(BasicInfo {
                vendor_string,
                brand_string,
                family: ((eax >> 8) & 0xF) as u8,
                model: ((eax >> 4) & 0xF) as u8,
                stepping: (eax & 0xF) as u8,
                extended_family: ((eax >> 20) & 0xFF) as u8,
                extended_model: ((eax >> 16) & 0xF) as u8,
                processor_type: ((eax >> 12) & 0x3) as u8,
                base_features,
                extended_features,
            })
        },
    }
}

proof fn lemma_leaf1_field_bounds(eax: u32)
    by (bit_vector)
    ensures
        ((eax >> 8) & 0xF) <= 0xF,
        ((eax >> 4) & 0xF) <= 0xF,
        (eax & 0xF) <= 0xF,
        ((eax >> 16) & 0xF) <= 0xF,
        ((eax >> 12) & 0x3) <= 3,
{
}

/// Identification registers addressable by the feature predicates.
#[derive(Clone, Copy, PartialEq, Eq, Structural, Debug)]
pub enum CpuidRegister {
    EAX,
    EBX,
    ECX,
    EDX,
}

/// Which bit a base-feature query reads: only the ECX and EDX registers of
/// the feature leaf carry base feature bits; any other selector is unset.
pub open spec fn spec_base_feature_bit(regs: CpuidRegs, feature: u32, register: CpuidRegister) -> bool {
    match register {
        CpuidRegister::ECX => spec_bit_set(regs.ecx, feature),
        CpuidRegister::EDX => spec_bit_set(regs.edx, feature),
        _ => false,
    }
}

/// Which bit an extended-feature query reads: only the EBX and ECX
/// registers of the extended-feature leaf carry these bits.
pub open spec fn spec_extended_feature_bit(
    regs: CpuidRegs,
    feature: u32,
    register: CpuidRegister,
) -> bool {
    match register {
        CpuidRegister::EBX => spec_bit_set(regs.ebx, feature),
        CpuidRegister::ECX => spec_bit_set(regs.ecx, feature),
        _ => false,
    }
}

/// Pure bit test against a set of base feature registers.
pub fn base_feature_bit(regs: &CpuidRegs, feature: u32, register: CpuidRegister) -> (r: bool)
    ensures
        r == spec_base_feature_bit(*regs, feature, register),
{
    match register {
        CpuidRegister::ECX => bit_set(regs.ecx, feature),
        CpuidRegister::EDX => bit_set(regs.edx, feature),
        _ => false,
    }
}

/// Pure bit test against a set of extended feature registers.
pub fn extended_feature_bit(regs: &CpuidRegs, feature: u32, register: CpuidRegister) -> (r: bool)
    ensures
        r == spec_extended_feature_bit(*regs, feature, register),
{
    match register {
        CpuidRegister::EBX => bit_set(regs.ebx, feature),
        CpuidRegister::ECX => bit_set(regs.ecx, feature),
        _ => false,
    }
}

/// Entry point to the identification backend: issues the queries and hands
/// the decoded results out.
#[derive(Debug)]
pub struct CpuidWrapper {}

impl CpuidWrapper {
    /// Creates a new backend handle.
    pub fn new() -> (r: CpuidWrapper) {
        CpuidWrapper {  }
    }

    /// Reads and decodes the basic CPU information of the host.
    ///
    /// Fails with `UnsupportedLeaf(1)` exactly when the processor does not
    /// report the mandatory feature-information leaf.
    pub fn get_basic_info(&self) -> (r: Result<BasicInfo, CpuidError>)
        ensures
            r matches Err(e) ==> e == CpuidError::UnsupportedLeaf(1u32),
            r matches Ok(b) ==> b.family <= 0xF && b.model <= 0xF && b.stepping <= 0xF
                && b.extended_model <= 0xF && b.processor_type <= 3
                && b.brand_string@.len() > 0,
    {
        let snap = read_snapshot();
        decode_basic_info(&snap)
    }

    /// Tests one base feature bit of the host processor.
    ///
    /// Only the ECX and EDX selectors are meaningful; any other register
    /// selector answers false, as does an absent feature leaf.
    pub fn has_feature(&self, feature: u32, register: CpuidRegister) -> (r: bool)
        ensures
            (register is EAX || register is EBX) ==> r == false,
    {
        let snap = read_snapshot();
        match &snap.leaf1 {
            Some(l1) => base_feature_bit(l1, feature, register),
            None => false,
        }
    }

    /// Tests one extended feature bit of the host processor.
    ///
    /// Only the EBX and ECX selectors are meaningful; any other register
    /// selector answers false, as does an absent extended-feature leaf.
    pub fn has_extended_feature(&self, feature: u32, register: CpuidRegister) -> (r: bool)
        ensures
            (register is EAX || register is EDX) ==> r == false,
    {
        let snap = read_snapshot();
        match &snap.leaf7 {
            Some(l7) => extended_feature_bit(l7, feature, register),
            None => false,
        }
    }
}

impl Default for CpuidWrapper {
    /// Same as [`CpuidWrapper::new`].
    fn default() -> (r: Self) {
        CpuidWrapper::new()
    }
}

/// Types of CPU caches.
#[derive(Clone, Copy, PartialEq, Eq, Structural, Debug)]
pub enum CacheType {
    Data,
    Instruction,
    Unified,
    Unknown,
}

impl CacheType {
    /// The cache type's display name.
    pub open spec fn spec_name(self) -> Seq<char> {
        match self {
            CacheType::Data => "Data"@,
            CacheType::Instruction => "Instruction"@,
            CacheType::Unified => "Unified"@,
            CacheType::Unknown => "Unknown"@,
        }
    }

    /// Returns the cache type's display name.
    pub fn name(&self) -> (r: String)
        ensures
            r@ == self.spec_name(),
    {
        match self {
            CacheType::Data => "Data".to_owned(),
            CacheType::Instruction => "Instruction".to_owned(),
            CacheType::Unified => "Unified".to_owned(),
            CacheType::Unknown => "Unknown".to_owned(),
        }
    }
}

impl Default for CacheType {
    /// A cache of unknown type.
    fn default() -> (r: Self)
        ensures
            r == CacheType::Unknown,
    {
        CacheType::Unknown
    }
}

/// Represents one CPU cache.
#[derive(Clone, Copy, PartialEq, Eq, Structural, Debug)]
pub struct CacheInfo {
    /// Cache level (1 = L1, 2 = L2, 3 = L3, ...).
    pub level: u8,
    /// Cache type (data, instruction, unified).
    pub cache_type: CacheType,
    /// Cache size in KB.
    pub size_kb: u32,
    /// Cache line size in bytes.
    pub line_size: u16,
    /// Cache associativity.
    pub associativity: u16,
    /// Number of sets.
    pub sets: u32,
    /// Number of cores sharing this cache.
    pub shared_by: u16,
}

impl Default for CacheInfo {
    /// The all-zero cache entry of unknown type.
    fn default() -> (r: Self)
        ensures
            r == (CacheInfo {
                level: 0,
                cache_type: CacheType::Unknown,
                size_kb: 0,
                line_size: 0,
                associativity: 0,
                sets: 0,
                shared_by: 0,
            }),
    {
        CacheInfo {
            level: 0,
            cache_type: CacheType::Unknown,
            size_kb: 0,
            line_size: 0,
            associativity: 0,
            sets: 0,
            shared_by: 0,
        }
    }
}

/// Collection of cache information for all cache levels.
///
/// The slot meaning is fixed: 0 = L1 instruction, 1 = L1 data, 2 = L2,
/// 3 = L3.
#[derive(Clone, Debug)]
pub struct CacheTopology {
    pub caches: [Option<CacheInfo>; 4],
}

impl Default for CacheTopology {
    /// The empty topology: no slot populated.
    fn default() -> (r: Self)
        ensures
            r.caches@ == spec_empty_slots(),
    {
        let r = CacheTopology { caches: [None, None, None, None] };
        proof {
            assert(r.caches@ =~= spec_empty_slots());
        }
        r
    }
}

/// Four empty cache slots.
pub open spec fn spec_empty_slots() -> Seq<Option<CacheInfo>> {
    seq![None, None, None, None]
}

/// True when at least one of the four slots is populated.
pub open spec fn spec_any_populated(s: Seq<Option<CacheInfo>>) -> bool {
    s[0] is Some || s[1] is Some || s[2] is Some || s[3] is Some
}

/// Cache type field of a deterministic cache descriptor (EAX bits 0..=4);
/// zero means the descriptor list has ended.
pub open spec fn spec_cache_type_bits(eax: u32) -> u32 {
    eax & 0x1F
}

/// The descriptor's cache type.
pub open spec fn spec_cache_type(eax: u32) -> CacheType {
    let t = eax & 0x1F;
    if t == 1 {
        CacheType::Data
    } else if t == 2 {
        CacheType::Instruction
    } else if t == 3 {
        CacheType::Unified
    } else {
        CacheType::Unknown
    }
}

/// The descriptor's cache level (EAX bits 5..=7).
pub open spec fn spec_cache_level(eax: u32) -> u8 {
    ((eax >> 5) & 0x7) as u8
}

/// The descriptor's coherency line size in bytes (EBX bits 0..=11, plus
/// one).
pub open spec fn spec_line_size(ebx: u32) -> u16 {
    ((ebx & 0xFFF) + 1) as u16
}

/// The descriptor's physical line partitions (EBX bits 12..=21, plus one).
pub open spec fn spec_partitions(ebx: u32) -> u16 {
    (((ebx >> 12) & 0x3FF) + 1) as u16
}

/// The descriptor's ways of associativity (EBX bits 22..=31, plus one).
pub open spec fn spec_associativity(ebx: u32) -> u16 {
    (((ebx >> 22) & 0x3FF) + 1) as u16
}

/// The number of logical processors sharing the cache (EAX bits 14..=25,
/// plus one).
pub open spec fn spec_shared_by(eax: u32) -> u16 {
    (((eax >> 14) & 0xFFF) + 1) as u16
}

/// The descriptor's set count, stored saturated at the u32 maximum.
pub open spec fn spec_sets_u32(ecx: u32) -> u32 {
    if ecx == 0xFFFF_FFFFu32 {
        0xFFFF_FFFFu32
    } else {
        (ecx + 1) as u32
    }
}

/// The cache size computation: associativity times line partitions times
/// line size times sets, divided by 1024, giving KB.
pub open spec fn spec_cache_size_kb(
    associativity: int,
    partitions: int,
    line_size: int,
    sets: int,
) -> int {
    associativity * partitions * line_size * sets / 1024
}

/// The descriptor's size in KB, saturated at the u32 maximum.
pub open spec fn spec_size_kb_sat(regs: CpuidRegs) -> u32 {
    let kb = spec_cache_size_kb(
        spec_associativity(regs.ebx) as int,
        spec_partitions(regs.ebx) as int,
        spec_line_size(regs.ebx) as int,
        regs.ecx as int + 1,
    );
    if kb > 0xFFFF_FFFF {
        0xFFFF_FFFFu32
    } else {
        kb as u32
    }
}

/// The cache entry decoded from one deterministic cache descriptor.
pub open spec fn spec_decode_descriptor(regs: CpuidRegs) -> CacheInfo {
    CacheInfo {
        level: spec_cache_level(regs.eax),
        cache_type: spec_cache_type(regs.eax),
        size_kb: spec_size_kb_sat(regs),
        line_size: spec_line_size(regs.ebx),
        associativity: spec_associativity(regs.ebx),
        sets: spec_sets_u32(regs.ecx),
        shared_by: spec_shared_by(regs.eax),
    }
}

proof fn lemma_descriptor_field_bounds(eax: u32, ebx: u32)
    by (bit_vector)
    ensures
        (ebx & 0xFFF) <= 0xFFF,
        ((ebx >> 12) & 0x3FF) <= 0x3FF,
        ((ebx >> 22) & 0x3FF) <= 0x3FF,
        ((eax >> 14) & 0xFFF) <= 0xFFF,
        ((eax >> 5) & 0x7) <= 7,
{
}

/// Decodes one deterministic cache descriptor into a cache entry, computing
/// the size as associativity x partitions x line size x sets / 1024 KB.
pub fn decode_cache_descriptor(regs: &CpuidRegs) -> (r: CacheInfo)
    ensures
        r == spec_decode_descriptor(*regs),
{
    let eax = regs.eax;
    let ebx = regs.ebx;
    let ecx = regs.ecx;
    proof {
        lemma_descriptor_field_bounds(eax, ebx);
    }
    let line: u16 = ((ebx & 0xFFF) + 1) as u16;
    let parts: u16 = (((ebx >> 12) & 0x3FF) + 1) as u16;
    let assoc: u16 = (((ebx >> 22) & 0x3FF) + 1) as u16;
    let shared: u16 = (((eax >> 14) & 0xFFF) + 1) as u16;
    let level: u8 = ((eax >> 5) & 0x7) as u8;
    let tbits = eax & 0x1F;
    let cache_type = if tbits == 1 {
        CacheType::Data
    } else if tbits == 2 {
        CacheType::Instruction
    } else if tbits == 3 {
        CacheType::Unified
    } else {
        CacheType::Unknown
    };
    let sets_true: u64 = ecx as u64 + 1;
    proof {
        let a = assoc as u128;
        let p = parts as u128;
        let l = line as u128;
        let st = sets_true as u128;
        assert(a * p <= 0x10_0000u128) by (nonlinear_arith)
            requires
                a <= 0x400u128,
                p <= 0x400u128,
        ;
        assert(a * p * l <= 0x1_0000_0000u128) by (nonlinear_arith)
            requires
                a * p <= 0x10_0000u128,
                l <= 0x1000u128,
        ;
        assert(a * p * l * st <= 0x1_0000_0000_0000_0000u128) by (nonlinear_arith)
            requires
                a * p * l <= 0x1_0000_0000u128,
                st <= 0x1_0000_0000u128,
        ;
    }
    let prod: u128 = (assoc as u128) * (parts as u128) * (line as u128) * (sets_true as u128);
    let kb128: u128 = prod / 1024;
    let size_kb: u32 = if kb128 > 0xFFFF_FFFF {
        0xFFFF_FFFFu32
    } else {
        kb128 as u32
    };
    let sets: u32 = if ecx == 0xFFFF_FFFFu32 {
        0xFFFF_FFFFu32
    } else {
        ecx + 1
    };
    CacheInfo { level, cache_type, size_kb, line_size: line, associativity: assoc, sets, shared_by: shared }
}

/// The slot a descriptor lands in: L1 instruction and data caches have
/// their fixed slots, any level-2 cache the third and any level-3 cache the
/// fourth; descriptors at other levels take the slot numbered by their
/// position in the enumeration.
pub open spec fn spec_slot_for(level: u8, t: CacheType, index: int) -> int {
    if level == 1 && t is Instruction {
        0
    } else if level == 1 && t is Data {
        1
    } else if level == 2 {
        2
    } else if level == 3 {
        3
    } else {
        index
    }
}

/// Computes the slot for a decoded descriptor.
pub fn slot_for(level: u8, t: CacheType, index: usize) -> (r: usize)
    requires
        index < 4,
    ensures
        r == spec_slot_for(level, t, index as int),
        r < 4,
{
    if level == 1 && matches!(t, CacheType::Instruction) {
        0
    } else if level == 1 && matches!(t, CacheType::Data) {
        1
    } else if level == 2 {
        2
    } else if level == 3 {
        3
    } else {
        index
    }
}

/// The slots after applying the first `n` descriptors in order.
pub open spec fn spec_strategy1_state(descs: Seq<CpuidRegs>, n: int) -> Seq<Option<CacheInfo>>
    decreases n,
{
    if n <= 0 {
        spec_empty_slots()
    } else {
        let prev = spec_strategy1_state(descs, n - 1);
        let info = spec_decode_descriptor(descs[n - 1]);
        prev.update(spec_slot_for(info.level, info.cache_type, n - 1), Some(info))
    }
}

/// How many descriptors the deterministic strategy processes: it walks the
/// list in order, stops at the first null descriptor, and is bounded by the
/// given capacity.
pub open spec fn spec_num_processed(descs: Seq<CpuidRegs>, cap: int) -> int
    decreases cap,
{
    if cap <= 0 || descs.len() == 0 {
        0
    } else if spec_cache_type_bits(descs[0].eax) == 0 {
        0
    } else {
        1 + spec_num_processed(descs.drop_first(), cap - 1)
    }
}

proof fn lemma_num_processed_is(descs: Seq<CpuidRegs>, cap: int, n: int)
    requires
        0 <= n <= cap,
        n <= descs.len(),
        forall|j: int| 0 <= j < n ==> spec_cache_type_bits(descs[j].eax) != 0,
        n == cap || n == descs.len() || spec_cache_type_bits(descs[n].eax) == 0,
    ensures
        spec_num_processed(descs, cap) == n,
    decreases n,
{
    if n == 0 {
    } else {
        assert(spec_cache_type_bits(descs[0].eax) != 0);
        lemma_num_processed_is(descs.drop_first(), cap - 1, n - 1);
    }
}

/// What the deterministic-enumeration strategy yields: the slots filled
/// from the processed descriptors when at least one was processed, nothing
/// otherwise.
pub open spec fn spec_strategy1(descs: Seq<CpuidRegs>) -> Option<Seq<Option<CacheInfo>>> {
    let n = spec_num_processed(descs, 4);
    if n > 0 {
        Some(spec_strategy1_state(descs, n))
    } else {
        None
    }
}

/// Applies the deterministic cache enumeration strategy to the recorded
/// subleaf registers.
pub fn cache_topology_from_descriptors(descs: &Vec<CpuidRegs>) -> (r: Option<CacheTopology>)
    ensures
        r is Some <==> spec_strategy1(descs@) is Some,
        r matches Some(t) ==> t.caches@ == spec_strategy1(descs@)->0,
{
    let ghost gdescs = descs@;
    let mut s0: Option<CacheInfo> = None;
    let mut s1: Option<CacheInfo> = None;
    let mut s2: Option<CacheInfo> = None;
    let mut s3: Option<CacheInfo> = None;
    let mut i: usize = 0;
    let mut ended = false;
    while i < 4 && i < descs.len() && !ended
        invariant
            0 <= i <= 4,
            i <= gdescs.len(),
            gdescs == descs@,
            forall|j: int| 0 <= j < i ==> spec_cache_type_bits(gdescs[j].eax) != 0,
            seq![s0, s1, s2, s3] =~= spec_strategy1_state(gdescs, i as int),
            ended ==> i < gdescs.len() && spec_cache_type_bits(gdescs[i as int].eax) == 0,
            !ended || i < 4,
        decreases 4 - i + (if ended { 0int } else { 1int }),
    {
        let d = descs[i];
        if d.eax & 0x1F == 0 {
            ended = true;
        } else {
            let info = decode_cache_descriptor(&d);
            let slot = slot_for(info.level, info.cache_type, i);
            match slot {
                0 => s0 = Some(info),
                1 => s1 = Some(info),
                2 => s2 = Some(info),
                _ => s3 = Some(info),
            }
            proof {
                assert(seq![s0, s1, s2, s3] =~= spec_strategy1_state(gdescs, i + 1));
            }
            i += 1;
        }
    }
    proof {
        lemma_num_processed_is(gdescs, 4, i as int);
    }
    if i > 0 {
        let r = CacheTopology { caches: [s0, s1, s2, s3] };
        proof {
            assert(r.caches@ =~= seq![s0, s1, s2, s3]);
        }
        Some(r)
    } else {
        None
    }
}

/// The slots the vendor-extended strategy fills from the extended L1 and
/// L2/L3 leaves: sizes come straight from the leaves (the L3 field counts
/// 512 KB units), set counts are not reported and recorded as zero, and the
/// shared-core count is one except for L3, where it is unknown and recorded
/// as zero.  A cache is accepted only when its reported size is non-zero.
pub open spec fn spec_strategy2_slots(
    amd_l1: Option<CpuidRegs>,
    amd_l2l3: Option<CpuidRegs>,
) -> Seq<Option<CacheInfo>> {
    let s0 = match amd_l1 {
        Some(r) => if (r.edx >> 24) & 0xFF > 0 {
            Some(CacheInfo {
                level: 1,
                cache_type: CacheType::Instruction,
                size_kb: ((r.edx >> 24) & 0xFF) as u32,
                line_size: (r.edx & 0xFF) as u16,
                associativity: ((r.edx >> 16) & 0xFF) as u16,
                sets: 0,
                shared_by: 1,
            })
        } else {
            None
        },
        None => None,
    };
    let s1 = match amd_l1 {
        Some(r) => if (r.ecx >> 24) & 0xFF > 0 {
            Some(CacheInfo {
                level: 1,
                cache_type: CacheType::Data,
                size_kb: ((r.ecx >> 24) & 0xFF) as u32,
                line_size: (r.ecx & 0xFF) as u16,
                associativity: ((r.ecx >> 16) & 0xFF) as u16,
                sets: 0,
                shared_by: 1,
            })
        } else {
            None
        },
        None => None,
    };
    let s2 = match amd_l2l3 {
        Some(r) => if (r.ecx >> 16) & 0xFFFF > 0 {
            Some(CacheInfo {
                level: 2,
                cache_type: CacheType::Unified,
                size_kb: ((r.ecx >> 16) & 0xFFFF) as u32,
                line_size: (r.ecx & 0xFF) as u16,
                associativity: ((r.ecx >> 12) & 0xF) as u16,
                sets: 0,
                shared_by: 1,
            })
        } else {
            None
        },
        None => None,
    };
    let s3 = match amd_l2l3 {
        Some(r) => if (r.edx >> 18) & 0x3FFF > 0 {
            Some(CacheInfo {
                level: 3,
                cache_type: CacheType::Unified,
                size_kb: (((r.edx >> 18) & 0x3FFF) * 512) as u32,
                line_size: (r.edx & 0xFF) as u16,
                associativity: ((r.edx >> 12) & 0xF) as u16,
                sets: 0,
                shared_by: 0,
            })
        } else {
            None
        },
        None => None,
    };
    seq![s0, s1, s2, s3]
}

proof fn lemma_amd_field_bounds(ecx: u32, edx: u32)
    by (bit_vector)
    ensures
        (ecx >> 24) & 0xFF <= 0xFF,
        (ecx >> 16) & 0xFF <= 0xFF,
        ecx & 0xFF <= 0xFF,
        (edx >> 24) & 0xFF <= 0xFF,
        (edx >> 16) & 0xFF <= 0xFF,
        edx & 0xFF <= 0xFF,
        (ecx >> 16) & 0xFFFF <= 0xFFFF,
        (ecx >> 12) & 0xF <= 0xF,
        (edx >> 18) & 0x3FFF <= 0x3FFF,
        (edx >> 12) & 0xF <= 0xF,
{
}

/// Applies the vendor-extended-information strategy.
pub fn cache_topology_from_extended(
    amd_l1: &Option<CpuidRegs>,
    amd_l2l3: &Option<CpuidRegs>,
) -> (r: Option<CacheTopology>)
    ensures
        r is Some <==> spec_any_populated(spec_strategy2_slots(*amd_l1, *amd_l2l3)),
        r matches Some(t) ==> t.caches@ == spec_strategy2_slots(*amd_l1, *amd_l2l3),
{
    let mut s0: Option<CacheInfo> = None;
    let mut s1: Option<CacheInfo> = None;
    let mut s2: Option<CacheInfo> = None;
    let mut s3: Option<CacheInfo> = None;
    if let Some(r1) = amd_l1 {
        let ecx = r1.ecx;
        let edx = r1.edx;
        proof {
            lemma_amd_field_bounds(ecx, edx);
        }
        if (edx >> 24) & 0xFF > 0 {
            s0 = Some(CacheInfo {
                level: 1,
                cache_type: CacheType::Instruction,
                size_kb: (edx >> 24) & 0xFF,
                line_size: (edx & 0xFF) as u16,
                associativity: ((edx >> 16) & 0xFF) as u16,
                sets: 0,
                shared_by: 1,
            });
        }
        if (ecx >> 24) & 0xFF > 0 {
            s1 = Some(CacheInfo {
                level: 1,
                cache_type: CacheType::Data,
                size_kb: (ecx >> 24) & 0xFF,
                line_size: (ecx & 0xFF) as u16,
                associativity: ((ecx >> 16) & 0xFF) as u16,
                sets: 0,
                shared_by: 1,
            });
        }
    }
    if let Some(r2) = amd_l2l3 {
        let ecx = r2.ecx;
        let edx = r2.edx;
        proof {
            lemma_amd_field_bounds(ecx, edx);
        }
        if (ecx >> 16) & 0xFFFF > 0 {
            s2 = Some(CacheInfo {
                level: 2,
                cache_type: CacheType::Unified,
                size_kb: (ecx >> 16) & 0xFFFF,
                line_size: (ecx & 0xFF) as u16,
                associativity: ((ecx >> 12) & 0xF) as u16,
                sets: 0,
                shared_by: 1,
            });
        }
        if (edx >> 18) & 0x3FFF > 0 {
            s3 = Some(CacheInfo {
                level: 3,
                cache_type: CacheType::Unified,
                size_kb: ((edx >> 18) & 0x3FFF) * 512,
                line_size: (edx & 0xFF) as u16,
                associativity: ((edx >> 12) & 0xF) as u16,
                sets: 0,
                shared_by: 0,
            });
        }
    }
    proof {
        assert(seq![s0, s1, s2, s3] =~= spec_strategy2_slots(*amd_l1, *amd_l2l3));
    }
    let any = s0.is_some() || s1.is_some() || s2.is_some() || s3.is_some();
    if any {
        let r = CacheTopology { caches: [s0, s1, s2, s3] };
        proof {
            assert(r.caches@ =~= seq![s0, s1, s2, s3]);
        }
        Some(r)
    } else {
        None
    }
}

/// The hard-coded last-resort defaults, keyed by the vendor identification
/// bytes: common L1 sizes for the two major vendors, nothing for anyone
/// else.  These are documented approximations, not measurements.
pub open spec fn spec_default_slots(vendor: Seq<u8>) -> Seq<Option<CacheInfo>> {
    if vendor == spec_intel_id() {
        seq![
            Some(CacheInfo {
                level: 1,
                cache_type: CacheType::Instruction,
                size_kb: 32,
                line_size: 64,
                associativity: 8,
                sets: 0,
                shared_by: 1,
            }),
            Some(CacheInfo {
                level: 1,
                cache_type: CacheType::Data,
                size_kb: 32,
                line_size: 64,
                associativity: 8,
                sets: 0,
                shared_by: 1,
            }),
            None,
            None,
        ]
    } else if vendor == spec_amd_id() {
        seq![
            Some(CacheInfo {
                level: 1,
                cache_type: CacheType::Instruction,
                size_kb: 64,
                line_size: 64,
                associativity: 8,
                sets: 0,
                shared_by: 1,
            }),
            Some(CacheInfo {
                level: 1,
                cache_type: CacheType::Data,
                size_kb: 32,
                line_size: 64,
                associativity: 8,
                sets: 0,
                shared_by: 1,
            }),
            None,
            None,
        ]
    } else {
        spec_empty_slots()
    }
}

/// Builds the default topology for a vendor identification.
pub fn default_cache_topology(vendor: &Vec<u8>) -> (r: CacheTopology)
    ensures
        r.caches@ == spec_default_slots(vendor@),
{
    let intel = is_intel_vendor(vendor);
    let amd = is_amd_vendor(vendor);
    if intel || amd {
        let l1i = CacheInfo {
            level: 1,
            cache_type: CacheType::Instruction,
            size_kb: if intel { 32 } else { 64 },
            line_size: 64,
            associativity: 8,
            sets: 0,
            shared_by: 1,
        };
        let l1d = CacheInfo {
            level: 1,
            cache_type: CacheType::Data,
            size_kb: 32,
            line_size: 64,
            associativity: 8,
            sets: 0,
            shared_by: 1,
        };
        let r = CacheTopology { caches: [Some(l1i), Some(l1d), None, None] };
        proof {
            assert(r.caches@ =~= spec_default_slots(vendor@));
        }
        r
    } else {
        let r = CacheTopology { caches: [None, None, None, None] };
        proof {
            assert(r.caches@ =~= spec_default_slots(vendor@));
        }
        r
    }
}

/// The cache topology a snapshot resolves to.
///
/// The three strategies are tried in fixed order with a stop at the first
/// that yields anything: deterministic enumeration, then vendor-extended
/// leaves, then the legacy tier.  The legacy descriptor table is never
/// decoded, so its parse always yields nothing, and the legacy tier comes
/// down to the hard-coded defaults keyed by the vendor identification —
/// documented approximations, empty for vendors without defaults.
pub open spec fn spec_resolve_cache(snap: CpuidSnapshot) -> Seq<Option<CacheInfo>> {
    match spec_strategy1(snap.cache_params@) {
        Some(slots) => slots,
        None => {
            let s2 = spec_strategy2_slots(snap.amd_l1, snap.amd_l2l3);
            if spec_any_populated(s2) {
                s2
            } else {
                spec_default_slots(
                    spec_vendor_bytes(snap.vendor_ebx, snap.vendor_edx, snap.vendor_ecx),
                )
            }
        },
    }
}

/// Resolves the cache topology of a snapshot, trying the three strategies
/// in priority order and stopping at the first that yields a populated
/// slot.
pub fn resolve_cache_topology(snap: &CpuidSnapshot) -> (r: CacheTopology)
    ensures
        r.caches@ == spec_resolve_cache(*snap),
{
    if let Some(t) = cache_topology_from_descriptors(&snap.cache_params) {
        return t;
    }
    if let Some(t) = cache_topology_from_extended(&snap.amd_l1, &snap.amd_l2l3) {
        return t;
    }
    let vb = vendor_bytes(snap.vendor_ebx, snap.vendor_edx, snap.vendor_ecx);
    default_cache_topology(&vb)
}

/// The fixed strategy order, as a law: whichever strategy is the first to
/// yield determines the whole result, with no merging across strategies,
/// and the last-resort defaults apply exactly when both reading strategies
/// yield nothing.
pub proof fn lemma_cache_strategy_priority(snap: CpuidSnapshot)
    ensures
        spec_strategy1(snap.cache_params@) matches Some(slots) ==> spec_resolve_cache(snap)
            == slots,
        spec_strategy1(snap.cache_params@) is None && spec_any_populated(
            spec_strategy2_slots(snap.amd_l1, snap.amd_l2l3),
        ) ==> spec_resolve_cache(snap) == spec_strategy2_slots(snap.amd_l1, snap.amd_l2l3),
        spec_strategy1(snap.cache_params@) is None && !spec_any_populated(
            spec_strategy2_slots(snap.amd_l1, snap.amd_l2l3),
        ) ==> spec_resolve_cache(snap) == spec_default_slots(
            spec_vendor_bytes(snap.vendor_ebx, snap.vendor_edx, snap.vendor_ecx),
        ),
{
}

impl CpuidWrapper {
    /// Reads the host's cache topology, trying the three discovery
    /// strategies in priority order.
    pub fn get_cache_topology(&self) -> (r: Result<CacheTopology, CpuidError>)
        ensures
            r is Ok,
    {
        let snap = read_snapshot();
        Ok(resolve_cache_topology(&snap))
    }
}

} // verus!
