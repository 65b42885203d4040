//! JSON rendering of a snapshot.
//!
//! The document is built byte by byte against an exact specification of its
//! shape: an object with the vendor and model strings, the core counts, the
//! four nullable cache sizes in KB, the three nullable frequency fields in
//! MHz, and the capability set as its architecture tag and raw bit word —
//! a stable, lossless encoding of the snapshot's public fields.

use vstd::prelude::*;

use crate::cpu::info::{CpuInfo, FeatureSet};
use vstd::string::StrSliceExecFns;
use vstd::string::StringSliceAdditionalSpecFns;
use vstd::utf8::encode_utf8;

verus! {

/// The lower-case hexadecimal digit for a value below sixteen.
pub open spec fn spec_hex_digit(n: int) -> u8 {
    if n < 10 {
        (48 + n) as u8
    } else {
        (87 + n) as u8
    }
}

/// How one byte appears inside a JSON string: quote and backslash get a
/// backslash escape, control bytes a four-digit hexadecimal escape, and
/// everything else stands unchanged.
pub open spec fn spec_escape_byte(b: u8) -> Seq<u8> {
    if b == 34 {
        seq![92u8, 34u8]
    } else if b == 92 {
        seq![92u8, 92u8]
    } else if b < 32 {
        seq![92u8, 117u8, 48u8, 48u8, spec_hex_digit((b >> 4) as int), spec_hex_digit((b & 0xF) as int)]
    } else {
        seq![b]
    }
}

/// A byte sequence escaped for a JSON string.
pub open spec fn spec_escape(s: Seq<u8>) -> Seq<u8>
    decreases s.len(),
{
    if s.len() == 0 {
        Seq::empty()
    } else {
        spec_escape_byte(s[0]) + spec_escape(s.drop_first())
    }
}

proof fn lemma_escape_snoc(t: Seq<u8>, x: u8)
    ensures
        spec_escape(t.push(x)) == spec_escape(t) + spec_escape_byte(x),
    decreases t.len(),
{
    let p = t.push(x);
    assert(p.len() == t.len() + 1);
    assert(p[0] == (if t.len() == 0 {
        x
    } else {
        t[0]
    }));
    assert(spec_escape(p) == spec_escape_byte(p[0]) + spec_escape(p.drop_first()));
    if t.len() == 0 {
        assert(p.drop_first() =~= Seq::<u8>::empty());
        assert(spec_escape(p.drop_first()) == Seq::<u8>::empty());
        assert(spec_escape(t) == Seq::<u8>::empty());
        assert(spec_escape(p) =~= spec_escape(t) + spec_escape_byte(x));
    } else {
        assert(p.drop_first() =~= t.drop_first().push(x));
        lemma_escape_snoc(t.drop_first(), x);
        assert(spec_escape(p.drop_first()) == spec_escape(t.drop_first()) + spec_escape_byte(x));
        assert(spec_escape(t) == spec_escape_byte(t[0]) + spec_escape(t.drop_first()));
        assert(spec_escape(p) =~= spec_escape(t) + spec_escape_byte(x));
    }
}

/// A quoted, escaped JSON string for the given content bytes.
pub open spec fn spec_json_string(b: Seq<u8>) -> Seq<u8> {
    seq![34u8] + spec_escape(b) + seq![34u8]
}

/// The decimal digits of a non-negative number.
pub open spec fn spec_dec_digits(n: int) -> Seq<u8>
    decreases n,
{
    if n < 10 {
        seq![(48 + n) as u8]
    } else {
        spec_dec_digits(n / 10) + seq![(48 + n % 10) as u8]
    }
}

/// A nullable number: its decimal digits, or the literal `null`.
pub open spec fn spec_opt_number(v: Option<u32>) -> Seq<u8> {
    match v {
        Some(n) => spec_dec_digits(n as int),
        None => ("null").spec_bytes(),
    }
}

/// The raw capability word of a feature set.
pub open spec fn spec_feature_bits_of(f: FeatureSet) -> u64 {
    match f {
        FeatureSet::X86(x) => x.bits,
        FeatureSet::Arm(a) => a.bits,
    }
}

/// Appends the bytes of a string slice.
fn push_str_bytes(out: &mut Vec<u8>, s: &str)
    ensures
        final(out)@ == old(out)@ + s.spec_bytes(),
{
    let mut b = s.as_bytes_vec();
    out.append(&mut b);
}

/// Appends one byte, escaped for a JSON string.
fn push_escaped_byte(out: &mut Vec<u8>, b: u8)
    ensures
        final(out)@ == old(out)@ + spec_escape_byte(b),
{
    let ghost before = out@;
    if b == 34 {
        out.push(92);
        out.push(34);
    } else if b == 92 {
        out.push(92);
        out.push(92);
    } else if b < 32 {
        out.push(92);
        out.push(117);
        out.push(48);
        out.push(48);
        let hi = b >> 4;
        let lo = b & 0xF;
        proof {
            assert(b >> 4 < 10 && b & 0xF < 16) by (bit_vector)
                requires
                    b < 32,
            ;
        }
        out.push(if hi < 10 {
            48 + hi
        } else {
            87 + hi
        });
        out.push(if lo < 10 {
            48 + lo
        } else {
            87 + lo
        });
    } else {
        out.push(b);
    }
    proof {
        assert(out@ =~= before + spec_escape_byte(b));
    }
}

/// Appends a quoted, escaped JSON string with the given content bytes.
fn push_json_string(out: &mut Vec<u8>, s: &str)
    ensures
        final(out)@ == old(out)@ + spec_json_string(s.spec_bytes()),
{
    let ghost before = out@;
    let content = s.as_bytes_vec();
    out.push(34);
    let mut i: usize = 0;
    while i < content.len()
        invariant
            0 <= i <= content@.len(),
            content@ == s.spec_bytes(),
            out@ == before + seq![34u8] + spec_escape(content@.take(i as int)),
        decreases content@.len() - i,
    {
        proof {
            lemma_escape_snoc(content@.take(i as int), content@[i as int]);
            assert(content@.take(i as int).push(content@[i as int]) =~= content@.take(i + 1));
        }
        push_escaped_byte(out, content[i]);
        i += 1;
    }
    out.push(34);
    proof {
        assert(content@.take(content@.len() as int) =~= content@);
        assert(out@ =~= before + spec_json_string(s.spec_bytes()));
    }
}

/// Appends the decimal digits of a number.
fn push_decimal(out: &mut Vec<u8>, n: u64)
    ensures
        final(out)@ == old(out)@ + spec_dec_digits(n as int),
    decreases n,
{
    let ghost before = out@;
    if n < 10 {
        out.push((48 + n) as u8);
        proof {
            assert(out@ =~= before + spec_dec_digits(n as int));
        }
    } else {
        push_decimal(out, n / 10);
        out.push((48 + n % 10) as u8);
        proof {
            assert(out@ =~= before + spec_dec_digits(n as int));
        }
    }
}

/// Appends a nullable number.
fn push_opt_number(out: &mut Vec<u8>, v: &Option<u32>)
    ensures
        final(out)@ == old(out)@ + spec_opt_number(*v),
{
    match v {
        Some(n) => push_decimal(out, *n as u64),
        None => push_str_bytes(out, "null"),
    }
}

/// The JSON document of a snapshot, as bytes.
pub open spec fn spec_json(info: CpuInfo) -> Seq<u8> {
    let j = ("{\"vendor\":").spec_bytes();
    let j = j + spec_json_string(encode_utf8(info.vendor.spec_name()));
    let j = j + (",\"model\":").spec_bytes();
    let j = j + spec_json_string(encode_utf8(info.brand_string@));
    let j = j + (",\"cores\":{\"physical\":").spec_bytes();
    let j = j + spec_dec_digits(info.physical_cores as int);
    let j = j + (",\"logical\":").spec_bytes();
    let j = j + spec_dec_digits(info.logical_cores as int);
    let j = j + ("},\"cache\":{\"l1i\":").spec_bytes();
    let j = j + spec_opt_number(info.cache_sizes@[0]);
    let j = j + (",\"l1d\":").spec_bytes();
    let j = j + spec_opt_number(info.cache_sizes@[1]);
    let j = j + (",\"l2\":").spec_bytes();
    let j = j + spec_opt_number(info.cache_sizes@[2]);
    let j = j + (",\"l3\":").spec_bytes();
    let j = j + spec_opt_number(info.cache_sizes@[3]);
    let j = j + ("},\"frequency\":{\"base\":").spec_bytes();
    let j = j + spec_opt_number(info.frequency.base);
    let j = j + (",\"current\":").spec_bytes();
    let j = j + spec_opt_number(info.frequency.current);
    let j = j + (",\"max\":").spec_bytes();
    let j = j + spec_opt_number(info.frequency.max);
    let j = j + ("},\"features\":{\"arch\":").spec_bytes();
    let j = j + (match info.features {
        FeatureSet::X86(_) => ("\"x86\"").spec_bytes(),
        FeatureSet::Arm(_) => ("\"arm\"").spec_bytes(),
    });
    let j = j + (",\"bits\":").spec_bytes();
    let j = j + spec_dec_digits(spec_feature_bits_of(info.features) as int);
    j + ("}}").spec_bytes()
}

/// Renders a snapshot as its JSON document.
pub fn json_bytes(info: &CpuInfo) -> (r: Vec<u8>)
    ensures
        r@ == spec_json(*info),
{
    let mut out: Vec<u8> = Vec::new();
    push_str_bytes(&mut out, "{\"vendor\":");
    proof {
        assert(out@ =~= ("{\"vendor\":").spec_bytes());
    }
    let vendor_name = info.vendor.name();
    push_json_string(&mut out, vendor_name.as_str());
    push_str_bytes(&mut out, ",\"model\":");
    push_json_string(&mut out, info.brand_string.as_str());
    push_str_bytes(&mut out, ",\"cores\":{\"physical\":");
    push_decimal(&mut out, info.physical_cores as u64);
    push_str_bytes(&mut out, ",\"logical\":");
    push_decimal(&mut out, info.logical_cores as u64);
    push_str_bytes(&mut out, "},\"cache\":{\"l1i\":");
    push_opt_number(&mut out, &info.cache_sizes[0]);
    push_str_bytes(&mut out, ",\"l1d\":");
    push_opt_number(&mut out, &info.cache_sizes[1]);
    push_str_bytes(&mut out, ",\"l2\":");
    push_opt_number(&mut out, &info.cache_sizes[2]);
    push_str_bytes(&mut out, ",\"l3\":");
    push_opt_number(&mut out, &info.cache_sizes[3]);
    push_str_bytes(&mut out, "},\"frequency\":{\"base\":");
    push_opt_number(&mut out, &info.frequency.base);
    push_str_bytes(&mut out, ",\"current\":");
    push_opt_number(&mut out, &info.frequency.current);
    push_str_bytes(&mut out, ",\"max\":");
    push_opt_number(&mut out, &info.frequency.max);
    push_str_bytes(&mut out, "},\"features\":{\"arch\":");
    match &info.features {
        FeatureSet::X86(_) => push_str_bytes(&mut out, "\"x86\""),
        FeatureSet::Arm(_) => push_str_bytes(&mut out, "\"arm\""),
    }
    push_str_bytes(&mut out, ",\"bits\":");
    let bits: u64 = match &info.features {
        FeatureSet::X86(x) => x.bits,
        FeatureSet::Arm(a) => a.bits,
    };
    push_decimal(&mut out, bits);
    push_str_bytes(&mut out, "}}");
    out
}

} // verus!
