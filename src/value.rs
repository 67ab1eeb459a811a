use vstd::arithmetic::power2::{lemma2_to64, lemma2_to64_rest, pow2};
use vstd::bits::{lemma_u64_shl_is_mul, lemma_u64_shr_is_div, low_bits_mask};
use vstd::prelude::*;

use crate::tag::{
    has_ref_count, kind_of, spec_has_ref_count, Kind, TAG_BOOL, TAG_EXCEPTION, TAG_FLOAT64,
    TAG_INT, TAG_NULL, TAG_UNDEFINED,
};

verus! {

/// One engine value as the host sees it: a tag and the 64 payload bits (an
/// inline integer or boolean in the low 32 bits, the bits of a double, or the
/// address of a counted heap block).
#[derive(Clone, Copy, Debug, PartialEq, Eq, Structural)]
pub struct RawValue {
    pub tag: i32,
    pub bits: u64,
}

/// A numeric payload: an inline integer, or the IEEE-754 bits of a double.
#[derive(Clone, Copy, Debug, PartialEq, Eq, Structural)]
pub enum Number {
    Int(i32),
    Float(u64),
}

/// The inline integer of a payload: its low 32 bits, read as signed.
pub open spec fn int_payload(bits: u64) -> i32 {
    (bits as u32) as i32
}

/// Payload bits that hold an inline integer.
pub open spec fn int_bits(v: i32) -> u64 {
    (v as u32) as u64
}

/// Two values are the same when they belong to the same context, carry the
/// same tag and, for counted tags, point at the same heap block. Objects are
/// never compared by content.
pub open spec fn spec_same_value(ctx_a: u64, a: RawValue, ctx_b: u64, b: RawValue) -> bool {
    &&& ctx_a == ctx_b
    &&& a.tag == b.tag
    &&& spec_has_ref_count(a.tag) ==> a.bits == b.bits
}

pub open spec fn spec_as_integer(v: RawValue) -> Option<i64> {
    if v.tag == TAG_INT {
        Some(int_payload(v.bits) as i64)
    } else {
        None
    }
}

pub open spec fn spec_as_number(v: RawValue) -> Option<Number> {
    if v.tag == TAG_INT {
        Some(Number::Int(int_payload(v.bits)))
    } else if v.tag == TAG_FLOAT64 {
        Some(Number::Float(v.bits))
    } else {
        None
    }
}

pub open spec fn spec_as_boolean(v: RawValue) -> Option<bool> {
    if v.tag == TAG_BOOL && int_payload(v.bits) == 0 {
        Some(false)
    } else if v.tag == TAG_BOOL && int_payload(v.bits) == 1 {
        Some(true)
    } else {
        None
    }
}

/// The biased exponent field of a double's bits.
pub open spec fn double_exponent(bits: u64) -> nat {
    (bits as nat / pow2(52)) % 2048
}

/// The fraction field of a double's bits.
pub open spec fn double_fraction(bits: u64) -> nat {
    bits as nat % pow2(52)
}

/// The whole number that a double holds, when it holds one that is not
/// negative and below `2^53` (where every whole number is exact). Both zeros
/// count as `0`.
pub open spec fn spec_whole_double(bits: u64) -> Option<nat> {
    let e = double_exponent(bits);
    let f = double_fraction(bits);
    if e == 0 && f == 0 {
        Some(0)
    } else if bits < pow2(63) && 1023 <= e <= 1075 && (pow2(52) + f) % pow2(
        (1075 - e) as nat,
    ) == 0 {
        Some((pow2(52) + f) / pow2((1075 - e) as nat))
    } else {
        None
    }
}

/// Reads the whole number held by a double given by its bits.
pub fn whole_double(bits: u64) -> (r: Option<u64>)
    ensures
        r matches Some(n) ==> spec_whole_double(bits) == Some(n as nat),
        r is None ==> spec_whole_double(bits) is None,
{
    proof {
        lemma2_to64();
        lemma2_to64_rest();
        lemma_u64_shr_is_div(bits, 52);
    }
    let e: u64 = (bits >> 52u64) & 0x7ff;
    let f: u64 = bits & 0xf_ffff_ffff_ffff;
    assert(((bits >> 52u64) & 0x7ff) == (bits >> 52u64) % 2048) by (bit_vector);
    assert((bits & 0xf_ffff_ffff_ffff) == bits % 0x10_0000_0000_0000) by (bit_vector);
    assert(e == double_exponent(bits));
    assert(f == double_fraction(bits));
    if e == 0 && f == 0 {
        return Some(0);
    }
    if bits >= 0x8000_0000_0000_0000 || e < 1023 || e > 1075 {
        return None;
    }
    assert(f < 0x10_0000_0000_0000);
    let m: u64 = f | 0x10_0000_0000_0000;
    assert(f < 0x10_0000_0000_0000 ==> (f | 0x10_0000_0000_0000) == f + 0x10_0000_0000_0000)
        by (bit_vector);
    let s: u64 = 1075 - e;
    proof {
        lemma_u64_shl_is_mul(1, s);
        lemma_u64_shr_is_div(m, s);
        vstd::arithmetic::power2::lemma_pow2_strictly_increases(s as nat, 53);
    }
    let p: u64 = 1u64 << s;
    proof {
        vstd::bits::lemma_u64_low_bits_mask_is_mod(m, s as nat);
        assert(low_bits_mask(s as nat) == pow2(s as nat) - 1);
    }
    if m & (p - 1) == 0 {
        Some(m >> s)
    } else {
        None
    }
}

proof fn lemma_int_bits_round_trip(v: i32)
    ensures
        int_payload(int_bits(v)) == v,
{
    assert(((v as u32) as u64) as u32 == v as u32) by (bit_vector);
    assert(((v as u32) as i32) == v) by (bit_vector);
}

impl RawValue {
    pub fn undefined() -> (r: RawValue)
        ensures
            r.tag == TAG_UNDEFINED,
            r.bits == 0,
    {
        RawValue { tag: TAG_UNDEFINED, bits: 0 }
    }

    pub fn null() -> (r: RawValue)
        ensures
            r.tag == TAG_NULL,
            r.bits == 0,
    {
        RawValue { tag: TAG_NULL, bits: 0 }
    }

    /// The bare failure sentinel.
    pub fn exception() -> (r: RawValue)
        ensures
            r.tag == TAG_EXCEPTION,
            r.bits == 0,
    {
        RawValue { tag: TAG_EXCEPTION, bits: 0 }
    }

    /// An inline integer.
    pub fn int32(v: i32) -> (r: RawValue)
        ensures
            r.tag == TAG_INT,
            r.bits == int_bits(v),
            int_payload(r.bits) == v,
    {
        proof {
            lemma_int_bits_round_trip(v);
        }
        RawValue { tag: TAG_INT, bits: v as u32 as u64 }
    }

    /// A 64-bit integer as an inline value: only those in the 32-bit range are
    /// stored inline; the engine keeps the others as doubles, and `None` says
    /// so.
    pub fn integer(v: i64) -> (r: Option<RawValue>)
        ensures
            r is Some <==> i32::MIN <= v <= i32::MAX,
            r matches Some(x) ==> x.tag == TAG_INT && x.bits == int_bits(v as i32),
    {
        if i32::MIN as i64 <= v && v <= i32::MAX as i64 {
            Some(RawValue::int32(v as i32))
        } else {
            None
        }
    }

    /// A boolean: the payload is `1` for true and `0` for false.
    pub fn boolean(b: bool) -> (r: RawValue)
        ensures
            r.tag == TAG_BOOL,
            r.bits == (if b { 1u64 } else { 0u64 }),
    {
        RawValue { tag: TAG_BOOL, bits: if b { 1 } else { 0 } }
    }

    /// A double given by its IEEE-754 bits; every bit pattern is kept,
    /// NaNs and infinities included.
    pub fn float_bits(bits: u64) -> (r: RawValue)
        ensures
            r.tag == TAG_FLOAT64,
            r.bits == bits,
    {
        RawValue { tag: TAG_FLOAT64, bits }
    }

    pub fn kind(&self) -> (k: Kind)
        ensures
            k == kind_of(self.tag),
    {
        Kind::of_tag(self.tag)
    }

    /// Whether this value holds a share of a counted heap block.
    pub fn is_counted(&self) -> (r: bool)
        ensures
            r == spec_has_ref_count(self.tag),
    {
        has_ref_count(self.tag)
    }

    pub fn is_exception(&self) -> (r: bool)
        ensures
            r == (self.tag == TAG_EXCEPTION),
    {
        self.tag == TAG_EXCEPTION
    }

    pub fn is_string(&self) -> (r: bool)
        ensures
            r == (self.tag == crate::tag::TAG_STRING),
    {
        self.tag == crate::tag::TAG_STRING
    }

    pub fn is_integer(&self) -> (r: bool)
        ensures
            r == (self.tag == TAG_INT),
    {
        self.tag == TAG_INT
    }

    pub fn is_boolean(&self) -> (r: bool)
        ensures
            r == (self.tag == TAG_BOOL),
    {
        self.tag == TAG_BOOL
    }

    /// An integer or a double.
    pub fn is_number(&self) -> (r: bool)
        ensures
            r == (self.tag == TAG_INT || self.tag == TAG_FLOAT64),
    {
        self.tag == TAG_INT || self.tag == TAG_FLOAT64
    }

    pub fn is_undefined(&self) -> (r: bool)
        ensures
            r == (self.tag == TAG_UNDEFINED),
    {
        self.tag == TAG_UNDEFINED
    }

    pub fn is_null(&self) -> (r: bool)
        ensures
            r == (self.tag == TAG_NULL),
    {
        self.tag == TAG_NULL
    }

    /// The integer of an integer-tagged value; `None` for any other tag.
    pub fn as_integer(&self) -> (r: Option<i64>)
        ensures
            r == spec_as_integer(*self),
    {
        if self.tag == TAG_INT {
            Some(self.bits as u32 as i32 as i64)
        } else {
            None
        }
    }

    /// The number of an integer- or double-tagged value; `None` otherwise.
    pub fn as_number(&self) -> (r: Option<Number>)
        ensures
            r == spec_as_number(*self),
    {
        if self.tag == TAG_INT {
            Some(Number::Int(self.bits as u32 as i32))
        } else if self.tag == TAG_FLOAT64 {
            Some(Number::Float(self.bits))
        } else {
            None
        }
    }

    /// The truth value of a boolean-tagged value. Any other tag, or a payload
    /// that is neither `0` nor `1`, gives `None`.
    pub fn as_boolean(&self) -> (r: Option<bool>)
        ensures
            r == spec_as_boolean(*self),
    {
        if self.tag != TAG_BOOL {
            None
        } else {
            let p = self.bits as u32 as i32;
            if p == 0 {
                Some(false)
            } else if p == 1 {
                Some(true)
            } else {
                None
            }
        }
    }
}

/// Identity-based equality of two values of the given contexts.
pub fn same_value(ctx_a: u64, a: &RawValue, ctx_b: u64, b: &RawValue) -> (r: bool)
    ensures
        r == spec_same_value(ctx_a, *a, ctx_b, *b),
{
    ctx_a == ctx_b && a.tag == b.tag && (!has_ref_count(a.tag) || a.bits == b.bits)
}

/// An integer in the inline range, stored and read back, is the same integer.
pub proof fn lemma_integer_round_trip(v: i64)
    requires
        i32::MIN <= v <= i32::MAX,
    ensures
        spec_as_integer(RawValue { tag: TAG_INT, bits: int_bits(v as i32) }) == Some(v),
        spec_as_number(RawValue { tag: TAG_INT, bits: int_bits(v as i32) }) == Some(
            Number::Int(v as i32),
        ),
{
    lemma_int_bits_round_trip(v as i32);
}

/// A boolean stored and read back is the same boolean.
pub proof fn lemma_boolean_round_trip(b: bool)
    ensures
        spec_as_boolean(RawValue { tag: TAG_BOOL, bits: if b { 1u64 } else { 0u64 } }) == Some(b),
{
    assert(int_payload(1u64) == 1i32) by (bit_vector);
    assert(int_payload(0u64) == 0i32) by (bit_vector);
}

/// A double stored and read back keeps every bit, so NaNs stay NaNs and the
/// infinities stay as they were.
pub proof fn lemma_float_round_trip(bits: u64)
    ensures
        spec_as_number(RawValue { tag: TAG_FLOAT64, bits }) == Some(Number::Float(bits)),
{
}

/// Values of two different contexts are never the same value, whatever they
/// hold.
pub proof fn lemma_distinct_contexts_differ(ctx_a: u64, a: RawValue, ctx_b: u64, b: RawValue)
    requires
        ctx_a != ctx_b,
    ensures
        !spec_same_value(ctx_a, a, ctx_b, b),
{
}

/// A value that the engine hands back with the context, tag and payload it was
/// given is the same value as the one given.
pub proof fn lemma_handed_back_is_same(ctx: u64, given: RawValue, got: RawValue)
    requires
        got == given,
    ensures
        spec_same_value(ctx, given, ctx, got),
        spec_same_value(ctx, got, ctx, given),
{
}

} // verus!
