//! Trace and span identifiers, and the form in which they are recorded.

use vstd::prelude::*;

verus! {

/// Two to the power of 64: the weight of the high half of a trace identifier.
pub open spec fn two_pow_64() -> int {
    0x1_0000_0000_0000_0000
}

/// The most significant 64 bits of a 128-bit identifier.
pub open spec fn high_half(id: u128) -> u64 {
    (id as int / two_pow_64()) as u64
}

/// The least significant 64 bits of a 128-bit identifier.
pub open spec fn low_half(id: u128) -> u64 {
    (id as int % two_pow_64()) as u64
}

/// The signed 64-bit integer with the same bit pattern as `bits`: `bits`
/// itself up to `i64::MAX`, and `bits` minus two to the power of 64 above it.
pub open spec fn signed_bits(bits: u64) -> i64 {
    if bits <= i64::MAX {
        bits as i64
    } else {
        (bits as int - two_pow_64()) as i64
    }
}

/// The unsigned 64-bit integer with the same bit pattern as `value`.
pub open spec fn unsigned_bits(value: i64) -> u64 {
    if value >= 0 {
        value as u64
    } else {
        (value as int + two_pow_64()) as u64
    }
}

/// Identifier shared by all the spans of one trace: any 128-bit value but
/// zero, which is reserved.
#[derive(Clone, Copy, Debug, PartialEq, Eq)]
pub struct TraceId {
    value: u128,
}

impl View for TraceId {
    type V = u128;

    closed spec fn view(&self) -> u128 {
        self.value
    }
}

impl TraceId {
    #[verifier::type_invariant]
    spec fn nonzero(self) -> bool {
        self.value != 0
    }

    /// Validates an identifier: every value is accepted but zero.
    pub fn new(value: u128) -> (id: Option<TraceId>)
        ensures
            id is None <==> value == 0,
            id matches Some(valid) ==> valid@ == value,
    {
        if value == 0 {
            None
        } else {
            Some(TraceId { value })
        }
    }

    /// The identifier as a number, which is never zero.
    pub fn get(&self) -> (value: u128)
        ensures
            value == self@,
            value != 0,
    {
        proof {
            use_type_invariant(self);
        }
        self.value
    }
}

/// Splits a 128-bit identifier into its high and low 64 bits, in that order.
pub fn split_halves(id: u128) -> (halves: (u64, u64))
    ensures
        halves.0 == high_half(id),
        halves.1 == low_half(id),
{
    let high: u64 = (id >> 64) as u64;
    let low: u64 = (id & 0xffff_ffff_ffff_ffff) as u64;
    assert(high == (id as int / 0x1_0000_0000_0000_0000) as u64) by (bit_vector)
        requires
            high == (id >> 64) as u64,
    ;
    assert(low == (id as int % 0x1_0000_0000_0000_0000) as u64) by (bit_vector)
        requires
            low == (id & 0xffff_ffff_ffff_ffff) as u64,
    ;
    (high, low)
}

/// Reads 64 bits as a signed integer, keeping every bit.
pub fn to_signed(bits: u64) -> (value: i64)
    ensures
        value == signed_bits(bits),
{
    let value: i64 = #[verifier::truncate] (bits as i64);
    assert(value == if bits <= 0x7fff_ffff_ffff_ffff {
        bits as int
    } else {
        bits as int - 0x1_0000_0000_0000_0000
    }) by (bit_vector)
        requires
            value == bits as i64,
    ;
    value
}

/// Reading 64 bits as a signed integer loses nothing: the bits are
/// recovered from the signed value.
pub proof fn lemma_signed_bits_round_trip(bits: u64)
    ensures
        unsigned_bits(signed_bits(bits)) == bits,
{
}

/// The two halves of an identifier determine it: the high half times two to
/// the power of 64, plus the low half, is the identifier.
pub proof fn lemma_halves_recombine(id: u128)
    ensures
        high_half(id) as int * two_pow_64() + low_half(id) as int == id as int,
{
}

} // verus!
