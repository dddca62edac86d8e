//! Correlation identifiers: one 128-bit value per logical request, carried on
//! the wire as two 64-bit halves.

use vstd::prelude::*;

verus! {

/// Two to the power 64: the weight of the upper half of an identifier.
pub const HALF: u128 = 0x1_0000_0000_0000_0000;

/// The bits that hold the version and the variant of a UUID.
pub const VERSION_VARIANT_MASK: u128 = 0x0000_0000_0000_f000_c000_0000_0000_0000;

/// Version 4 (random) with the RFC 4122 variant, in the place of the mask.
pub const RANDOM_RFC4122: u128 = 0x0000_0000_0000_4000_8000_0000_0000_0000;

/// The upper 64 bits of a 128-bit value.
pub open spec fn upper_half(value: u128) -> u64 {
    (value / HALF) as u64
}

/// The lower 64 bits of a 128-bit value.
pub open spec fn lower_half(value: u128) -> u64 {
    (value % HALF) as u64
}

/// The 128-bit value whose upper half is `hi` and whose lower half is `lo`.
pub open spec fn joined(hi: u64, lo: u64) -> u128 {
    (hi * HALF + lo) as u128
}

/// Whether a 128-bit value has the shape of a random (version 4) UUID.
pub open spec fn is_random_uuid(value: u128) -> bool {
    value & VERSION_VARIANT_MASK == RANDOM_RFC4122
}

/// The identifier shared by every per-node call of one logical request.
#[derive(Clone, Copy, Debug, PartialEq, Eq, Structural)]
pub struct CorrelationId {
    value: u128,
}

/// A correlation identifier as the wire carries it.
#[derive(Clone, Copy, Debug, PartialEq, Eq, Structural)]
pub struct UuidPb {
    pub hi: u64,
    pub lo: u64,
}

impl View for CorrelationId {
    type V = u128;

    closed spec fn view(&self) -> u128 {
        self.value
    }
}

impl CorrelationId {
    /// The identifier with the given 128-bit value.
    pub fn from_u128(value: u128) -> (id: CorrelationId)
        ensures
            id@ == value,
    {
        CorrelationId { value }
    }

    /// The 128-bit value of the identifier.
    pub fn as_u128(&self) -> (value: u128)
        ensures
            value == self@,
    {
        self.value
    }

    /// The identifier cut at the 64-bit boundary: upper half first.
    pub fn split(&self) -> (halves: (u64, u64))
        ensures
            halves.0 == upper_half(self@),
            halves.1 == lower_half(self@),
    {
        let value = self.value;
        assert(value >> 64 == value / 0x1_0000_0000_0000_0000) by (bit_vector);
        assert(value & 0xffff_ffff_ffff_ffff == value % 0x1_0000_0000_0000_0000) by (bit_vector);
        let hi = (value >> 64) as u64;
        let lo = (value & 0xffff_ffff_ffff_ffff) as u64;
        (hi, lo)
    }

    /// The identifier put together again from its two halves.
    pub fn from_halves(hi: u64, lo: u64) -> (id: CorrelationId)
        ensures
            id@ == joined(hi, lo),
    {
        let wide_hi = hi as u128;
        let wide_lo = lo as u128;
        assert((wide_hi << 64) | wide_lo == wide_hi * 0x1_0000_0000_0000_0000 + wide_lo) by (bit_vector)
            requires
                wide_hi <= 0xffff_ffff_ffff_ffff,
                wide_lo <= 0xffff_ffff_ffff_ffff,
        ;
        CorrelationId { value: (wide_hi << 64) | wide_lo }
    }
}

/// Draws a random UUID with `uuid::Uuid::new_v4` and hands out its value as
/// `uuid::Uuid::as_u128` gives it. The call is trusted, not proved. What is
/// claimed of it is what `new_v4` does to every draw of the random source: it
/// sets the version to 4 and the variant to RFC 4122; the other 122 bits are
/// as drawn, and nothing is claimed of them. `new_v4` panics where the
/// operating system yields no random bytes.
#[verifier::external_body]
fn random_uuid_value() -> (value: u128)
    ensures
        is_random_uuid(value),
{
    uuid::Uuid::new_v4().as_u128()
}

/// A fresh identifier for one logical request. Its value is drawn at random, so
/// two calls may give any two identifiers of the random shape.
pub fn new_correlation_id() -> (id: CorrelationId)
    ensures
        is_random_uuid(id@),
{
    CorrelationId::from_u128(random_uuid_value())
}

/// The wire form of an identifier: its upper and its lower 64 bits.
pub fn uuid_to_uuidpb(id: CorrelationId) -> (pb: UuidPb)
    ensures
        pb.hi == upper_half(id@),
        pb.lo == lower_half(id@),
{
    let (hi, lo) = id.split();
    UuidPb { hi, lo }
}

/// Two identifiers are the same exactly when their values are.
pub proof fn same_value_same_id(a: CorrelationId, b: CorrelationId)
    ensures
        a == b <==> a@ == b@,
{
}

/// Cutting a value into its halves and joining them gives the value back.
pub proof fn split_then_join(value: u128)
    ensures
        joined(upper_half(value), lower_half(value)) == value,
{
}

/// Joining two halves and cutting the result gives the two halves back.
pub proof fn join_then_split(hi: u64, lo: u64)
    ensures
        upper_half(joined(hi, lo)) == hi,
        lower_half(joined(hi, lo)) == lo,
{
}

/// Values that differ have different halves: the wire form loses nothing.
pub proof fn distinct_values_split_apart(a: u128, b: u128)
    requires
        a != b,
    ensures
        upper_half(a) != upper_half(b) || lower_half(a) != lower_half(b),
{
    split_then_join(a);
    split_then_join(b);
}

} // verus!
