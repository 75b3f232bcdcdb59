//! The split of a 64-bit register value into the two 32-bit halves that the
//! read and write instructions exchange, and the join back.
use vstd::prelude::*;

verus! {

/// The low 32 bits of `v`.
pub open spec fn low_half(v: u64) -> u32 {
    (v & 0xFFFF_FFFF) as u32
}

/// The high 32 bits of `v`.
pub open spec fn high_half(v: u64) -> u32 {
    ((v >> 32) & 0xFFFF_FFFF) as u32
}

/// The 64-bit value whose high 32 bits are `high` and low 32 bits are `low`.
pub open spec fn joined(low: u32, high: u32) -> u64 {
    ((high as u64) << 32) | (low as u64)
}

/// Reassembles a register value from the halves the read instruction returns.
pub fn join_halves(low: u32, high: u32) -> (r: u64)
    ensures
        r == joined(low, high),
        r == high as int * 0x1_0000_0000 + low as int,
{
    proof {
        lemma_joined_value(low, high);
    }
    ((high as u64) << 32) | (low as u64)
}

/// Splits a register value into the (low, high) halves the write instruction takes.
pub fn split_value(v: u64) -> (r: (u32, u32))
    ensures
        r.0 == low_half(v),
        r.1 == high_half(v),
{
    ((v & 0xFFFF_FFFF) as u32, ((v >> 32) & 0xFFFF_FFFF) as u32)
}

/// Joining two halves gives `high * 2^32 + low`.
pub proof fn lemma_joined_value(low: u32, high: u32)
    ensures
        joined(low, high) == high as int * 0x1_0000_0000 + low as int,
{
    assert(((high as u64) << 32) | (low as u64) == high as int * 0x1_0000_0000 + low as int)
        by (bit_vector);
}

/// Splitting a value into its halves and joining them again gives the value back.
pub proof fn lemma_join_of_split(v: u64)
    ensures
        joined(low_half(v), high_half(v)) == v,
{
    assert(((((v >> 32) & 0xFFFF_FFFF) as u32 as u64) << 32) | (((v & 0xFFFF_FFFF) as u32) as u64)
        == v) by (bit_vector);
}

/// Joining two halves and splitting the result gives the same two halves back.
pub proof fn lemma_split_of_join(low: u32, high: u32)
    ensures
        low_half(joined(low, high)) == low,
        high_half(joined(low, high)) == high,
{
    assert(((((high as u64) << 32) | (low as u64)) & 0xFFFF_FFFF) as u32 == low) by (bit_vector);
    assert(((((((high as u64) << 32) | (low as u64)) >> 32) & 0xFFFF_FFFF) as u32) == high)
        by (bit_vector);
}

} // verus!
