use vstd::prelude::*;

verus! {

/// The index that a seed byte picks among `count` entries: the seed modulo the count.
pub open spec fn winning_index(seed: u8, count: nat) -> nat
    recommends
        count > 0,
{
    seed as nat % count
}

/// The seed byte of a ledger height: its least significant byte.
pub open spec fn low_byte(height: u64) -> u8 {
    (height % 256) as u8
}

/// Picks the winning index among `count` entries from a seed byte.
///
/// The selector consumes a seed and never asks for entropy itself: the same
/// seed and count always give the same index.
pub fn select_winner(seed: u8, count: usize) -> (index: usize)
    requires
        count > 0,
    ensures
        index == winning_index(seed, count as nat),
        index < count,
{
    let wide: usize = seed as usize;
    wide % count
}

/// Derives the seed byte from a ledger height.
pub fn seed_byte(height: u64) -> (seed: u8)
    ensures
        seed == low_byte(height),
{
    let low: u64 = height % 256;
    low as u8
}

} // verus!
