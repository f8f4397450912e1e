//! Scores: IEEE 754 doubles, held by their bit pattern and ordered as the
//! store orders them.

use vstd::prelude::*;

verus! {

/// The bit of a double that holds its sign.
pub const SIGN_BIT: u64 = 0x8000_0000_0000_0000;

/// The bits of a double that hold its exponent.
pub const EXPONENT_BITS: u64 = 0x7ff0_0000_0000_0000;

/// The bits of a double that hold its fraction.
pub const FRACTION_BITS: u64 = 0x000f_ffff_ffff_ffff;

/// A player's score: a double, held by its bit pattern.
#[derive(Debug, Clone, Copy, PartialEq, Eq, Structural)]
pub struct Score {
    pub bits: u64,
}

impl Score {
    /// Whether the score is not a number.
    pub open spec fn is_nan(self) -> bool {
        (self.bits & EXPONENT_BITS) == EXPONENT_BITS && (self.bits & FRACTION_BITS) != 0
    }

    /// Whether the sign bit of the score is set.
    pub open spec fn is_negative(self) -> bool {
        (self.bits & SIGN_BIT) != 0
    }

    /// The place of the score in the store's order of doubles: a greater
    /// number has a greater rank, the two zeros have the same rank, and what
    /// is not a number has the greatest rank of all.
    pub open spec fn rank(self) -> u64 {
        if self.is_nan() {
            u64::MAX
        } else if self.bits == SIGN_BIT {
            SIGN_BIT
        } else if self.is_negative() {
            !self.bits
        } else {
            self.bits | SIGN_BIT
        }
    }

    /// The score with the given bit pattern.
    pub fn from_bits(bits: u64) -> (score: Score)
        ensures
            score.bits == bits,
    {
        Score { bits }
    }

    /// The bit pattern of the score.
    pub fn to_bits(&self) -> (bits: u64)
        ensures
            bits == self.bits,
    {
        self.bits
    }

    /// Computes the rank of the score.
    pub fn rank_key(&self) -> (rank: u64)
        ensures
            rank == self.rank(),
    {
        if (self.bits & EXPONENT_BITS) == EXPONENT_BITS && (self.bits & FRACTION_BITS) != 0 {
            u64::MAX
        } else if self.bits == SIGN_BIT {
            SIGN_BIT
        } else if (self.bits & SIGN_BIT) != 0 {
            !self.bits
        } else {
            self.bits | SIGN_BIT
        }
    }
}

/// Of two numbers that are not negative, the one with the greater bit
/// pattern has the greater rank.
pub proof fn lemma_rank_orders_positive_scores(low: Score, high: Score)
    requires
        !low.is_nan(),
        !high.is_nan(),
        !low.is_negative(),
        !high.is_negative(),
        low.bits < high.bits,
    ensures
        low.rank() < high.rank(),
{
    let a = low.bits;
    let b = high.bits;
    assert((a & 0x8000_0000_0000_0000) == 0 && (b & 0x8000_0000_0000_0000) == 0 && a < b ==> (a
        | 0x8000_0000_0000_0000) < (b | 0x8000_0000_0000_0000)) by (bit_vector);
    assert((a & 0x8000_0000_0000_0000) == 0 ==> a != 0x8000_0000_0000_0000) by (bit_vector);
    assert((b & 0x8000_0000_0000_0000) == 0 ==> b != 0x8000_0000_0000_0000) by (bit_vector);
}

/// Of two numbers below zero, the one with the greater bit pattern, which is
/// the one farther from zero, has the lesser rank.
pub proof fn lemma_rank_orders_negative_scores(near: Score, far: Score)
    requires
        !near.is_nan(),
        !far.is_nan(),
        near.is_negative(),
        far.is_negative(),
        near.bits < far.bits,
    ensures
        far.rank() < near.rank() || near.bits == SIGN_BIT,
        far.rank() < SIGN_BIT,
{
    let a = near.bits;
    let b = far.bits;
    assert(a < b ==> !b < !a) by (bit_vector);
    assert((b & 0x8000_0000_0000_0000) != 0 ==> !b < 0x8000_0000_0000_0000) by (bit_vector);
    assert((a & 0x8000_0000_0000_0000) != 0 && a < b ==> b != 0x8000_0000_0000_0000)
        by (bit_vector);
}

/// Every number that is not negative ranks above every number below zero,
/// and what is not a number ranks above both.
pub proof fn lemma_rank_orders_signs(negative: Score, positive: Score)
    requires
        !negative.is_nan(),
        !positive.is_nan(),
        negative.is_negative(),
        !positive.is_negative(),
    ensures
        negative.rank() <= positive.rank(),
        negative.rank() == positive.rank() <==> (negative.bits == SIGN_BIT && positive.bits == 0),
        positive.rank() < u64::MAX,
{
    let a = negative.bits;
    let b = positive.bits;
    assert((a & 0x8000_0000_0000_0000) != 0 ==> !a < 0x8000_0000_0000_0000) by (bit_vector);
    assert((b | 0x8000_0000_0000_0000) >= 0x8000_0000_0000_0000) by (bit_vector);
    assert((b & 0x8000_0000_0000_0000) == 0 ==> ((b | 0x8000_0000_0000_0000)
        == 0x8000_0000_0000_0000 <==> b == 0)) by (bit_vector);
    assert((b & 0x8000_0000_0000_0000) == 0 && !((b & 0x7ff0_0000_0000_0000)
        == 0x7ff0_0000_0000_0000 && (b & 0x000f_ffff_ffff_ffff) != 0) ==> (b
        | 0x8000_0000_0000_0000) < 0xffff_ffff_ffff_ffff) by (bit_vector);
}

} // verus!
