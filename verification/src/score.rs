//! Parity scores. A score is a double-precision number, held here by the 64
//! bits of its IEEE 754 form, so that the gates on it are decided on integers,
//! together with the decimal rendering that messages show.

use vstd::prelude::*;

verus! {

/// The bits of 1.0.
pub const ONE_BITS: u64 = 0x3FF0_0000_0000_0000;

/// The bits of 0.75.
pub const THREE_QUARTERS_BITS: u64 = 0x3FE8_0000_0000_0000;

/// The bits of 0.5.
pub const HALF_BITS: u64 = 0x3FE0_0000_0000_0000;

/// The bits of 0.25.
pub const QUARTER_BITS: u64 = 0x3FD0_0000_0000_0000;

/// The bits of positive infinity: the least magnitude that is no finite number.
pub const INFINITY_BITS: u64 = 0x7FF0_0000_0000_0000;

/// Two to the power 63: the weight of the sign bit.
pub const SIGN_BIT: u64 = 0x8000_0000_0000_0000;

/// A score: the bits of a double, and how it is written in messages.
#[derive(Debug, PartialEq, Eq)]
pub struct Score {
    pub bits: u64,
    pub label: String,
}

pub struct ScoreView {
    pub bits: u64,
    pub label: Seq<char>,
}

impl View for Score {
    type V = ScoreView;

    open spec fn view(&self) -> ScoreView {
        ScoreView { bits: self.bits, label: self.label@ }
    }
}

impl Clone for Score {
    fn clone(&self) -> (copy: Self)
        ensures
            copy@ == self@,
    {
        Score { bits: self.bits, label: self.label.clone() }
    }
}

/// The bits without the sign: exponent and fraction.
pub open spec fn magnitude(bits: u64) -> int {
    bits as int % 0x8000_0000_0000_0000
}

/// Whether the bits stand for a finite number: neither an infinity nor a NaN,
/// which are the values whose exponent bits are all set.
pub open spec fn is_finite(bits: u64) -> bool {
    magnitude(bits) < 0x7FF0_0000_0000_0000
}

/// Whether the bits stand for a number from 0 to 1: a zero of either sign, or
/// a positive number up to 1.0. Among the positive doubles a greater number
/// has the greater bits.
pub open spec fn in_unit_interval(bits: u64) -> bool {
    magnitude(bits) == 0 || bits <= 0x3FF0_0000_0000_0000
}

/// For two numbers from 0 to 1: whether the first is less than the second.
pub open spec fn below(a: u64, b: u64) -> bool {
    magnitude(a) < magnitude(b)
}

/// A quarter of `passes`, for `passes` up to 4.
pub open spec fn quarters(passes: nat) -> ScoreView {
    if passes == 0 {
        ScoreView { bits: 0, label: "0"@ }
    } else if passes == 1 {
        ScoreView { bits: 0x3FD0_0000_0000_0000, label: "0.25"@ }
    } else if passes == 2 {
        ScoreView { bits: 0x3FE0_0000_0000_0000, label: "0.5"@ }
    } else if passes == 3 {
        ScoreView { bits: 0x3FE8_0000_0000_0000, label: "0.75"@ }
    } else {
        ScoreView { bits: 0x3FF0_0000_0000_0000, label: "1"@ }
    }
}

impl Score {
    /// A score from the bits of a double and its rendering.
    pub fn new(bits: u64, label: &str) -> (score: Self)
        ensures
            score@ == (ScoreView { bits, label: label@ }),
    {
        Score { bits, label: String::from_str(label) }
    }

    /// A quarter of `passes`: 0, 0.25, 0.5, 0.75 or 1.
    pub fn from_quarters(passes: u8) -> (score: Self)
        requires
            passes <= 4,
        ensures
            score@ == quarters(passes as nat),
    {
        if passes == 0 {
            Score::new(0, "0")
        } else if passes == 1 {
            Score::new(QUARTER_BITS, "0.25")
        } else if passes == 2 {
            Score::new(HALF_BITS, "0.5")
        } else if passes == 3 {
            Score::new(THREE_QUARTERS_BITS, "0.75")
        } else {
            Score::new(ONE_BITS, "1")
        }
    }

    /// Whether the score is a finite number.
    pub fn is_finite(&self) -> (finite: bool)
        ensures
            finite == is_finite(self.bits),
    {
        self.bits % SIGN_BIT < INFINITY_BITS
    }

    /// Whether the score is a number from 0 to 1.
    pub fn in_unit_interval(&self) -> (within: bool)
        ensures
            within == in_unit_interval(self.bits),
    {
        self.bits % SIGN_BIT == 0 || self.bits <= ONE_BITS
    }

    /// Whether the score is less than `other`, both being numbers from 0 to 1.
    pub fn below(&self, other: &Score) -> (less: bool)
        ensures
            less == below(self.bits, other.bits),
    {
        self.bits % SIGN_BIT < other.bits % SIGN_BIT
    }
}

/// Every quarter score is a finite number from 0 to 1, and more passes give
/// a score that is not less.
pub proof fn lemma_quarters(passes: nat, more: nat)
    requires
        passes <= more <= 4,
    ensures
        is_finite(quarters(passes).bits),
        in_unit_interval(quarters(passes).bits),
        !below(quarters(more).bits, quarters(passes).bits),
        passes < more ==> below(quarters(passes).bits, quarters(more).bits),
{
}

} // verus!
