//! A position along a path, as an exact fraction between zero and one.
use vstd::prelude::*;
use crate::fixed::{Fixed, SCALE};

verus! {

/// A fraction `numerator / denominator` that lies in the closed interval from 0 to 1.
#[derive(Clone, Copy, Debug)]
pub struct Percentage {
    numerator: u32,
    denominator: u32,
}

impl Percentage {
    /// The numerator of the fraction.
    pub closed spec fn num(self) -> int {
        self.numerator as int
    }

    /// The denominator of the fraction.
    pub closed spec fn den(self) -> int {
        self.denominator as int
    }

    /// Every value of this type is a fraction with a positive denominator that is at most one.
    #[verifier::type_invariant]
    pub closed spec fn wf(self) -> bool {
        0 < self.denominator && self.numerator <= self.denominator
    }

    /// What `wf` means over the two accessors.
    pub proof fn lemma_wf(self)
        ensures
            self.wf() <==> 0 < self.den() && 0 <= self.num() <= self.den(),
            0 <= self.num() <= u32::MAX,
            0 <= self.den() <= u32::MAX,
    {
    }

    /// The fraction `numerator / denominator`, or `None` where it is no value between 0 and 1:
    /// where the denominator is zero or the numerator exceeds it.
    pub fn from_ratio(numerator: u32, denominator: u32) -> (p: Option<Percentage>)
        ensures
            p.is_some() <==> 0 < denominator && numerator <= denominator,
            p matches Some(q) ==> q.wf() && q.num() == numerator && q.den() == denominator,
    {
        if denominator == 0 || numerator > denominator {
            None
        } else {
            Some(Percentage { numerator, denominator })
        }
    }

    /// The fraction that the decimal number `value` stands for, or `None` where it does not
    /// lie between 0 and 1.
    pub fn from_decimal(value: Fixed) -> (p: Option<Percentage>)
        ensures
            p.is_some() <==> 0 <= value.value() <= SCALE,
            p matches Some(q) ==> q.wf() && q.num() == value.value() && q.den() == SCALE,
    {
        if value.raw < 0 || value.raw > SCALE {
            None
        } else {
            Some(Percentage { numerator: value.raw as u32, denominator: SCALE as u32 })
        }
    }

    /// The start of a path: the fraction 0/1.
    pub fn zero() -> (p: Percentage)
        ensures
            p.wf(),
            p.num() == 0,
            p.den() == 1,
    {
        Percentage { numerator: 0, denominator: 1 }
    }

    /// The end of a path: the fraction 1/1.
    pub fn one() -> (p: Percentage)
        ensures
            p.wf(),
            p.num() == 1,
            p.den() == 1,
    {
        Percentage { numerator: 1, denominator: 1 }
    }

    /// The numerator.
    pub fn numerator(&self) -> (n: u32)
        ensures
            n == self.num(),
    {
        self.numerator
    }

    /// The denominator, which is never zero.
    pub fn denominator(&self) -> (d: u32)
        ensures
            d == self.den(),
            d > 0,
    {
        proof {
            use_type_invariant(self);
        }
        self.denominator
    }
}

} // verus!
