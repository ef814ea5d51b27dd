//! The aggregate stake of one actor: base-staked plus auto-compounded tokens.
//!
//! One record exists for the guild master and one per ordinary user. Both
//! fields only move additively or subtractively on stake, claim, compound and
//! unstake events; an underflow is a fatal fault and is ruled out by the
//! callers' preconditions.

use vstd::prelude::*;

verus! {

#[derive(Clone, Copy, Debug, PartialEq, Eq, Structural)]
pub struct TotalTokens {
    pub base: u128,
    pub compounded: u128,
}

impl TotalTokens {
    /// Whether the two fields can be summed without overflow.
    pub open spec fn fits(self) -> bool {
        self.base + self.compounded <= u128::MAX
    }

    /// The mathematical total of the record.
    pub open spec fn spec_total(self) -> int {
        self.base + self.compounded
    }

    pub fn new(base_amount: u128, compounded_amount: u128) -> (r: Self)
        ensures
            r == (TotalTokens { base: base_amount, compounded: compounded_amount }),
    {
        Self { base: base_amount, compounded: compounded_amount }
    }

    pub fn new_base(base_amount: u128) -> (r: Self)
        ensures
            r == (TotalTokens { base: base_amount, compounded: 0u128 }),
    {
        Self { base: base_amount, compounded: 0 }
    }

    pub fn new_compounded(compounded_amount: u128) -> (r: Self)
        ensures
            r == (TotalTokens { base: 0u128, compounded: compounded_amount }),
    {
        Self { base: 0, compounded: compounded_amount }
    }

    /// An all-zero record. The host storage holds no entry for such a value,
    /// so a default record and an absent one are indistinguishable.
    pub fn is_default(&self) -> (r: bool)
        ensures
            r == (self.base == 0 && self.compounded == 0),
    {
        self.base == 0 && self.compounded == 0
    }

    pub fn total(&self) -> (r: u128)
        requires
            self.fits(),
        ensures
            r == self.spec_total(),
    {
        self.base + self.compounded
    }
}

impl Default for TotalTokens {
    fn default() -> (r: Self)
        ensures
            r == (TotalTokens { base: 0u128, compounded: 0u128 }),
    {
        Self { base: 0, compounded: 0 }
    }
}

} // verus!
