use vstd::prelude::*;

verus! {

/// An amount of the network's native asset, denominated in wei, the smallest
/// indivisible unit. An amount is never negative, and arithmetic on amounts is
/// checked: an operation whose mathematical result does not fit the
/// representation reports that instead of silently wrapping.
#[derive(Clone, Copy, PartialEq, Eq, Structural, Debug)]
pub struct Amount {
    pub wei: u128,
}

impl Amount {
    /// Wraps a raw wei value.
    pub fn from_wei(wei: u128) -> (r: Amount)
        ensures
            r.wei == wei,
    {
        Amount { wei }
    }

    /// Product of an amount and a scalar gas quantity; `None` exactly when
    /// the mathematical product exceeds the largest representable amount.
    pub fn checked_mul_u64(self, factor: u64) -> (r: Option<Amount>)
        ensures
            self.wei * factor <= u128::MAX ==> r == Some((Amount { wei: (self.wei * factor) as u128 })),
            self.wei * factor > u128::MAX ==> r is None,
    {
        match self.wei.checked_mul(factor as u128) {
            Some(p) => Some(Amount { wei: p }),
            None => None,
        }
    }
}

} // verus!
