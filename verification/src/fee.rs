use vstd::prelude::*;
use crate::amount::Amount;

verus! {

/// Gas limit charged by a plain native-asset transfer.
pub const TRANSFER_GAS_LIMIT: u64 = 21000;

/// Conservative gas limit for flows that may execute contract code.
pub const CONTRACT_GAS_LIMIT: u64 = 300000;

/// Estimated fee for a transaction: the current gas price times the gas limit
/// of the operation class. `None` exactly when the mathematical product
/// exceeds the largest representable amount; the product never wraps.
pub fn estimate_fee(gas_price: Amount, gas_limit: u64) -> (r: Option<Amount>)
    ensures
        gas_price.wei * gas_limit <= u128::MAX ==> r == Some(
            (Amount { wei: (gas_price.wei * gas_limit) as u128 }),
        ),
        gas_price.wei * gas_limit > u128::MAX ==> r is None,
{
    gas_price.checked_mul_u64(gas_limit)
}

/// At a fixed gas price, a larger gas limit never yields a smaller fee:
/// the estimated fee is monotonic in the gas limit.
pub proof fn lemma_estimate_fee_monotonic(gas_price: Amount, lim1: u64, lim2: u64)
    requires
        lim1 <= lim2,
    ensures
        gas_price.wei * lim1 <= gas_price.wei * lim2,
{
    assert(gas_price.wei * lim1 <= gas_price.wei * lim2) by (nonlinear_arith)
        requires
            lim1 <= lim2,
            gas_price.wei >= 0,
    ;
}

} // verus!
