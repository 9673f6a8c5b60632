use vstd::prelude::*;
use crate::amount::Amount;

verus! {

/// The value that a carry flag beside a low word stands for.
pub open spec fn carry_unit() -> int {
    0x100000000000000000000000000000000int
}

/// A carry flag and a low word read together as one number.
pub open spec fn wide_value(carry: bool, low: u128) -> int {
    (if carry {
        carry_unit()
    } else {
        0
    }) + low
}

/// The precise accounting behind a failed balance check: the transfer amount,
/// the estimated fee, the balance that was observed, the required total
/// (amount plus fee) and the shortfall (required total minus balance). The
/// required total and the shortfall can exceed the largest representable
/// `Amount` by one bit, so each is carried as a low word plus a carry flag.
#[derive(Clone, Copy, PartialEq, Eq, Structural, Debug)]
pub struct InsufficientFunds {
    pub amount: Amount,
    pub fee: Amount,
    pub balance: Amount,
    pub required_low: u128,
    pub required_carry: bool,
    pub shortfall_low: u128,
    pub shortfall_carry: bool,
}

/// Checks that a sender can afford a transfer: the balance must cover the
/// transfer amount plus the estimated fee. Succeeds exactly when
/// `balance >= amount + fee` holds mathematically, with the sum never
/// wrapping; on failure the error reports the exact required total and the
/// exact shortfall.
pub fn validate_sufficient(balance: Amount, amount: Amount, fee: Amount) -> (r: Result<
    (),
    InsufficientFunds,
>)
    ensures
        r is Ok <==> amount.wei + fee.wei <= balance.wei,
        r is Err ==> r->Err_0.amount == amount && r->Err_0.fee == fee && r->Err_0.balance
            == balance,
        r is Err ==> wide_value(r->Err_0.required_carry, r->Err_0.required_low) == amount.wei
            + fee.wei,
        r is Err ==> wide_value(r->Err_0.shortfall_carry, r->Err_0.shortfall_low) == amount.wei
            + fee.wei - balance.wei,
{
    match amount.wei.checked_add(fee.wei) {
        Some(required) => {
            if required <= balance.wei {
                Ok(())
            } else {
                Err(
                    InsufficientFunds {
                        amount,
                        fee,
                        balance,
                        required_low: required,
                        required_carry: false,
                        shortfall_low: required - balance.wei,
                        shortfall_carry: false,
                    },
                )
            }
        },
        None => {
            // The sum exceeds the word size: its low word is
            // amount + fee - 2^128, and the carry flag holds the rest.
            let low: u128 = amount.wei - (u128::MAX - fee.wei) - 1;
            if low >= balance.wei {
                Err(
                    InsufficientFunds {
                        amount,
                        fee,
                        balance,
                        required_low: low,
                        required_carry: true,
                        shortfall_low: low - balance.wei,
                        shortfall_carry: true,
                    },
                )
            } else {
                Err(
                    InsufficientFunds {
                        amount,
                        fee,
                        balance,
                        required_low: low,
                        required_carry: true,
                        shortfall_low: low + (u128::MAX - balance.wei) + 1,
                        shortfall_carry: false,
                    },
                )
            }
        },
    }
}

} // verus!
