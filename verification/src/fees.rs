//! Fee arithmetic: how a funded amount is split between the celebrity and the
//! platform when a deal completes.

use vstd::prelude::*;
use crate::error::DealError;

verus! {

/// One hundred percent, in basis points.
pub const BASIS_POINTS: u64 = 10000;

/// The highest fee rate that an authority may set: ten percent.
pub const MAX_FEE_RATE: u64 = 1000;

/// The platform's share of `amount` at `rate` basis points, rounded down.
pub open spec fn fee_of(amount: nat, rate: nat) -> nat {
    amount * rate / 10000
}

/// The two payments that resolve a completed deal.
#[derive(Clone, Copy, Debug, PartialEq, Eq, Structural)]
pub struct Settlement {
    /// What the celebrity receives.
    pub celebrity_amount: u64,
    /// What the platform's authority receives.
    pub platform_fee_amount: u64,
}

/// What `settle` returns: the fee is taken off the top and the celebrity
/// gets the rest. A fee too large for sixty-four bits is an overflow; one
/// that fits but exceeds the funded amount is an underflow.
pub open spec fn settlement_of(funded_amount: u64, fee_rate: u64) -> Result<Settlement, DealError> {
    let fee = fee_of(funded_amount as nat, fee_rate as nat);
    if fee > u64::MAX {
        Err(DealError::ArithmeticOverflow)
    } else if fee > funded_amount {
        Err(DealError::ArithmeticUnderflow)
    } else {
        Ok(
            Settlement {
                celebrity_amount: (funded_amount - fee) as u64,
                platform_fee_amount: fee as u64,
            },
        )
    }
}

/// A fee of at most one hundred percent never exceeds the amount it is
/// taken from.
pub proof fn lemma_fee_bounded(amount: nat, rate: nat)
    requires
        rate <= BASIS_POINTS,
    ensures
        fee_of(amount, rate) <= amount,
{
    assert(amount * rate <= amount * 10000) by (nonlinear_arith)
        requires
            rate <= 10000,
    ;
}

/// Raising the rate never lowers the fee on a given amount.
pub proof fn lemma_fee_monotonic(amount: nat, low: nat, high: nat)
    requires
        low <= high,
    ensures
        fee_of(amount, low) <= fee_of(amount, high),
{
    assert(amount * low <= amount * high) by (nonlinear_arith)
        requires
            low <= high,
    ;
}

/// Nothing is lost or made in a settlement: at any rate up to one hundred
/// percent, and so at any rate an authority may set, every funded amount
/// splits into two payments that add up to it.
pub proof fn lemma_settlement_conserves(funded_amount: u64, fee_rate: u64)
    requires
        fee_rate <= BASIS_POINTS,
    ensures
        settlement_of(funded_amount, fee_rate) is Ok,
        settlement_of(funded_amount, fee_rate)->Ok_0.celebrity_amount + settlement_of(
            funded_amount,
            fee_rate,
        )->Ok_0.platform_fee_amount == funded_amount,
{
    lemma_fee_bounded(funded_amount as nat, fee_rate as nat);
}

/// The platform's share of `funded_amount` at `fee_rate` basis points,
/// rounded down. The product is formed in 128 bits, so nothing is lost
/// before the division.
pub fn platform_fee_amount(funded_amount: u64, fee_rate: u64) -> (fee: Result<u64, DealError>)
    ensures
        fee_of(funded_amount as nat, fee_rate as nat) <= u64::MAX ==> fee == Ok::<u64, DealError>(
            fee_of(funded_amount as nat, fee_rate as nat) as u64,
        ),
        fee_of(funded_amount as nat, fee_rate as nat) > u64::MAX ==> fee == Err::<u64, DealError>(
            DealError::ArithmeticOverflow,
        ),
{
    assert(funded_amount * fee_rate <= u64::MAX * u64::MAX) by (nonlinear_arith)
        requires
            funded_amount <= u64::MAX,
            fee_rate <= u64::MAX,
    ;
    let product: u128 = (funded_amount as u128) * (fee_rate as u128);
    let wide: u128 = product / 10000;
    if wide > u64::MAX as u128 {
        Err(DealError::ArithmeticOverflow)
    } else {
        Ok(wide as u64)
    }
}

/// Splits `funded_amount` into the platform's fee at `fee_rate` basis points
/// and the celebrity's payment.
pub fn settle(funded_amount: u64, fee_rate: u64) -> (split: Result<Settlement, DealError>)
    ensures
        split == settlement_of(funded_amount, fee_rate),
        split matches Ok(s) ==> s.celebrity_amount + s.platform_fee_amount == funded_amount,
        fee_rate <= BASIS_POINTS ==> split is Ok,
{
    proof {
        if fee_rate <= BASIS_POINTS {
            lemma_fee_bounded(funded_amount as nat, fee_rate as nat);
        }
    }
    match platform_fee_amount(funded_amount, fee_rate) {
        Err(e) => Err(e),
        Ok(fee) => {
            match funded_amount.checked_sub(fee) {
                None => Err(DealError::ArithmeticUnderflow),
                Some(rest) => Ok(Settlement { celebrity_amount: rest, platform_fee_amount: fee }),
            }
        },
    }
}

} // verus!
