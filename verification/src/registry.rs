//! The platform registry: who runs the platform, what it charges, and how
//! many deals it has issued.

use vstd::prelude::*;
use crate::error::DealError;
use crate::fees::{fee_of, platform_fee_amount, MAX_FEE_RATE};
use crate::identity::Pubkey;

verus! {

/// The registry of one deployment.
#[derive(Clone, Copy, Debug, PartialEq, Eq)]
pub struct Platform {
    /// Who may change the fee rate, and who receives the fees.
    pub authority: Pubkey,
    /// The fee rate, in basis points of the funded amount.
    pub platform_fee: u64,
    /// How many deals have been created. It only ever grows, by one per deal.
    pub total_deals: u64,
}

impl Platform {
    /// The sequence number that the next deal will get.
    pub fn next_deal_sequence(&self) -> (sequence: u64)
        ensures
            sequence == self.total_deals,
    {
        self.total_deals
    }

    /// The fee that this registry would charge today on `amount`.
    pub fn quote_fee(&self, amount: u64) -> (fee: Result<u64, DealError>)
        ensures
            fee_of(amount as nat, self.platform_fee as nat) <= u64::MAX ==> fee == Ok::<
                u64,
                DealError,
            >(fee_of(amount as nat, self.platform_fee as nat) as u64),
            fee_of(amount as nat, self.platform_fee as nat) > u64::MAX ==> fee == Err::<
                u64,
                DealError,
            >(DealError::ArithmeticOverflow),
    {
        platform_fee_amount(amount, self.platform_fee)
    }
}

/// What initialising the registry works on: the place where the registry is
/// kept, empty until then, and the identity that asks.
#[derive(Clone, Copy, Debug, PartialEq, Eq)]
pub struct InitializePlatform {
    pub platform: Option<Platform>,
    pub authority: Pubkey,
}

/// What a change of the fee rate works on: the registry, and the identity
/// that asks.
#[derive(Clone, Copy, Debug, PartialEq, Eq)]
pub struct UpdatePlatform {
    pub platform: Platform,
    pub authority: Pubkey,
}

/// Creates the registry, with the caller as its authority and no deals yet.
/// The rate is taken as given: the cap of `MAX_FEE_RATE` binds later
/// changes only. A registry that exists already is left as it is.
pub fn initialize_platform(ctx: &mut InitializePlatform, platform_fee: u64) -> (done: Result<
    (),
    DealError,
>)
    ensures
        old(ctx).platform is Some ==> done == Err::<(), DealError>(DealError::AlreadyInitialized)
            && *final(ctx) == *old(ctx),
        old(ctx).platform is None ==> done is Ok && *final(ctx) == (InitializePlatform {
            platform: Some(
                Platform { authority: old(ctx).authority, platform_fee, total_deals: 0 },
            ),
            authority: old(ctx).authority,
        }),
{
    match ctx.platform {
        Some(_) => Err(DealError::AlreadyInitialized),
        None => {
            ctx.platform = Some(Platform { authority: ctx.authority, platform_fee, total_deals: 0 });
            Ok(())
        },
    }
}

/// What a request to change the fee rate comes to. Who asks is looked at
/// before what is asked.
pub open spec fn update_fee_outcome(platform: Platform, caller: Pubkey, new_fee: u64) -> Result<
    (),
    DealError,
> {
    if caller != platform.authority {
        Err(DealError::Unauthorized)
    } else if new_fee > MAX_FEE_RATE {
        Err(DealError::FeeTooHigh)
    } else {
        Ok(())
    }
}

/// Sets the fee rate, if the caller is the authority and the rate is at most
/// `MAX_FEE_RATE`. Deals are charged at the rate in force when they complete.
pub fn update_platform_fee(ctx: &mut UpdatePlatform, new_fee: u64) -> (done: Result<(), DealError>)
    ensures
        done == update_fee_outcome(old(ctx).platform, old(ctx).authority, new_fee),
        done is Ok ==> *final(ctx) == (UpdatePlatform {
            platform: Platform { platform_fee: new_fee, ..old(ctx).platform },
            authority: old(ctx).authority,
        }),
        done is Err ==> *final(ctx) == *old(ctx),
{
    if ctx.authority != ctx.platform.authority {
        return Err(DealError::Unauthorized);
    }
    if new_fee > MAX_FEE_RATE {
        return Err(DealError::FeeTooHigh);
    }
    ctx.platform.platform_fee = new_fee;
    Ok(())
}

} // verus!
