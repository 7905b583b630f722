//! The operations on deals. Each one looks at the deal's state first and at
//! who is asking second, moves funds on the ledger where the step calls for
//! it, and only then writes to the deal. A refused operation changes nothing.

use vstd::prelude::*;
use vstd::string::StrSliceExecFns;
use crate::deal::{
    is_edge, is_terminal, Deal, DealStatus, DealTerms, MAX_DESCRIPTION_LEN, MAX_NAME_LEN,
};
use crate::error::DealError;
use crate::fees::{settle, settlement_of, Settlement};
use crate::identity::{AccountId, Pubkey};
use crate::ledger::{
    can_move_both, move_outcome, moved, moved_both, Balances, Ledger, VaultHandle,
};
use crate::registry::Platform;

verus! {

/// What creating a deal works on: the place where the deal will be kept,
/// empty until then; the registry and its identity; and the two parties,
/// of whom the studio is the one that asks.
#[derive(Debug, PartialEq, Eq)]
pub struct CreateDeal {
    pub deal: Option<Deal>,
    pub platform: Platform,
    pub platform_key: Pubkey,
    pub studio: Pubkey,
    pub celebrity: Pubkey,
}

/// What accepting a deal works on: the deal, and the identity that asks.
#[derive(Debug, PartialEq, Eq)]
pub struct UpdateDeal {
    pub deal: Deal,
    pub signer: Pubkey,
}

/// What funding a deal works on: the deal, the identity that asks and pays,
/// and the ledger.
#[derive(Debug)]
pub struct FundDeal {
    pub deal: Deal,
    pub studio: Pubkey,
    pub ledger: Ledger,
}

/// What completing a deal works on: the deal, the identity that asks, the
/// registry whose rate and authority decide the fee, and the ledger.
#[derive(Debug)]
pub struct CompleteDeal {
    pub deal: Deal,
    pub signer: Pubkey,
    pub platform: Platform,
    pub ledger: Ledger,
}

/// What cancelling a deal works on: the deal, the identity that asks, a
/// second identity where two parties ask together, and the ledger.
#[derive(Debug)]
pub struct CancelDeal {
    pub deal: Deal,
    pub signer: Pubkey,
    pub co_signer: Option<Pubkey>,
    pub ledger: Ledger,
}

/// A deal's status either stays or follows an edge of the state graph.
pub open spec fn legal_step(from: DealStatus, to: DealStatus) -> bool {
    from == to || is_edge(from, to)
}

/// `deal` after a step to `status` taken at `now`.
pub open spec fn stepped(deal: Deal, status: DealStatus, now: i64) -> Deal {
    Deal { status, updated_at: now, ..deal }
}

/// The vault of `deal`.
pub open spec fn vault_of(deal: Deal) -> AccountId {
    AccountId::Vault(deal.spec_id())
}

/// What the vault of `deal` is meant to hold: the funded amount from
/// funding until the deal is resolved, and nothing before or after.
pub open spec fn in_custody(deal: Deal) -> nat {
    if deal.status is Funded {
        deal.funded_amount as nat
    } else {
        0
    }
}

/// The vault of `deal` holds what it is meant to hold.
pub open spec fn custody_holds(deal: Deal, balances: Balances) -> bool {
    balances[vault_of(deal)] == in_custody(deal)
}

/// What a request to create a deal comes to.
pub open spec fn create_outcome(
    slot: Option<Deal>,
    platform: Platform,
    name: Seq<char>,
    description: Seq<char>,
) -> Result<(), DealError> {
    if slot is Some {
        Err(DealError::AlreadyInitialized)
    } else if name.len() > MAX_NAME_LEN {
        Err(DealError::NameTooLong)
    } else if description.len() > MAX_DESCRIPTION_LEN {
        Err(DealError::DescriptionTooLong)
    } else if platform.total_deals == u64::MAX {
        Err(DealError::ArithmeticOverflow)
    } else {
        Ok(())
    }
}

/// Creates a deal between the studio and the celebrity, in state `Proposed`,
/// and counts it in the registry. The deal's sequence number is the
/// registry's count before this deal, so no two deals of a registry share
/// an identifier. No funds move.
pub fn create_deal(
    ctx: &mut CreateDeal,
    deal_terms: DealTerms,
    deal_name: String,
    deal_description: String,
    now: i64,
) -> (done: Result<(), DealError>)
    ensures
        done == create_outcome(
            old(ctx).deal,
            old(ctx).platform,
            deal_name@,
            deal_description@,
        ),
        done is Ok ==> *final(ctx) == (CreateDeal {
            deal: Some(
                Deal {
                    studio: old(ctx).studio,
                    celebrity: old(ctx).celebrity,
                    platform: old(ctx).platform_key,
                    sequence: old(ctx).platform.total_deals,
                    terms: deal_terms,
                    name: deal_name,
                    description: deal_description,
                    status: DealStatus::Proposed,
                    created_at: now,
                    updated_at: now,
                    funded_amount: 0,
                },
            ),
            platform: Platform {
                total_deals: (old(ctx).platform.total_deals + 1) as u64,
                ..old(ctx).platform
            },
            ..*old(ctx)
        }),
        done is Ok ==> final(ctx).deal->Some_0.wf(),
        done is Ok ==> final(ctx).deal->Some_0.sequence < final(ctx).platform.total_deals,
        done is Err ==> *final(ctx) == *old(ctx),
{
    if ctx.deal.is_some() {
        return Err(DealError::AlreadyInitialized);
    }
    if deal_name.as_str().unicode_len() > MAX_NAME_LEN {
        return Err(DealError::NameTooLong);
    }
    if deal_description.as_str().unicode_len() > MAX_DESCRIPTION_LEN {
        return Err(DealError::DescriptionTooLong);
    }
    let sequence = ctx.platform.next_deal_sequence();
    let issued = match sequence.checked_add(1) {
        Some(issued) => issued,
        None => {
            return Err(DealError::ArithmeticOverflow);
        },
    };
    ctx.deal = Some(
        Deal {
            studio: ctx.studio,
            celebrity: ctx.celebrity,
            platform: ctx.platform_key,
            sequence,
            terms: deal_terms,
            name: deal_name,
            description: deal_description,
            status: DealStatus::Proposed,
            created_at: now,
            updated_at: now,
            funded_amount: 0,
        },
    );
    ctx.platform.total_deals = issued;
    Ok(())
}

/// No two deals of a registry share an identifier: a new deal takes the
/// registry's count as its sequence number, and every deal created before
/// it has a lower one.
pub proof fn lemma_new_identifier_is_fresh(registry: Platform, earlier: Deal, created: Deal)
    requires
        earlier.platform == created.platform,
        earlier.sequence < registry.total_deals,
        created.sequence == registry.total_deals,
    ensures
        earlier.spec_id() != created.spec_id(),
{
}

/// What a request to accept a deal comes to. The state is looked at before
/// the caller.
pub open spec fn accept_outcome(deal: Deal, signer: Pubkey) -> Result<(), DealError> {
    if !(deal.status is Proposed) {
        Err(DealError::InvalidDealStatus)
    } else if signer != deal.celebrity {
        Err(DealError::Unauthorized)
    } else {
        Ok(())
    }
}

/// The celebrity accepts a proposed deal.
pub fn accept_deal(ctx: &mut UpdateDeal, now: i64) -> (done: Result<(), DealError>)
    ensures
        done == accept_outcome(old(ctx).deal, old(ctx).signer),
        done is Ok ==> *final(ctx) == (UpdateDeal {
            deal: stepped(old(ctx).deal, DealStatus::Accepted, now),
            ..*old(ctx)
        }),
        done is Err ==> *final(ctx) == *old(ctx),
        !(old(ctx).deal.status is Proposed) ==> done == Err::<(), DealError>(
            DealError::InvalidDealStatus,
        ),
        old(ctx).deal.status is Proposed && old(ctx).signer != old(ctx).deal.celebrity ==> done
            == Err::<(), DealError>(DealError::Unauthorized),
        legal_step(old(ctx).deal.status, final(ctx).deal.status),
        old(ctx).deal.wf() ==> final(ctx).deal.wf(),
{
    match ctx.deal.status {
        DealStatus::Proposed => {},
        _ => {
            return Err(DealError::InvalidDealStatus);
        },
    }
    if ctx.signer != ctx.deal.celebrity {
        return Err(DealError::Unauthorized);
    }
    ctx.deal.status = DealStatus::Accepted;
    ctx.deal.updated_at = now;
    Ok(())
}

/// What a request to fund a deal comes to: the state is looked at first,
/// the caller second, and the ledger last.
pub open spec fn fund_outcome(deal: Deal, studio: Pubkey, balances: Balances, amount: u64) -> Result<
    (),
    DealError,
> {
    if !(deal.status is Accepted) {
        Err(DealError::InvalidDealStatus)
    } else if studio != deal.studio {
        Err(DealError::Unauthorized)
    } else {
        move_outcome(balances, AccountId::Wallet(studio), vault_of(deal), amount as nat)
    }
}

/// The studio puts `amount` into the custody of an accepted deal. The whole
/// amount moves from the studio's wallet to the deal's vault; no fee is
/// taken at this point.
pub fn fund_deal(ctx: &mut FundDeal, amount: u64, now: i64) -> (done: Result<(), DealError>)
    ensures
        done == fund_outcome(old(ctx).deal, old(ctx).studio, old(ctx).ledger@, amount),
        done is Ok ==> {
            &&& final(ctx).deal == Deal {
                funded_amount: amount,
                ..stepped(old(ctx).deal, DealStatus::Funded, now)
            }
            &&& final(ctx).studio == old(ctx).studio
            &&& final(ctx).ledger@ == moved(
                old(ctx).ledger@,
                AccountId::Wallet(old(ctx).studio),
                vault_of(old(ctx).deal),
                amount as nat,
            )
        },
        done is Err ==> *final(ctx) == *old(ctx),
        !(old(ctx).deal.status is Accepted) ==> done == Err::<(), DealError>(
            DealError::InvalidDealStatus,
        ),
        old(ctx).deal.status is Accepted && old(ctx).studio != old(ctx).deal.studio ==> done
            == Err::<(), DealError>(DealError::Unauthorized),
        legal_step(old(ctx).deal.status, final(ctx).deal.status),
        old(ctx).deal.wf() ==> final(ctx).deal.wf(),
        custody_holds(old(ctx).deal, old(ctx).ledger@) ==> custody_holds(
            final(ctx).deal,
            final(ctx).ledger@,
        ),
{
    match ctx.deal.status {
        DealStatus::Accepted => {},
        _ => {
            return Err(DealError::InvalidDealStatus);
        },
    }
    if ctx.studio != ctx.deal.studio {
        return Err(DealError::Unauthorized);
    }
    let vault = AccountId::Vault(ctx.deal.id());
    match ctx.ledger.transfer(&ctx.studio, &vault, amount) {
        Err(e) => {
            return Err(e);
        },
        Ok(()) => {},
    }
    ctx.deal.funded_amount = amount;
    ctx.deal.status = DealStatus::Funded;
    ctx.deal.updated_at = now;
    Ok(())
}

/// What a request to complete a deal comes to: the state is looked at
/// first, the caller second, the arithmetic third, and the ledger last.
pub open spec fn complete_outcome(
    deal: Deal,
    signer: Pubkey,
    platform: Platform,
    balances: Balances,
) -> Result<Settlement, DealError> {
    if !(deal.status is Funded) {
        Err(DealError::InvalidDealStatus)
    } else if signer != deal.studio && signer != deal.celebrity {
        Err(DealError::Unauthorized)
    } else {
        match settlement_of(deal.funded_amount, platform.platform_fee) {
            Err(e) => Err(e),
            Ok(split) => if can_move_both(
                balances,
                vault_of(deal),
                AccountId::Wallet(deal.celebrity),
                split.celebrity_amount as nat,
                AccountId::Wallet(platform.authority),
                split.platform_fee_amount as nat,
            ) {
                Ok(split)
            } else {
                Err(DealError::LedgerTransferFailed)
            },
        }
    }
}

/// Either party releases the custody of a funded deal. The platform's fee,
/// at the registry's rate of the moment, goes from the vault to the
/// registry's authority, and the rest goes to the celebrity, whoever asked.
/// Both payments are made, or neither.
pub fn complete_deal(ctx: &mut CompleteDeal, now: i64) -> (done: Result<Settlement, DealError>)
    ensures
        done == complete_outcome(
            old(ctx).deal,
            old(ctx).signer,
            old(ctx).platform,
            old(ctx).ledger@,
        ),
        done matches Ok(split) ==> {
            &&& split.celebrity_amount + split.platform_fee_amount == old(ctx).deal.funded_amount
            &&& final(ctx).deal == stepped(old(ctx).deal, DealStatus::Completed, now)
            &&& final(ctx).signer == old(ctx).signer
            &&& final(ctx).platform == old(ctx).platform
            &&& final(ctx).ledger@ == moved_both(
                old(ctx).ledger@,
                vault_of(old(ctx).deal),
                AccountId::Wallet(old(ctx).deal.celebrity),
                split.celebrity_amount as nat,
                AccountId::Wallet(old(ctx).platform.authority),
                split.platform_fee_amount as nat,
            )
        },
        done is Err ==> *final(ctx) == *old(ctx),
        !(old(ctx).deal.status is Funded) ==> done == Err::<Settlement, DealError>(
            DealError::InvalidDealStatus,
        ),
        legal_step(old(ctx).deal.status, final(ctx).deal.status),
        old(ctx).deal.wf() ==> final(ctx).deal.wf(),
        custody_holds(old(ctx).deal, old(ctx).ledger@) ==> custody_holds(
            final(ctx).deal,
            final(ctx).ledger@,
        ),
{
    match ctx.deal.status {
        DealStatus::Funded => {},
        _ => {
            return Err(DealError::InvalidDealStatus);
        },
    }
    if ctx.signer != ctx.deal.studio && ctx.signer != ctx.deal.celebrity {
        return Err(DealError::Unauthorized);
    }
    let split = match settle(ctx.deal.funded_amount, ctx.platform.platform_fee) {
        Err(e) => {
            return Err(e);
        },
        Ok(split) => split,
    };
    let handle = VaultHandle::for_deal(&ctx.deal);
    match ctx.ledger.split_from_vault(
        &handle,
        &ctx.deal.celebrity,
        split.celebrity_amount,
        &ctx.platform.authority,
        split.platform_fee_amount,
    ) {
        Err(e) => {
            return Err(e);
        },
        Ok(()) => {},
    }
    ctx.deal.status = DealStatus::Completed;
    ctx.deal.updated_at = now;
    Ok(split)
}

/// Whether `who` is among those who ask.
pub open spec fn consents(signer: Pubkey, co_signer: Option<Pubkey>, who: Pubkey) -> bool {
    signer == who || co_signer == Some(who)
}

/// Who may cancel a deal depends on how far it has come: the studio alone
/// while it is proposed; either party once it is accepted; and only both
/// together, in one request, once it is funded.
pub open spec fn may_cancel(deal: Deal, signer: Pubkey, co_signer: Option<Pubkey>) -> bool {
    match deal.status {
        DealStatus::Proposed => consents(signer, co_signer, deal.studio),
        DealStatus::Accepted => consents(signer, co_signer, deal.studio) || consents(
            signer,
            co_signer,
            deal.celebrity,
        ),
        DealStatus::Funded => consents(signer, co_signer, deal.studio) && consents(
            signer,
            co_signer,
            deal.celebrity,
        ),
        DealStatus::Completed => false,
        DealStatus::Cancelled => false,
    }
}

/// What a request to cancel a deal comes to, with the amount that goes back
/// to the studio: the state is looked at first, the callers second, and the
/// ledger last.
pub open spec fn cancel_outcome(
    deal: Deal,
    signer: Pubkey,
    co_signer: Option<Pubkey>,
    balances: Balances,
) -> Result<u64, DealError> {
    if is_terminal(deal.status) {
        Err(DealError::InvalidDealStatus)
    } else if !may_cancel(deal, signer, co_signer) {
        Err(DealError::Unauthorized)
    } else if deal.status is Funded {
        match move_outcome(
            balances,
            vault_of(deal),
            AccountId::Wallet(deal.studio),
            deal.funded_amount as nat,
        ) {
            Ok(_) => Ok(deal.funded_amount),
            Err(e) => Err(e),
        }
    } else {
        Ok(0)
    }
}

fn is_among(signer: &Pubkey, co_signer: &Option<Pubkey>, who: &Pubkey) -> (among: bool)
    ensures
        among == consents(*signer, *co_signer, *who),
{
    if *signer == *who {
        return true;
    }
    match co_signer {
        Some(second) => *second == *who,
        None => false,
    }
}

/// Cancels a deal that is not yet resolved and reports what was refunded.
/// A funded deal's custody goes back to the studio in full; the amount
/// stays on record.
pub fn cancel_deal(ctx: &mut CancelDeal, now: i64) -> (done: Result<u64, DealError>)
    ensures
        done == cancel_outcome(
            old(ctx).deal,
            old(ctx).signer,
            old(ctx).co_signer,
            old(ctx).ledger@,
        ),
        done matches Ok(refund) ==> {
            &&& refund == in_custody(old(ctx).deal)
            &&& final(ctx).deal == stepped(old(ctx).deal, DealStatus::Cancelled, now)
            &&& final(ctx).signer == old(ctx).signer
            &&& final(ctx).co_signer == old(ctx).co_signer
            &&& final(ctx).ledger@ == if old(ctx).deal.status is Funded {
                moved(
                    old(ctx).ledger@,
                    vault_of(old(ctx).deal),
                    AccountId::Wallet(old(ctx).deal.studio),
                    refund as nat,
                )
            } else {
                old(ctx).ledger@
            }
        },
        done is Err ==> *final(ctx) == *old(ctx),
        is_terminal(old(ctx).deal.status) ==> done == Err::<u64, DealError>(
            DealError::InvalidDealStatus,
        ),
        legal_step(old(ctx).deal.status, final(ctx).deal.status),
        old(ctx).deal.wf() ==> final(ctx).deal.wf(),
        custody_holds(old(ctx).deal, old(ctx).ledger@) ==> custody_holds(
            final(ctx).deal,
            final(ctx).ledger@,
        ),
{
    let by_studio = is_among(&ctx.signer, &ctx.co_signer, &ctx.deal.studio);
    let by_celebrity = is_among(&ctx.signer, &ctx.co_signer, &ctx.deal.celebrity);
    let refund = match ctx.deal.status {
        DealStatus::Completed => {
            return Err(DealError::InvalidDealStatus);
        },
        DealStatus::Cancelled => {
            return Err(DealError::InvalidDealStatus);
        },
        DealStatus::Proposed => {
            if !by_studio {
                return Err(DealError::Unauthorized);
            }
            0
        },
        DealStatus::Accepted => {
            if !(by_studio || by_celebrity) {
                return Err(DealError::Unauthorized);
            }
            0
        },
        DealStatus::Funded => {
            if !(by_studio && by_celebrity) {
                return Err(DealError::Unauthorized);
            }
            let handle = VaultHandle::for_deal(&ctx.deal);
            match ctx.ledger.transfer_from_vault(&handle, &ctx.deal.studio, ctx.deal.funded_amount) {
                Err(e) => {
                    return Err(e);
                },
                Ok(()) => {},
            }
            ctx.deal.funded_amount
        },
    };
    ctx.deal.status = DealStatus::Cancelled;
    ctx.deal.updated_at = now;
    Ok(refund)
}

} // verus!
