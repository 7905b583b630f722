//! The deal record and the graph of states it moves through.

use vstd::prelude::*;
use crate::identity::{DealId, Pubkey};

verus! {

/// The longest name a deal may carry, in characters.
pub const MAX_NAME_LEN: usize = 32;

/// The longest description a deal may carry, in characters.
pub const MAX_DESCRIPTION_LEN: usize = 96;

/// How far the studio may use what the celebrity delivers.
#[derive(Clone, Copy, Debug, PartialEq, Eq, Structural)]
pub enum UsageRights {
    Limited,
    Full,
    Custom,
}

/// Where a deal stands in its life.
#[derive(Clone, Copy, Debug, PartialEq, Eq, Structural)]
pub enum DealStatus {
    Proposed,
    Accepted,
    Funded,
    Completed,
    Cancelled,
}

/// What the two parties agreed on. The terms are recorded with the deal and
/// never change; nothing here enforces them.
#[derive(Clone, Copy, Debug, PartialEq, Eq, Structural)]
pub struct DealTerms {
    pub payment_amount: u64,
    pub duration_days: u16,
    pub usage_rights: UsageRights,
    pub exclusivity: bool,
}

/// One agreement between a studio and a celebrity.
#[derive(Debug, PartialEq, Eq)]
pub struct Deal {
    pub studio: Pubkey,
    pub celebrity: Pubkey,
    /// The registry that issued this deal.
    pub platform: Pubkey,
    /// The registry's count of deals at the moment this one was created.
    pub sequence: u64,
    pub terms: DealTerms,
    pub name: String,
    pub description: String,
    pub status: DealStatus,
    pub created_at: i64,
    pub updated_at: i64,
    /// Zero until the studio funds the deal; then the amount it put in custody.
    pub funded_amount: u64,
}

/// A state that no operation leaves.
pub open spec fn is_terminal(status: DealStatus) -> bool {
    status is Completed || status is Cancelled
}

/// The edges of the state graph: the only changes of status that any
/// operation makes.
pub open spec fn is_edge(from: DealStatus, to: DealStatus) -> bool {
    match from {
        DealStatus::Proposed => to is Accepted || to is Cancelled,
        DealStatus::Accepted => to is Funded || to is Cancelled,
        DealStatus::Funded => to is Completed || to is Cancelled,
        DealStatus::Completed => false,
        DealStatus::Cancelled => false,
    }
}

/// How far along its life a status is. Every edge of the graph goes to a
/// higher rank.
pub open spec fn rank(status: DealStatus) -> nat {
    match status {
        DealStatus::Proposed => 0,
        DealStatus::Accepted => 1,
        DealStatus::Funded => 2,
        DealStatus::Completed => 3,
        DealStatus::Cancelled => 3,
    }
}

/// A deal's status never moves backward, and a terminal state has no way out.
pub proof fn lemma_edges_go_forward(from: DealStatus, to: DealStatus)
    requires
        is_edge(from, to),
    ensures
        rank(from) < rank(to),
        !is_terminal(from),
        !is_edge(to, from),
{
}

impl Clone for Deal {
    fn clone(&self) -> (copy: Deal)
        ensures
            copy == *self,
    {
        Deal {
            studio: self.studio,
            celebrity: self.celebrity,
            platform: self.platform,
            sequence: self.sequence,
            terms: self.terms,
            name: self.name.clone(),
            description: self.description.clone(),
            status: self.status,
            created_at: self.created_at,
            updated_at: self.updated_at,
            funded_amount: self.funded_amount,
        }
    }
}

impl Deal {
    /// What holds of every deal that the library has created and moved:
    /// its texts are within bounds, and no amount is recorded before funding.
    pub open spec fn wf(&self) -> bool {
        &&& self.name@.len() <= MAX_NAME_LEN
        &&& self.description@.len() <= MAX_DESCRIPTION_LEN
        &&& (self.status is Proposed || self.status is Accepted) ==> self.funded_amount == 0
    }

    /// The identifier of this deal.
    pub open spec fn spec_id(&self) -> DealId {
        DealId { platform: self.platform, sequence: self.sequence }
    }

    /// The identifier of this deal.
    #[verifier::when_used_as_spec(spec_id)]
    pub fn id(&self) -> (id: DealId)
        ensures
            id == self.spec_id(),
    {
        DealId { platform: self.platform, sequence: self.sequence }
    }

    /// Whether the deal has reached a state that no operation leaves.
    pub fn is_settled(&self) -> (settled: bool)
        ensures
            settled == is_terminal(self.status),
    {
        match self.status {
            DealStatus::Completed => true,
            DealStatus::Cancelled => true,
            _ => false,
        }
    }
}

} // verus!
