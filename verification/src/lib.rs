//! Escrow deals between a studio and a celebrity: the platform registry, the
//! deal state machine, and the accounting of the funds held in custody.

pub mod deal;
pub mod engine;
pub mod error;
pub mod fees;
pub mod identity;
pub mod ledger;
pub mod registry;

pub use deal::{Deal, DealStatus, DealTerms, UsageRights};
pub use engine::{
    accept_deal, cancel_deal, complete_deal, create_deal, fund_deal, CancelDeal, CompleteDeal,
    CreateDeal, FundDeal, UpdateDeal,
};
pub use error::DealError;
pub use fees::Settlement;
pub use identity::{AccountId, DealId, Pubkey};
pub use ledger::{Ledger, VaultHandle};
pub use registry::{
    initialize_platform, update_platform_fee, InitializePlatform, Platform, UpdatePlatform,
};
