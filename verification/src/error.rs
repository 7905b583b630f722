//! The failures that an operation on the registry, a deal or the ledger can
//! report.

use vstd::prelude::*;

verus! {

/// Why an operation was refused. A refused operation changes nothing.
#[derive(Clone, Copy, Debug, PartialEq, Eq, Structural)]
pub enum DealError {
    /// The caller is not the party, or not all of the parties, whose consent
    /// the operation needs.
    Unauthorized,
    /// The deal is not in a state from which the operation may start.
    InvalidDealStatus,
    /// The requested fee rate is above ten percent.
    FeeTooHigh,
    /// The record to be created exists already.
    AlreadyInitialized,
    /// A quantity does not fit in sixty-four bits.
    ArithmeticOverflow,
    /// A quantity would fall below zero.
    ArithmeticUnderflow,
    /// The ledger refused a transfer: the source holds too little, or the
    /// destination cannot hold more.
    LedgerTransferFailed,
    /// The deal's name is longer than `MAX_NAME_LEN` characters.
    NameTooLong,
    /// The deal's description is longer than `MAX_DESCRIPTION_LEN` characters.
    DescriptionTooLong,
}

} // verus!
