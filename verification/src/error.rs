//! The reasons for which the ledger rejects an operation.

use vstd::prelude::*;

verus! {

/// Why an operation was rejected. A rejected operation changes nothing.
#[derive(Clone, Copy, Debug, PartialEq, Eq, Structural)]
pub enum LedgerError {
    /// The identity named by the operation did not authorize it.
    Unauthorized,
    /// The campaign's `is_active` flag is off.
    CampaignInactive,
    /// The referral's `is_active` flag is off.
    ReferralInactive,
    /// The campaign's remaining supply does not cover the operation.
    SupplyExhausted,
    /// The code presented by the claimer is not the referral's code.
    CodeMismatch,
    /// The instruction payload is not the encoding of any operation.
    DecodeError,
    /// A claims counter already holds the largest value a `u64` can.
    CounterOverflow,
    /// Fewer accounts were passed than the operation names.
    NotEnoughAccounts,
    /// The bytes stored in an account are not the encoding of the record
    /// that the operation expects there.
    InvalidAccountData,
    /// The record cannot be stored: one of its strings is longer than the
    /// layout allows, or the account is too small to hold the encoded record.
    RecordTooLarge,
}

} // verus!
