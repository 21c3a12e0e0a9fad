//! The operations that a caller can ask of the ledger.

use vstd::prelude::*;
use crate::state::Pubkey;

verus! {

/// One operation, as it arrives in an instruction payload.
#[derive(Clone, Debug, PartialEq, Eq)]
pub enum ReferralInstruction {
    /// Initialize a new referral campaign.
    ///
    /// Accounts: the creator, who must have signed; the campaign account,
    /// which receives the record; the system program.
    InitializeCampaign {
        campaign_name: String,
        campaign_description: String,
        /// Unix timestamp.
        end_date: u64,
        /// Tokens paid to the referrer for every claim.
        referrer_reward: u64,
        /// Tokens paid to the new user for every claim.
        referee_reward: u64,
        /// Tokens committed to the campaign.
        token_supply: u64,
    },
    /// Create a referral code.
    ///
    /// Accounts: the referrer, who must have signed; the referral account,
    /// which receives the record; the campaign account; the system program.
    CreateReferral {
        /// The campaign that the referral belongs to.
        campaign_id: Pubkey,
        /// The code to share.
        referral_code: String,
    },
    /// Claim the rewards of a referral code.
    ///
    /// Accounts: the claimer, who must have signed; the referral account;
    /// the referrer; the campaign account; the token issuer's state account;
    /// the system program.
    ClaimReferral {
        /// The code that the claimer presents.
        referral_code: String,
    },
}

/// What a [`ReferralInstruction`] holds, with its strings as character
/// sequences.
pub enum InstructionView {
    InitializeCampaign {
        campaign_name: Seq<char>,
        campaign_description: Seq<char>,
        end_date: u64,
        referrer_reward: u64,
        referee_reward: u64,
        token_supply: u64,
    },
    CreateReferral { campaign_id: Pubkey, referral_code: Seq<char> },
    ClaimReferral { referral_code: Seq<char> },
}

impl View for ReferralInstruction {
    type V = InstructionView;

    open spec fn view(&self) -> InstructionView {
        match self {
            ReferralInstruction::InitializeCampaign {
                campaign_name,
                campaign_description,
                end_date,
                referrer_reward,
                referee_reward,
                token_supply,
            } => InstructionView::InitializeCampaign {
                campaign_name: campaign_name@,
                campaign_description: campaign_description@,
                end_date: *end_date,
                referrer_reward: *referrer_reward,
                referee_reward: *referee_reward,
                token_supply: *token_supply,
            },
            ReferralInstruction::CreateReferral {
                campaign_id,
                referral_code,
            } => InstructionView::CreateReferral {
                campaign_id: *campaign_id,
                referral_code: referral_code@,
            },
            ReferralInstruction::ClaimReferral {
                referral_code,
            } => InstructionView::ClaimReferral { referral_code: referral_code@ },
        }
    }
}

} // verus!
