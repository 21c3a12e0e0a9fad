//! The two persistent records of the ledger and their mathematical views.

use vstd::prelude::*;

verus! {

/// A 32-byte identity: a creator, a referrer, a claimer or a campaign.
#[derive(Clone, Copy, Debug, PartialEq, Eq, Hash)]
pub struct Pubkey(pub [u8; 32]);

impl Pubkey {
    /// The identity as the sequence of its 32 bytes.
    pub open spec fn bytes(self) -> Seq<u8> {
        self.0@
    }
}

/// A reward pool together with its payout policy.
///
/// Everything but `remaining_supply` and `successful_claims` is set when the
/// campaign is initialized and no transition changes it afterwards.
#[derive(Clone, Debug, PartialEq, Eq)]
pub struct CampaignAccount {
    /// Who funds the campaign.
    pub creator: Pubkey,
    /// Display name.
    pub campaign_name: String,
    /// Display text.
    pub campaign_description: String,
    /// The campaign's deadline, in seconds since the Unix epoch. It is
    /// stored for the host's use: no transition compares it with a clock.
    pub end_date: u64,
    /// Tokens owed to the referrer for every claim.
    pub referrer_reward: u64,
    /// Tokens owed to the referee for every claim.
    pub referee_reward: u64,
    /// Tokens committed when the campaign was initialized.
    pub token_supply: u64,
    /// Tokens not yet claimed. Every claim takes both rewards out of it.
    pub remaining_supply: u64,
    /// How many claims have been accepted.
    pub successful_claims: u64,
    /// Whether referrals may be created and claims made against the
    /// campaign. No transition turns it off.
    pub is_active: bool,
}

/// What a [`CampaignAccount`] holds, with its strings as character sequences.
pub struct CampaignView {
    pub creator: Pubkey,
    pub campaign_name: Seq<char>,
    pub campaign_description: Seq<char>,
    pub end_date: u64,
    pub referrer_reward: u64,
    pub referee_reward: u64,
    pub token_supply: u64,
    pub remaining_supply: u64,
    pub successful_claims: u64,
    pub is_active: bool,
}

impl View for CampaignAccount {
    type V = CampaignView;

    open spec fn view(&self) -> CampaignView {
        CampaignView {
            creator: self.creator,
            campaign_name: self.campaign_name@,
            campaign_description: self.campaign_description@,
            end_date: self.end_date,
            referrer_reward: self.referrer_reward,
            referee_reward: self.referee_reward,
            token_supply: self.token_supply,
            remaining_supply: self.remaining_supply,
            successful_claims: self.successful_claims,
            is_active: self.is_active,
        }
    }
}

impl CampaignView {
    /// The tokens that one claim takes out of the campaign: the referrer's
    /// reward and the referee's reward together.
    pub open spec fn claim_cost(self) -> int {
        self.referrer_reward + self.referee_reward
    }

    /// The remaining supply never exceeds the committed supply.
    pub open spec fn supply_bounded(self) -> bool {
        self.remaining_supply <= self.token_supply
    }

    /// Supply conservation: what remains and what the claims so far have
    /// taken add up to the committed supply.
    pub open spec fn supply_conserved(self) -> bool {
        self.remaining_supply + self.successful_claims * self.claim_cost() == self.token_supply
    }
}

/// A shareable code, owned by a referrer and scoped to one campaign.
///
/// Everything but `successful_claims` is set when the referral is created
/// and no transition changes it afterwards.
#[derive(Clone, Debug, PartialEq, Eq)]
pub struct ReferralAccount {
    /// The campaign that the code is scoped to.
    pub campaign_id: Pubkey,
    /// Who created the code and is rewarded for its claims.
    pub referrer: Pubkey,
    /// The code that claimers present.
    pub referral_code: String,
    /// How many claims have been accepted through this code.
    pub successful_claims: u64,
    /// Whether the code may be claimed. No transition turns it off.
    pub is_active: bool,
}

/// What a [`ReferralAccount`] holds, with its code as a character sequence.
pub struct ReferralView {
    pub campaign_id: Pubkey,
    pub referrer: Pubkey,
    pub referral_code: Seq<char>,
    pub successful_claims: u64,
    pub is_active: bool,
}

impl View for ReferralAccount {
    type V = ReferralView;

    open spec fn view(&self) -> ReferralView {
        ReferralView {
            campaign_id: self.campaign_id,
            referrer: self.referrer,
            referral_code: self.referral_code@,
            successful_claims: self.successful_claims,
            is_active: self.is_active,
        }
    }
}

} // verus!
