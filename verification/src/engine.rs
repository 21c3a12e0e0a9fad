//! The three state transitions of the ledger.
//!
//! Each transition reads the snapshots it is given, checks its preconditions
//! in a fixed order, and returns either the records to persist or the first
//! precondition that failed. The snapshots are only borrowed: a rejected
//! operation leaves nothing behind.

use vstd::prelude::*;
use crate::error::LedgerError;
use crate::state::{CampaignAccount, CampaignView, Pubkey, ReferralAccount, ReferralView};

verus! {

/// An order to hand `amount` tokens to `recipient`.
#[derive(Clone, Copy, Debug, PartialEq, Eq)]
pub struct Payout {
    pub recipient: Pubkey,
    pub amount: u64,
}

/// The rewards owed for one successful claim. The ledger only records that
/// they are owed; paying them out is the token issuer's work.
#[derive(Clone, Copy, Debug, PartialEq, Eq)]
pub struct RewardIntent {
    pub to_referee: Payout,
    pub to_referrer: Payout,
}

/// What a successful claim produces. The two records belong together and
/// must be persisted as one unit.
#[derive(Clone, Debug, PartialEq, Eq)]
pub struct ClaimOutcome {
    pub campaign: CampaignAccount,
    pub referral: ReferralAccount,
    pub intent: RewardIntent,
}

/// The reason, if any, for which a campaign cannot be initialized: only a
/// missing authorization.
pub open spec fn initialization_rejection(authorized: bool) -> Option<LedgerError> {
    if !authorized {
        Some(LedgerError::Unauthorized)
    } else {
        None
    }
}

/// The campaign that initialization produces: the whole supply remains,
/// nothing has been claimed, and the campaign is active.
pub open spec fn initial_campaign(
    creator: Pubkey,
    campaign_name: Seq<char>,
    campaign_description: Seq<char>,
    end_date: u64,
    referrer_reward: u64,
    referee_reward: u64,
    token_supply: u64,
) -> CampaignView {
    CampaignView {
        creator,
        campaign_name,
        campaign_description,
        end_date,
        referrer_reward,
        referee_reward,
        token_supply,
        remaining_supply: token_supply,
        successful_claims: 0,
        is_active: true,
    }
}

/// The first reason, if any, for which a referral cannot be created
/// against `campaign`.
pub open spec fn referral_rejection(authorized: bool, campaign: CampaignView) -> Option<
    LedgerError,
> {
    if !authorized {
        Some(LedgerError::Unauthorized)
    } else if !campaign.is_active {
        Some(LedgerError::CampaignInactive)
    } else if campaign.remaining_supply == 0 {
        Some(LedgerError::SupplyExhausted)
    } else {
        None
    }
}

/// The referral that creation produces: active, with no claims yet.
pub open spec fn initial_referral(
    campaign_id: Pubkey,
    referrer: Pubkey,
    referral_code: Seq<char>,
) -> ReferralView {
    ReferralView { campaign_id, referrer, referral_code, successful_claims: 0, is_active: true }
}

/// The first reason, if any, for which `claimed_code` cannot be claimed
/// through `referral` against `campaign`.
pub open spec fn claim_rejection(
    authorized: bool,
    referral: ReferralView,
    campaign: CampaignView,
    claimed_code: Seq<char>,
) -> Option<LedgerError> {
    if !authorized {
        Some(LedgerError::Unauthorized)
    } else if !referral.is_active {
        Some(LedgerError::ReferralInactive)
    } else if referral.referral_code != claimed_code {
        Some(LedgerError::CodeMismatch)
    } else if !campaign.is_active {
        Some(LedgerError::CampaignInactive)
    } else if campaign.remaining_supply < campaign.claim_cost() {
        Some(LedgerError::SupplyExhausted)
    } else if campaign.successful_claims == u64::MAX || referral.successful_claims == u64::MAX {
        Some(LedgerError::CounterOverflow)
    } else {
        None
    }
}

/// The campaign after one more claim has been paid out of it.
pub open spec fn campaign_after_claim(campaign: CampaignView) -> CampaignView {
    CampaignView {
        remaining_supply: (campaign.remaining_supply - campaign.claim_cost()) as u64,
        successful_claims: (campaign.successful_claims + 1) as u64,
        ..campaign
    }
}

/// The referral after one more claim has gone through it.
pub open spec fn referral_after_claim(referral: ReferralView) -> ReferralView {
    ReferralView { successful_claims: (referral.successful_claims + 1) as u64, ..referral }
}

/// The rewards owed when `claimer` claims through `referral` against
/// `campaign`: the referee's reward to the claimer, the referrer's reward to
/// the referral's owner.
pub open spec fn reward_intent(
    claimer: Pubkey,
    referral: ReferralView,
    campaign: CampaignView,
) -> RewardIntent {
    RewardIntent {
        to_referee: Payout { recipient: claimer, amount: campaign.referee_reward },
        to_referrer: Payout { recipient: referral.referrer, amount: campaign.referrer_reward },
    }
}

/// Creates a campaign that `creator` funds with `token_supply` tokens.
///
/// The only precondition is the creator's authorization. Rewards and supply
/// are taken as given, whatever their magnitudes.
pub fn initialize_campaign(
    creator: Pubkey,
    creator_is_authorized: bool,
    campaign_name: String,
    campaign_description: String,
    end_date: u64,
    referrer_reward: u64,
    referee_reward: u64,
    token_supply: u64,
) -> (r: Result<CampaignAccount, LedgerError>)
    ensures
        match r {
            Ok(campaign) => initialization_rejection(creator_is_authorized) is None
                && campaign@ == initial_campaign(
                creator,
                campaign_name@,
                campaign_description@,
                end_date,
                referrer_reward,
                referee_reward,
                token_supply,
            ),
            Err(e) => initialization_rejection(creator_is_authorized) == Some(e),
        },
{
    if !creator_is_authorized {
        return Err(LedgerError::Unauthorized);
    }
    Ok(
        CampaignAccount {
            creator,
            campaign_name,
            campaign_description,
            end_date,
            referrer_reward,
            referee_reward,
            token_supply,
            remaining_supply: token_supply,
            successful_claims: 0,
            is_active: true,
        },
    )
}

/// Registers `referral_code` for `referrer` against the campaign `campaign_id`,
/// whose current state is `campaign`.
///
/// The code is not checked for uniqueness: two referrals may carry the same
/// code and are then distinct records.
pub fn create_referral(
    referrer: Pubkey,
    referrer_is_authorized: bool,
    campaign_id: Pubkey,
    referral_code: String,
    campaign: &CampaignAccount,
) -> (r: Result<ReferralAccount, LedgerError>)
    ensures
        match r {
            Ok(referral) => referral_rejection(referrer_is_authorized, campaign@) is None
                && referral@ == initial_referral(campaign_id, referrer, referral_code@),
            Err(e) => referral_rejection(referrer_is_authorized, campaign@) == Some(e),
        },
{
    if !referrer_is_authorized {
        return Err(LedgerError::Unauthorized);
    }
    if !campaign.is_active {
        return Err(LedgerError::CampaignInactive);
    }
    if campaign.remaining_supply == 0 {
        return Err(LedgerError::SupplyExhausted);
    }
    Ok(
        ReferralAccount {
            campaign_id,
            referrer,
            referral_code,
            successful_claims: 0,
            is_active: true,
        },
    )
}

/// Claims `claimed_code` for `claimer` through `referral` against `campaign`.
///
/// On success the campaign has paid one claim more and both claim counters
/// have advanced by one. Nothing records who has claimed, so the same code
/// can be claimed again for as long as the supply lasts.
pub fn claim_referral(
    claimer: Pubkey,
    claimer_is_authorized: bool,
    referral: &ReferralAccount,
    campaign: &CampaignAccount,
    claimed_code: &String,
) -> (r: Result<ClaimOutcome, LedgerError>)
    ensures
        match r {
            Ok(out) => {
                &&& claim_rejection(claimer_is_authorized, referral@, campaign@, claimed_code@)
                    is None
                &&& out.campaign@ == campaign_after_claim(campaign@)
                &&& out.referral@ == referral_after_claim(referral@)
                &&& out.intent == reward_intent(claimer, referral@, campaign@)
            },
            Err(e) => claim_rejection(claimer_is_authorized, referral@, campaign@, claimed_code@)
                == Some(e),
        },
{
    if !claimer_is_authorized {
        return Err(LedgerError::Unauthorized);
    }
    if !referral.is_active {
        return Err(LedgerError::ReferralInactive);
    }
    if referral.referral_code != *claimed_code {
        return Err(LedgerError::CodeMismatch);
    }
    if !campaign.is_active {
        return Err(LedgerError::CampaignInactive);
    }
    let cost: u128 = campaign.referrer_reward as u128 + campaign.referee_reward as u128;
    if (campaign.remaining_supply as u128) < cost {
        return Err(LedgerError::SupplyExhausted);
    }
    if campaign.successful_claims == u64::MAX || referral.successful_claims == u64::MAX {
        return Err(LedgerError::CounterOverflow);
    }
    let paid: u64 = campaign.referrer_reward + campaign.referee_reward;
    Ok(
        ClaimOutcome {
            campaign: CampaignAccount {
                creator: campaign.creator,
                campaign_name: campaign.campaign_name.clone(),
                campaign_description: campaign.campaign_description.clone(),
                end_date: campaign.end_date,
                referrer_reward: campaign.referrer_reward,
                referee_reward: campaign.referee_reward,
                token_supply: campaign.token_supply,
                remaining_supply: campaign.remaining_supply - paid,
                successful_claims: campaign.successful_claims + 1,
                is_active: campaign.is_active,
            },
            referral: ReferralAccount {
                campaign_id: referral.campaign_id,
                referrer: referral.referrer,
                referral_code: referral.referral_code.clone(),
                successful_claims: referral.successful_claims + 1,
                is_active: referral.is_active,
            },
            intent: RewardIntent {
                to_referee: Payout { recipient: claimer, amount: campaign.referee_reward },
                to_referrer: Payout {
                    recipient: referral.referrer,
                    amount: campaign.referrer_reward,
                },
            },
        },
    )
}

} // verus!
