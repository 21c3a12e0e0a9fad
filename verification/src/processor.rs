//! Instructions against accounts.
//!
//! An instruction arrives as a payload and a list of accounts. The payload
//! tells the operation; the accounts hold who asks and the records that the
//! operation reads and rewrites. [`process_instruction`] decodes the payload,
//! finds the records in the accounts, hands them to the transition of
//! [`crate::engine`], and writes what the transition returns back into the
//! accounts. A rejected instruction leaves every account as it was.
//!
//! The caller is always the first account. Once the payload is decoded,
//! authorization is checked before anything else: an unsigned caller is
//! told so even where accounts are missing or hold no valid record.

use vstd::prelude::*;
use crate::account::{account_views, store, stored, AccountInfo, AccountView};
use crate::engine::{
    campaign_after_claim, claim_referral, claim_rejection, create_referral, initial_campaign,
    initial_referral, initialize_campaign, referral_after_claim, referral_rejection,
    reward_intent, RewardIntent,
};
use crate::error::LedgerError;
use crate::instruction::{InstructionView, ReferralInstruction};
use crate::layout::campaign::{
    campaign_bytes, campaign_decoding, campaign_encodable, lemma_campaign_same_length,
};
use crate::layout::instruction::instruction_decoding;
use crate::layout::referral::{
    lemma_referral_same_length, referral_bytes, referral_decoding, referral_encodable,
};
use crate::state::{CampaignAccount, Pubkey, ReferralAccount};

verus! {

/// The accounts that `InitializeCampaign` names: the creator, the campaign
/// account and the system program.
pub const INITIALIZE_CAMPAIGN_ACCOUNTS: usize = 3;

/// The accounts that `CreateReferral` names: the referrer, the referral
/// account, the campaign account and the system program.
pub const CREATE_REFERRAL_ACCOUNTS: usize = 4;

/// The accounts that `ClaimReferral` names: the claimer, the referral
/// account, the referrer, the campaign account, the token issuer's state
/// account and the system program.
pub const CLAIM_REFERRAL_ACCOUNTS: usize = 6;

/// The reason, if any, for which an operation that names `needed` accounts
/// cannot start on `accounts`: there is no caller, the caller has not signed,
/// or accounts are missing.
pub open spec fn caller_rejection(accounts: Seq<AccountView>, needed: int) -> Option<
    LedgerError,
> {
    if accounts.len() == 0 {
        Some(LedgerError::NotEnoughAccounts)
    } else if !accounts[0].is_signer {
        Some(LedgerError::Unauthorized)
    } else if accounts.len() < needed {
        Some(LedgerError::NotEnoughAccounts)
    } else {
        None
    }
}

/// Whether `bytes` can be written over the front of `data`.
pub open spec fn fits(bytes: Seq<u8>, data: Seq<u8>) -> bool {
    bytes.len() <= data.len()
}

/// What `InitializeCampaign` does to `accounts`: the accounts afterwards, or
/// the reason for which it is rejected. The new campaign is written into the
/// second account.
pub open spec fn initialize_campaign_effect(
    accounts: Seq<AccountView>,
    campaign_name: Seq<char>,
    campaign_description: Seq<char>,
    end_date: u64,
    referrer_reward: u64,
    referee_reward: u64,
    token_supply: u64,
) -> Result<Seq<AccountView>, LedgerError> {
    if let Some(e) = caller_rejection(accounts, INITIALIZE_CAMPAIGN_ACCOUNTS as int) {
        Err(e)
    } else {
        let campaign = initial_campaign(
            accounts[0].key,
            campaign_name,
            campaign_description,
            end_date,
            referrer_reward,
            referee_reward,
            token_supply,
        );
        if !campaign_encodable(campaign) || !fits(campaign_bytes(campaign), accounts[1].data) {
            Err(LedgerError::RecordTooLarge)
        } else {
            Ok(stored(accounts, 1, campaign_bytes(campaign)))
        }
    }
}

/// What `CreateReferral` does to `accounts`: the accounts afterwards, or the
/// reason for which it is rejected. The campaign is read from the third
/// account and the new referral is written into the second.
pub open spec fn create_referral_effect(
    accounts: Seq<AccountView>,
    campaign_id: Pubkey,
    referral_code: Seq<char>,
) -> Result<Seq<AccountView>, LedgerError> {
    if let Some(e) = caller_rejection(accounts, CREATE_REFERRAL_ACCOUNTS as int) {
        Err(e)
    } else if let Some(campaign) = campaign_decoding(accounts[2].data) {
        if let Some(e) = referral_rejection(true, campaign) {
            Err(e)
        } else {
            let referral = initial_referral(campaign_id, accounts[0].key, referral_code);
            if !referral_encodable(referral) || !fits(referral_bytes(referral), accounts[1].data) {
                Err(LedgerError::RecordTooLarge)
            } else {
                Ok(stored(accounts, 1, referral_bytes(referral)))
            }
        }
    } else {
        Err(LedgerError::InvalidAccountData)
    }
}

/// What `ClaimReferral` does to `accounts`: the accounts afterwards and the
/// rewards owed, or the reason for which it is rejected. The referral is
/// read from the second account and the campaign from the fourth, and each
/// is written back where it was read.
pub open spec fn claim_referral_effect(
    accounts: Seq<AccountView>,
    referral_code: Seq<char>,
) -> Result<(Seq<AccountView>, RewardIntent), LedgerError> {
    if let Some(e) = caller_rejection(accounts, CLAIM_REFERRAL_ACCOUNTS as int) {
        Err(e)
    } else if let Some(referral) = referral_decoding(accounts[1].data) {
        if let Some(campaign) = campaign_decoding(accounts[3].data) {
            if let Some(e) = claim_rejection(true, referral, campaign, referral_code) {
                Err(e)
            } else {
                Ok(
                    (
                        stored(
                            stored(accounts, 3, campaign_bytes(campaign_after_claim(campaign))),
                            1,
                            referral_bytes(referral_after_claim(referral)),
                        ),
                        reward_intent(accounts[0].key, referral, campaign),
                    ),
                )
            }
        } else {
            Err(LedgerError::InvalidAccountData)
        }
    } else {
        Err(LedgerError::InvalidAccountData)
    }
}

/// What the instruction encoded in `instruction_data` does to `accounts`:
/// the accounts afterwards and, for a claim, the rewards owed; or the reason
/// for which it is rejected.
pub open spec fn instruction_effect(
    accounts: Seq<AccountView>,
    instruction_data: Seq<u8>,
) -> Result<(Seq<AccountView>, Option<RewardIntent>), LedgerError> {
    match instruction_decoding(instruction_data) {
        None => Err(LedgerError::DecodeError),
        Some(
            InstructionView::InitializeCampaign {
                campaign_name,
                campaign_description,
                end_date,
                referrer_reward,
                referee_reward,
                token_supply,
            },
        ) => match initialize_campaign_effect(
            accounts,
            campaign_name,
            campaign_description,
            end_date,
            referrer_reward,
            referee_reward,
            token_supply,
        ) {
            Ok(after) => Ok((after, None)),
            Err(e) => Err(e),
        },
        Some(
            InstructionView::CreateReferral { campaign_id, referral_code },
        ) => match create_referral_effect(accounts, campaign_id, referral_code) {
            Ok(after) => Ok((after, None)),
            Err(e) => Err(e),
        },
        Some(InstructionView::ClaimReferral { referral_code }) => match claim_referral_effect(
            accounts,
            referral_code,
        ) {
            Ok((after, intent)) => Ok((after, Some(intent))),
            Err(e) => Err(e),
        },
    }
}

/// Checks that `accounts` has a first account, that it has signed, and that
/// there are at least `needed` accounts.
fn check_caller(accounts: &Vec<AccountInfo>, needed: usize) -> (r: Result<(), LedgerError>)
    ensures
        match r {
            Ok(()) => caller_rejection(account_views(accounts@), needed as int) is None,
            Err(e) => caller_rejection(account_views(accounts@), needed as int) == Some(e),
        },
{
    if accounts.len() == 0 {
        return Err(LedgerError::NotEnoughAccounts);
    }
    if !accounts[0].is_signer {
        return Err(LedgerError::Unauthorized);
    }
    if accounts.len() < needed {
        return Err(LedgerError::NotEnoughAccounts);
    }
    Ok(())
}

/// Initializes a campaign for the first account and stores it in the second.
///
/// `_program_id` names the program that the instruction is addressed to;
/// the operation does not depend on it.
pub fn process_initialize_campaign(
    _program_id: &Pubkey,
    accounts: &mut Vec<AccountInfo>,
    campaign_name: String,
    campaign_description: String,
    end_date: u64,
    referrer_reward: u64,
    referee_reward: u64,
    token_supply: u64,
) -> (r: Result<(), LedgerError>)
    ensures
        match r {
            Ok(()) => initialize_campaign_effect(
                account_views(old(accounts)@),
                campaign_name@,
                campaign_description@,
                end_date,
                referrer_reward,
                referee_reward,
                token_supply,
            ) == Ok::<Seq<AccountView>, LedgerError>(account_views(final(accounts)@)),
            Err(e) => initialize_campaign_effect(
                account_views(old(accounts)@),
                campaign_name@,
                campaign_description@,
                end_date,
                referrer_reward,
                referee_reward,
                token_supply,
            ) == Err::<Seq<AccountView>, LedgerError>(e) && *final(accounts) == *old(accounts),
        },
{
    check_caller(accounts, INITIALIZE_CAMPAIGN_ACCOUNTS)?;
    let campaign = initialize_campaign(
        accounts[0].key,
        accounts[0].is_signer,
        campaign_name,
        campaign_description,
        end_date,
        referrer_reward,
        referee_reward,
        token_supply,
    )?;
    let bytes = match campaign.try_to_vec() {
        Some(bytes) => bytes,
        None => return Err(LedgerError::RecordTooLarge),
    };
    if bytes.len() > accounts[1].data.len() {
        return Err(LedgerError::RecordTooLarge);
    }
    store(accounts, 1, bytes);
    Ok(())
}

/// Creates a referral for the first account against the campaign stored in
/// the third, and stores the referral in the second.
///
/// `_program_id` names the program that the instruction is addressed to;
/// the operation does not depend on it.
pub fn process_create_referral(
    _program_id: &Pubkey,
    accounts: &mut Vec<AccountInfo>,
    campaign_id: Pubkey,
    referral_code: String,
) -> (r: Result<(), LedgerError>)
    ensures
        match r {
            Ok(()) => create_referral_effect(
                account_views(old(accounts)@),
                campaign_id,
                referral_code@,
            ) == Ok::<Seq<AccountView>, LedgerError>(account_views(final(accounts)@)),
            Err(e) => create_referral_effect(
                account_views(old(accounts)@),
                campaign_id,
                referral_code@,
            ) == Err::<Seq<AccountView>, LedgerError>(e) && *final(accounts) == *old(accounts),
        },
{
    check_caller(accounts, CREATE_REFERRAL_ACCOUNTS)?;
    let campaign = match CampaignAccount::try_from_slice(accounts[2].data.as_slice()) {
        Some(campaign) => campaign,
        None => return Err(LedgerError::InvalidAccountData),
    };
    let referral = create_referral(
        accounts[0].key,
        accounts[0].is_signer,
        campaign_id,
        referral_code,
        &campaign,
    )?;
    let bytes = match referral.try_to_vec() {
        Some(bytes) => bytes,
        None => return Err(LedgerError::RecordTooLarge),
    };
    if bytes.len() > accounts[1].data.len() {
        return Err(LedgerError::RecordTooLarge);
    }
    store(accounts, 1, bytes);
    Ok(())
}

/// Claims `referral_code` for the first account, through the referral stored
/// in the second account and against the campaign stored in the fourth, and
/// stores both records back. Returns the rewards that are owed for the claim.
///
/// `_program_id` names the program that the instruction is addressed to;
/// the operation does not depend on it.
pub fn process_claim_referral(
    _program_id: &Pubkey,
    accounts: &mut Vec<AccountInfo>,
    referral_code: String,
) -> (r: Result<RewardIntent, LedgerError>)
    ensures
        match r {
            Ok(intent) => claim_referral_effect(account_views(old(accounts)@), referral_code@)
                == Ok::<(Seq<AccountView>, RewardIntent), LedgerError>(
                (account_views(final(accounts)@), intent),
            ),
            Err(e) => claim_referral_effect(account_views(old(accounts)@), referral_code@)
                == Err::<(Seq<AccountView>, RewardIntent), LedgerError>(e) && *final(accounts)
                == *old(accounts),
        },
{
    check_caller(accounts, CLAIM_REFERRAL_ACCOUNTS)?;
    let referral = match ReferralAccount::try_from_slice(accounts[1].data.as_slice()) {
        Some(referral) => referral,
        None => return Err(LedgerError::InvalidAccountData),
    };
    let campaign = match CampaignAccount::try_from_slice(accounts[3].data.as_slice()) {
        Some(campaign) => campaign,
        None => return Err(LedgerError::InvalidAccountData),
    };
    let outcome = claim_referral(
        accounts[0].key,
        accounts[0].is_signer,
        &referral,
        &campaign,
        &referral_code,
    )?;
    proof {
        lemma_campaign_same_length(campaign@, outcome.campaign@);
        lemma_referral_same_length(referral@, outcome.referral@);
    }
    let campaign_bytes = outcome.campaign.try_to_vec().unwrap();
    let referral_bytes = outcome.referral.try_to_vec().unwrap();
    store(accounts, 3, campaign_bytes);
    store(accounts, 1, referral_bytes);
    Ok(outcome.intent)
}

/// Carries out the instruction encoded in `instruction_data` on `accounts`.
///
/// Returns the rewards owed where the instruction was a claim, and `None`
/// for the other operations.
pub fn process_instruction(
    program_id: &Pubkey,
    accounts: &mut Vec<AccountInfo>,
    instruction_data: &[u8],
) -> (r: Result<Option<RewardIntent>, LedgerError>)
    ensures
        match r {
            Ok(intent) => instruction_effect(account_views(old(accounts)@), instruction_data@)
                == Ok::<(Seq<AccountView>, Option<RewardIntent>), LedgerError>(
                (account_views(final(accounts)@), intent),
            ),
            Err(e) => {
                &&& instruction_effect(account_views(old(accounts)@), instruction_data@) == Err::<
                    (Seq<AccountView>, Option<RewardIntent>),
                    LedgerError,
                >(e)
                &&& *final(accounts) == *old(accounts)
            },
        },
{
    let instruction = match ReferralInstruction::try_from_slice(instruction_data) {
        Some(instruction) => instruction,
        None => return Err(LedgerError::DecodeError),
    };
    match instruction {
        ReferralInstruction::InitializeCampaign {
            campaign_name,
            campaign_description,
            end_date,
            referrer_reward,
            referee_reward,
            token_supply,
        } => {
            process_initialize_campaign(
                program_id,
                accounts,
                campaign_name,
                campaign_description,
                end_date,
                referrer_reward,
                referee_reward,
                token_supply,
            )?;
            Ok(None)
        },
        ReferralInstruction::CreateReferral { campaign_id, referral_code } => {
            process_create_referral(program_id, accounts, campaign_id, referral_code)?;
            Ok(None)
        },
        ReferralInstruction::ClaimReferral { referral_code } => {
            let intent = process_claim_referral(program_id, accounts, referral_code)?;
            Ok(Some(intent))
        },
    }
}

} // verus!
