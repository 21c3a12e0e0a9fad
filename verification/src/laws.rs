//! What holds of the ledger across operations.
//!
//! The transitions' own contracts say what one call does. The proof functions
//! here state what follows from them. For campaigns over their whole life:
//! the supply is conserved by every claim and never leaves its bounds. For
//! every operation: who has not authorized it is turned away, whatever else
//! holds. For the accounts: what an accepted operation stores is read back as
//! the records that the transition produced, both records of a claim or
//! neither.

use vstd::prelude::*;
use crate::account::{overwritten, AccountView};
use crate::engine::{
    campaign_after_claim, claim_rejection, initial_campaign, initial_referral,
    initialization_rejection, referral_after_claim, referral_rejection, RewardIntent,
};
use crate::error::LedgerError;
use crate::layout::campaign::{
    campaign_bytes, campaign_decoding, lemma_campaign_round_trip, lemma_campaign_same_length,
};
use crate::layout::instruction::instruction_decoding;
use crate::layout::referral::{
    lemma_referral_round_trip, lemma_referral_same_length, referral_bytes, referral_decoding,
};
use crate::processor::{
    caller_rejection, claim_referral_effect, create_referral_effect,
    initialize_campaign_effect, instruction_effect, CLAIM_REFERRAL_ACCOUNTS,
};
use crate::state::{CampaignView, Pubkey, ReferralView};

verus! {

/// One attempt to claim against a campaign: with what authorization,
/// through which referral and with which code.
pub struct ClaimAttempt {
    pub claimer_is_authorized: bool,
    pub referral: ReferralView,
    pub claimed_code: Seq<char>,
}

/// The campaign that results when `attempts` are made in order against
/// `start`: an accepted attempt pays one claim, a rejected one changes nothing.
pub open spec fn campaign_after_attempts(
    start: CampaignView,
    attempts: Seq<ClaimAttempt>,
) -> CampaignView
    decreases attempts.len(),
{
    if attempts.len() == 0 {
        start
    } else {
        let before = campaign_after_attempts(start, attempts.drop_last());
        let attempt = attempts.last();
        if claim_rejection(
            attempt.claimer_is_authorized,
            attempt.referral,
            before,
            attempt.claimed_code,
        ) is None {
            campaign_after_claim(before)
        } else {
            before
        }
    }
}

/// A freshly initialized campaign has its whole supply left, no claims, and
/// is active, whatever the magnitudes of its rewards and supply; its supply
/// is therefore conserved and within bounds.
pub proof fn lemma_initial_campaign_is_full(
    creator: Pubkey,
    campaign_name: Seq<char>,
    campaign_description: Seq<char>,
    end_date: u64,
    referrer_reward: u64,
    referee_reward: u64,
    token_supply: u64,
)
    ensures
        ({
            let campaign = initial_campaign(
                creator,
                campaign_name,
                campaign_description,
                end_date,
                referrer_reward,
                referee_reward,
                token_supply,
            );
            &&& campaign.remaining_supply == token_supply
            &&& campaign.successful_claims == 0
            &&& campaign.is_active
            &&& campaign.supply_conserved()
            &&& campaign.supply_bounded()
        }),
{
}

/// An accepted claim takes exactly the two rewards out of the remaining
/// supply, advances both claim counters by exactly one, and changes nothing
/// else in either record.
pub proof fn lemma_claim_moves_exactly_one_claim(
    claimer_is_authorized: bool,
    referral: ReferralView,
    campaign: CampaignView,
    claimed_code: Seq<char>,
)
    requires
        claim_rejection(claimer_is_authorized, referral, campaign, claimed_code) is None,
    ensures
        campaign_after_claim(campaign).remaining_supply == campaign.remaining_supply - (
        campaign.referrer_reward + campaign.referee_reward),
        campaign_after_claim(campaign).successful_claims == campaign.successful_claims + 1,
        referral_after_claim(referral).successful_claims == referral.successful_claims + 1,
        campaign_after_claim(campaign) == (CampaignView {
            remaining_supply: campaign_after_claim(campaign).remaining_supply,
            successful_claims: campaign_after_claim(campaign).successful_claims,
            ..campaign
        }),
        referral_after_claim(referral) == (ReferralView {
            successful_claims: referral_after_claim(referral).successful_claims,
            ..referral
        }),
{
}

/// An accepted claim keeps the supply conserved.
pub proof fn lemma_claim_conserves_supply(
    claimer_is_authorized: bool,
    referral: ReferralView,
    campaign: CampaignView,
    claimed_code: Seq<char>,
)
    requires
        campaign.supply_conserved(),
        claim_rejection(claimer_is_authorized, referral, campaign, claimed_code) is None,
    ensures
        campaign_after_claim(campaign).supply_conserved(),
{
    let claims = campaign.successful_claims as int;
    let cost = campaign.claim_cost();
    assert((claims + 1) * cost == claims * cost + cost) by (nonlinear_arith);
}

/// An accepted claim keeps the remaining supply within the committed supply.
pub proof fn lemma_claim_keeps_supply_bounded(
    claimer_is_authorized: bool,
    referral: ReferralView,
    campaign: CampaignView,
    claimed_code: Seq<char>,
)
    requires
        campaign.supply_bounded(),
        claim_rejection(claimer_is_authorized, referral, campaign, claimed_code) is None,
    ensures
        campaign_after_claim(campaign).supply_bounded(),
{
}

/// A campaign whose supply is conserved has its remaining supply within
/// bounds: `0 <= remaining_supply <= token_supply`.
pub proof fn lemma_conserved_supply_is_bounded(campaign: CampaignView)
    requires
        campaign.supply_conserved(),
    ensures
        0 <= campaign.remaining_supply <= campaign.token_supply,
        campaign.supply_bounded(),
{
    let claims = campaign.successful_claims as int;
    let cost = campaign.claim_cost();
    assert(0 <= claims * cost) by (nonlinear_arith)
        requires
            0 <= claims,
            0 <= cost,
    ;
}

/// At every state that a campaign reaches from its initialization by claim
/// attempts, accepted or rejected, the remaining supply and the supply taken
/// by the claims so far add up to the committed supply, and the remaining
/// supply lies between zero and the committed supply.
pub proof fn lemma_supply_invariant(
    creator: Pubkey,
    campaign_name: Seq<char>,
    campaign_description: Seq<char>,
    end_date: u64,
    referrer_reward: u64,
    referee_reward: u64,
    token_supply: u64,
    attempts: Seq<ClaimAttempt>,
)
    ensures
        ({
            let campaign = campaign_after_attempts(
                initial_campaign(
                    creator,
                    campaign_name,
                    campaign_description,
                    end_date,
                    referrer_reward,
                    referee_reward,
                    token_supply,
                ),
                attempts,
            );
            &&& campaign.remaining_supply + campaign.successful_claims * (campaign.referrer_reward
                + campaign.referee_reward) == campaign.token_supply
            &&& 0 <= campaign.remaining_supply <= campaign.token_supply
            &&& campaign.token_supply == token_supply
            &&& campaign.referrer_reward == referrer_reward
            &&& campaign.referee_reward == referee_reward
        }),
    decreases attempts.len(),
{
    let start = initial_campaign(
        creator,
        campaign_name,
        campaign_description,
        end_date,
        referrer_reward,
        referee_reward,
        token_supply,
    );
    if attempts.len() == 0 {
        lemma_initial_campaign_is_full(
            creator,
            campaign_name,
            campaign_description,
            end_date,
            referrer_reward,
            referee_reward,
            token_supply,
        );
    } else {
        lemma_supply_invariant(
            creator,
            campaign_name,
            campaign_description,
            end_date,
            referrer_reward,
            referee_reward,
            token_supply,
            attempts.drop_last(),
        );
        let before = campaign_after_attempts(start, attempts.drop_last());
        let attempt = attempts.last();
        if claim_rejection(
            attempt.claimer_is_authorized,
            attempt.referral,
            before,
            attempt.claimed_code,
        ) is None {
            lemma_claim_conserves_supply(
                attempt.claimer_is_authorized,
                attempt.referral,
                before,
                attempt.claimed_code,
            );
            lemma_conserved_supply_is_bounded(campaign_after_claim(before));
        }
    }
}

/// A referral cannot be created against a campaign that is inactive or has
/// no supply left: the attempt is rejected, with `CampaignInactive` or
/// `SupplyExhausted`, or with `Unauthorized` where the referrer did not
/// authorize it.
pub proof fn lemma_no_referral_without_live_campaign(authorized: bool, campaign: CampaignView)
    requires
        !campaign.is_active || campaign.remaining_supply == 0,
    ensures
        referral_rejection(authorized, campaign) is Some,
        authorized && !campaign.is_active ==> referral_rejection(authorized, campaign) == Some(
            LedgerError::CampaignInactive,
        ),
        authorized && campaign.is_active ==> referral_rejection(authorized, campaign) == Some(
            LedgerError::SupplyExhausted,
        ),
{
}

/// A claim that presents another code than the referral's is rejected: with
/// `CodeMismatch` where the claimer is authorized and the referral active,
/// and with the earlier failure otherwise.
pub proof fn lemma_wrong_code_is_rejected(
    claimer_is_authorized: bool,
    referral: ReferralView,
    campaign: CampaignView,
    claimed_code: Seq<char>,
)
    requires
        referral.referral_code != claimed_code,
    ensures
        claim_rejection(claimer_is_authorized, referral, campaign, claimed_code) is Some,
        claimer_is_authorized && referral.is_active ==> claim_rejection(
            claimer_is_authorized,
            referral,
            campaign,
            claimed_code,
        ) == Some(LedgerError::CodeMismatch),
{
}

/// Without authorization each of the three operations is rejected as
/// `Unauthorized`, whatever the records hold and even where every other
/// precondition is met.
pub proof fn lemma_unauthorized_is_always_rejected(
    referral: ReferralView,
    campaign: CampaignView,
    claimed_code: Seq<char>,
)
    ensures
        initialization_rejection(false) == Some(LedgerError::Unauthorized),
        referral_rejection(false, campaign) == Some(LedgerError::Unauthorized),
        claim_rejection(false, referral, campaign, claimed_code) == Some(
            LedgerError::Unauthorized,
        ),
{
}

/// An operation whose caller has not signed is rejected as `Unauthorized`,
/// whichever of the three it is and whatever the accounts hold.
pub proof fn lemma_unsigned_caller_is_unauthorized(
    accounts: Seq<AccountView>,
    campaign_name: Seq<char>,
    campaign_description: Seq<char>,
    end_date: u64,
    referrer_reward: u64,
    referee_reward: u64,
    token_supply: u64,
    campaign_id: Pubkey,
    referral_code: Seq<char>,
)
    requires
        accounts.len() > 0,
        !accounts[0].is_signer,
    ensures
        initialize_campaign_effect(
            accounts,
            campaign_name,
            campaign_description,
            end_date,
            referrer_reward,
            referee_reward,
            token_supply,
        ) == Err::<Seq<AccountView>, LedgerError>(LedgerError::Unauthorized),
        create_referral_effect(accounts, campaign_id, referral_code) == Err::<
            Seq<AccountView>,
            LedgerError,
        >(LedgerError::Unauthorized),
        claim_referral_effect(accounts, referral_code) == Err::<
            (Seq<AccountView>, RewardIntent),
            LedgerError,
        >(LedgerError::Unauthorized),
{
}

/// An instruction whose caller has not signed is rejected as `Unauthorized`,
/// whichever of the three operations it asks for and whatever the accounts
/// hold.
pub proof fn lemma_unsigned_instruction_is_unauthorized(
    accounts: Seq<AccountView>,
    instruction_data: Seq<u8>,
)
    requires
        instruction_decoding(instruction_data) is Some,
        accounts.len() > 0,
        !accounts[0].is_signer,
    ensures
        instruction_effect(accounts, instruction_data) == Err::<
            (Seq<AccountView>, Option<RewardIntent>),
            LedgerError,
        >(LedgerError::Unauthorized),
{
}

/// A claim that presents another code than the one stored in the referral
/// account is rejected, whatever else holds: as `CodeMismatch` where the
/// caller has signed, all six accounts are there, the referral is active and
/// the campaign account holds a campaign.
pub proof fn lemma_wrong_code_instruction_is_rejected(
    accounts: Seq<AccountView>,
    referral_code: Seq<char>,
)
    requires
        accounts.len() >= 2,
        referral_decoding(accounts[1].data) matches Some(referral) && referral.referral_code
            != referral_code,
    ensures
        claim_referral_effect(accounts, referral_code) is Err,
        caller_rejection(accounts, CLAIM_REFERRAL_ACCOUNTS as int) is None && referral_decoding(
            accounts[1].data,
        )->Some_0.is_active && campaign_decoding(accounts[3].data) is Some
            ==> claim_referral_effect(accounts, referral_code) == Err::<
            (Seq<AccountView>, RewardIntent),
            LedgerError,
        >(LedgerError::CodeMismatch),
{
}

/// A referral is not created against a stored campaign that is inactive or
/// has no supply left.
pub proof fn lemma_no_referral_instruction_without_live_campaign(
    accounts: Seq<AccountView>,
    campaign_id: Pubkey,
    referral_code: Seq<char>,
)
    requires
        accounts.len() >= 3,
        campaign_decoding(accounts[2].data) matches Some(campaign) && (!campaign.is_active
            || campaign.remaining_supply == 0),
    ensures
        create_referral_effect(accounts, campaign_id, referral_code) is Err,
{
}

/// An accepted claim is persisted whole: afterwards the campaign account
/// holds the campaign with one claim more paid out of it, the referral
/// account holds the referral with one claim more, and every other account
/// holds what it held. A rejected claim persists nothing, so no state is
/// ever stored in which only one of the two records has advanced.
pub proof fn lemma_claim_is_persisted_whole(accounts: Seq<AccountView>, referral_code: Seq<char>)
    requires
        claim_referral_effect(accounts, referral_code) is Ok,
    ensures
        ({
            let after = claim_referral_effect(accounts, referral_code)->Ok_0.0;
            let campaign = campaign_decoding(accounts[3].data)->Some_0;
            let referral = referral_decoding(accounts[1].data)->Some_0;
            &&& after.len() == accounts.len()
            &&& campaign_decoding(after[3].data) == Some(campaign_after_claim(campaign))
            &&& referral_decoding(after[1].data) == Some(referral_after_claim(referral))
            &&& forall|i: int|
                0 <= i < accounts.len() ==> #[trigger] after[i].key == accounts[i].key
                    && after[i].is_signer == accounts[i].is_signer
            &&& forall|i: int|
                0 <= i < accounts.len() && i != 1 && i != 3 ==> #[trigger] after[i]
                    == accounts[i]
        }),
{
    let campaign = campaign_decoding(accounts[3].data)->Some_0;
    let referral = referral_decoding(accounts[1].data)->Some_0;
    let campaign_after = campaign_after_claim(campaign);
    let referral_after = referral_after_claim(referral);
    lemma_campaign_same_length(campaign, campaign_after);
    lemma_referral_same_length(referral, referral_after);
    lemma_campaign_round_trip(campaign_after);
    lemma_referral_round_trip(referral_after);
    assert(overwritten(accounts[3].data, campaign_bytes(campaign_after)) =~= campaign_bytes(
        campaign_after,
    ));
    assert(overwritten(accounts[1].data, referral_bytes(referral_after)) =~= referral_bytes(
        referral_after,
    ));
}

/// A campaign that is initialized into an account of exactly the size of
/// its encoding is read back from that account as it was initialized.
pub proof fn lemma_initialized_campaign_is_read_back(
    accounts: Seq<AccountView>,
    campaign_name: Seq<char>,
    campaign_description: Seq<char>,
    end_date: u64,
    referrer_reward: u64,
    referee_reward: u64,
    token_supply: u64,
)
    requires
        initialize_campaign_effect(
            accounts,
            campaign_name,
            campaign_description,
            end_date,
            referrer_reward,
            referee_reward,
            token_supply,
        ) is Ok,
        accounts[1].data.len() == campaign_bytes(
            initial_campaign(
                accounts[0].key,
                campaign_name,
                campaign_description,
                end_date,
                referrer_reward,
                referee_reward,
                token_supply,
            ),
        ).len(),
    ensures
        ({
            let after = initialize_campaign_effect(
                accounts,
                campaign_name,
                campaign_description,
                end_date,
                referrer_reward,
                referee_reward,
                token_supply,
            )->Ok_0;
            campaign_decoding(after[1].data) == Some(
                initial_campaign(
                    accounts[0].key,
                    campaign_name,
                    campaign_description,
                    end_date,
                    referrer_reward,
                    referee_reward,
                    token_supply,
                ),
            )
        }),
{
    let campaign = initial_campaign(
        accounts[0].key,
        campaign_name,
        campaign_description,
        end_date,
        referrer_reward,
        referee_reward,
        token_supply,
    );
    lemma_campaign_round_trip(campaign);
    assert(overwritten(accounts[1].data, campaign_bytes(campaign)) =~= campaign_bytes(campaign));
}

/// A referral that is created into an account of exactly the size of its
/// encoding is read back from that account as it was created.
pub proof fn lemma_created_referral_is_read_back(
    accounts: Seq<AccountView>,
    campaign_id: Pubkey,
    referral_code: Seq<char>,
)
    requires
        create_referral_effect(accounts, campaign_id, referral_code) is Ok,
        accounts[1].data.len() == referral_bytes(
            initial_referral(campaign_id, accounts[0].key, referral_code),
        ).len(),
    ensures
        ({
            let after = create_referral_effect(accounts, campaign_id, referral_code)->Ok_0;
            referral_decoding(after[1].data) == Some(
                initial_referral(campaign_id, accounts[0].key, referral_code),
            )
        }),
{
    let referral = initial_referral(campaign_id, accounts[0].key, referral_code);
    lemma_referral_round_trip(referral);
    assert(overwritten(accounts[1].data, referral_bytes(referral)) =~= referral_bytes(referral));
}

} // verus!
