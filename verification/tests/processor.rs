use referral_ledger::{
    process_claim_referral, process_create_referral, process_initialize_campaign,
    process_instruction, store, AccountInfo, CampaignAccount, LedgerError, Payout, Pubkey,
    ReferralAccount, ReferralInstruction, RewardIntent,
};

const PROGRAM: Pubkey = Pubkey([0xee; 32]);
const CREATOR: Pubkey = Pubkey([1; 32]);
const REFERRER: Pubkey = Pubkey([2; 32]);
const CLAIMER: Pubkey = Pubkey([3; 32]);
const CAMPAIGN: Pubkey = Pubkey([9; 32]);
const REFERRAL: Pubkey = Pubkey([8; 32]);

fn account(key: Pubkey, is_signer: bool, data: Vec<u8>) -> AccountInfo {
    AccountInfo { key, is_signer, data }
}

fn empty(key: Pubkey) -> AccountInfo {
    account(key, false, Vec::new())
}

fn stored_campaign(remaining_supply: u64, successful_claims: u64, is_active: bool) -> Vec<u8> {
    CampaignAccount {
        creator: CREATOR,
        campaign_name: String::from("Spring"),
        campaign_description: String::from("Bring a friend"),
        end_date: 1_900_000_000,
        referrer_reward: 10,
        referee_reward: 5,
        token_supply: 1000,
        remaining_supply,
        successful_claims,
        is_active,
    }
    .try_to_vec()
    .unwrap()
}

fn stored_referral(successful_claims: u64, is_active: bool) -> Vec<u8> {
    ReferralAccount {
        campaign_id: CAMPAIGN,
        referrer: REFERRER,
        referral_code: String::from("FRIEND"),
        successful_claims,
        is_active,
    }
    .try_to_vec()
    .unwrap()
}

fn initialize_accounts(size: usize) -> Vec<AccountInfo> {
    vec![
        account(CREATOR, true, Vec::new()),
        account(CAMPAIGN, false, vec![0xaa; size]),
        empty(PROGRAM),
    ]
}

fn create_accounts(campaign: Vec<u8>, size: usize) -> Vec<AccountInfo> {
    vec![
        account(REFERRER, true, Vec::new()),
        account(REFERRAL, false, vec![0xaa; size]),
        account(CAMPAIGN, false, campaign),
        empty(PROGRAM),
    ]
}

fn claim_accounts(referral: Vec<u8>, campaign: Vec<u8>) -> Vec<AccountInfo> {
    vec![
        account(CLAIMER, true, Vec::new()),
        account(REFERRAL, false, referral),
        empty(REFERRER),
        account(CAMPAIGN, false, campaign),
        empty(Pubkey([5; 32])),
        empty(PROGRAM),
    ]
}

fn initialize_payload() -> Vec<u8> {
    ReferralInstruction::InitializeCampaign {
        campaign_name: String::from("Spring"),
        campaign_description: String::from("Bring a friend"),
        end_date: 1_900_000_000,
        referrer_reward: 10,
        referee_reward: 5,
        token_supply: 1000,
    }
    .try_to_vec()
    .unwrap()
}

fn create_payload(code: &str) -> Vec<u8> {
    ReferralInstruction::CreateReferral { campaign_id: CAMPAIGN, referral_code: String::from(code) }
        .try_to_vec()
        .unwrap()
}

fn claim_payload(code: &str) -> Vec<u8> {
    ReferralInstruction::ClaimReferral { referral_code: String::from(code) }.try_to_vec().unwrap()
}

#[test]
fn store_overwrites_the_front() {
    let mut accounts = vec![empty(CREATOR), account(CAMPAIGN, true, vec![1, 2, 3, 4, 5])];
    store(&mut accounts, 1, vec![9, 8]);
    assert_eq!(accounts[1], account(CAMPAIGN, true, vec![9, 8, 3, 4, 5]));
    assert_eq!(accounts[0], empty(CREATOR));
    store(&mut accounts, 1, vec![7, 7, 7, 7, 7]);
    assert_eq!(accounts[1].data, vec![7, 7, 7, 7, 7]);
    store(&mut accounts, 0, Vec::new());
    assert_eq!(accounts[0], empty(CREATOR));
}

#[test]
fn initialize_writes_the_campaign_into_its_account() {
    let size = stored_campaign(1000, 0, true).len();
    let mut accounts = initialize_accounts(size);
    let r = process_instruction(&PROGRAM, &mut accounts, &initialize_payload());
    assert_eq!(r, Ok(None));
    assert_eq!(accounts[1].data, stored_campaign(1000, 0, true));
    let campaign = CampaignAccount::try_from_slice(&accounts[1].data).unwrap();
    assert_eq!(campaign.creator, CREATOR);
    assert_eq!(campaign.remaining_supply, 1000);
    assert_eq!(campaign.successful_claims, 0);
    assert!(campaign.is_active);
    assert_eq!(accounts[0], account(CREATOR, true, Vec::new()));
    assert_eq!(accounts[1].key, CAMPAIGN);
    assert!(!accounts[1].is_signer);
    assert_eq!(accounts[2], empty(PROGRAM));
}

#[test]
fn initialize_keeps_what_lies_beyond_the_record() {
    let encoded = stored_campaign(1000, 0, true);
    let mut accounts = initialize_accounts(encoded.len() + 3);
    let r = process_initialize_campaign(
        &PROGRAM,
        &mut accounts,
        String::from("Spring"),
        String::from("Bring a friend"),
        1_900_000_000,
        10,
        5,
        1000,
    );
    assert_eq!(r, Ok(()));
    assert_eq!(accounts[1].data[..encoded.len()], encoded[..]);
    assert_eq!(accounts[1].data[encoded.len()..], [0xaa, 0xaa, 0xaa]);
}

#[test]
fn initialize_needs_room_for_the_record() {
    let size = stored_campaign(1000, 0, true).len();
    let mut accounts = initialize_accounts(size - 1);
    let before = accounts.clone();
    let r = process_instruction(&PROGRAM, &mut accounts, &initialize_payload());
    assert_eq!(r, Err(LedgerError::RecordTooLarge));
    assert_eq!(accounts, before);
}

#[test]
fn initialize_needs_a_signature() {
    let size = stored_campaign(1000, 0, true).len();
    let mut accounts = initialize_accounts(size);
    accounts[0].is_signer = false;
    let before = accounts.clone();
    let r = process_instruction(&PROGRAM, &mut accounts, &initialize_payload());
    assert_eq!(r, Err(LedgerError::Unauthorized));
    assert_eq!(accounts, before);
}

#[test]
fn every_operation_needs_its_accounts() {
    let size = stored_campaign(1000, 0, true).len();
    let mut none: Vec<AccountInfo> = Vec::new();
    assert_eq!(
        process_instruction(&PROGRAM, &mut none, &initialize_payload()),
        Err(LedgerError::NotEnoughAccounts)
    );

    let mut two = initialize_accounts(size);
    two.pop();
    assert_eq!(
        process_instruction(&PROGRAM, &mut two, &initialize_payload()),
        Err(LedgerError::NotEnoughAccounts)
    );

    let mut three = create_accounts(stored_campaign(1000, 0, true), 100);
    three.pop();
    assert_eq!(
        process_instruction(&PROGRAM, &mut three, &create_payload("FRIEND")),
        Err(LedgerError::NotEnoughAccounts)
    );

    let mut five = claim_accounts(stored_referral(0, true), stored_campaign(1000, 0, true));
    five.pop();
    let before = five.clone();
    assert_eq!(
        process_instruction(&PROGRAM, &mut five, &claim_payload("FRIEND")),
        Err(LedgerError::NotEnoughAccounts)
    );
    assert_eq!(five, before);
}

#[test]
fn an_unsigned_caller_is_unauthorized_before_anything_else() {
    let mut one = vec![account(CLAIMER, false, Vec::new())];
    assert_eq!(
        process_instruction(&PROGRAM, &mut one, &claim_payload("FRIEND")),
        Err(LedgerError::Unauthorized)
    );

    let mut create = create_accounts(vec![1, 2, 3], 0);
    create[0].is_signer = false;
    assert_eq!(
        process_instruction(&PROGRAM, &mut create, &create_payload("FRIEND")),
        Err(LedgerError::Unauthorized)
    );

    let mut claim = claim_accounts(stored_referral(0, true), stored_campaign(1000, 0, true));
    claim[0].is_signer = false;
    let before = claim.clone();
    assert_eq!(
        process_instruction(&PROGRAM, &mut claim, &claim_payload("FRIEND")),
        Err(LedgerError::Unauthorized)
    );
    assert_eq!(claim, before);
}

#[test]
fn a_payload_that_is_no_instruction_is_a_decode_error() {
    let mut accounts = claim_accounts(stored_referral(0, true), stored_campaign(1000, 0, true));
    let before = accounts.clone();
    assert_eq!(process_instruction(&PROGRAM, &mut accounts, &[]), Err(LedgerError::DecodeError));
    assert_eq!(process_instruction(&PROGRAM, &mut accounts, &[7]), Err(LedgerError::DecodeError));
    let mut trailing = claim_payload("FRIEND");
    trailing.push(0);
    assert_eq!(
        process_instruction(&PROGRAM, &mut accounts, &trailing),
        Err(LedgerError::DecodeError)
    );
    accounts[0].is_signer = false;
    assert_eq!(process_instruction(&PROGRAM, &mut accounts, &[7]), Err(LedgerError::DecodeError));
    accounts[0].is_signer = true;
    assert_eq!(accounts, before);
}

#[test]
fn create_writes_the_referral_into_its_account() {
    let size = stored_referral(0, true).len();
    let mut accounts = create_accounts(stored_campaign(1000, 0, true), size);
    let r = process_instruction(&PROGRAM, &mut accounts, &create_payload("FRIEND"));
    assert_eq!(r, Ok(None));
    assert_eq!(accounts[1].data, stored_referral(0, true));
    assert_eq!(
        ReferralAccount::try_from_slice(&accounts[1].data),
        Some(ReferralAccount {
            campaign_id: CAMPAIGN,
            referrer: REFERRER,
            referral_code: String::from("FRIEND"),
            successful_claims: 0,
            is_active: true,
        })
    );
    assert_eq!(accounts[2].data, stored_campaign(1000, 0, true));
}

#[test]
fn create_rejects_an_inactive_or_exhausted_campaign() {
    let size = stored_referral(0, true).len();

    let mut inactive = create_accounts(stored_campaign(1000, 0, false), size);
    let before = inactive.clone();
    assert_eq!(
        process_instruction(&PROGRAM, &mut inactive, &create_payload("FRIEND")),
        Err(LedgerError::CampaignInactive)
    );
    assert_eq!(inactive, before);

    let mut exhausted = create_accounts(stored_campaign(0, 66, true), size);
    let before = exhausted.clone();
    assert_eq!(
        process_create_referral(&PROGRAM, &mut exhausted, CAMPAIGN, String::from("FRIEND")),
        Err(LedgerError::SupplyExhausted)
    );
    assert_eq!(exhausted, before);
}

#[test]
fn create_needs_a_stored_campaign() {
    let size = stored_referral(0, true).len();
    let mut garbage = create_accounts(vec![1, 2, 3], size);
    assert_eq!(
        process_instruction(&PROGRAM, &mut garbage, &create_payload("FRIEND")),
        Err(LedgerError::InvalidAccountData)
    );

    let mut padded_campaign = stored_campaign(1000, 0, true);
    padded_campaign.push(0);
    let mut padded = create_accounts(padded_campaign, size);
    assert_eq!(
        process_instruction(&PROGRAM, &mut padded, &create_payload("FRIEND")),
        Err(LedgerError::InvalidAccountData)
    );

    let mut referral_in_place = create_accounts(stored_referral(0, true), size);
    assert_eq!(
        process_instruction(&PROGRAM, &mut referral_in_place, &create_payload("FRIEND")),
        Err(LedgerError::InvalidAccountData)
    );
}

#[test]
fn create_needs_room_for_the_record() {
    let size = stored_referral(0, true).len();
    let mut accounts = create_accounts(stored_campaign(1000, 0, true), size);
    let before = accounts.clone();
    assert_eq!(
        process_instruction(&PROGRAM, &mut accounts, &create_payload("FRIENDS")),
        Err(LedgerError::RecordTooLarge)
    );
    assert_eq!(accounts, before);
}

#[test]
fn claim_advances_both_records_together() {
    let mut accounts = claim_accounts(stored_referral(0, true), stored_campaign(1000, 0, true));
    let r = process_instruction(&PROGRAM, &mut accounts, &claim_payload("FRIEND"));
    assert_eq!(
        r,
        Ok(Some(RewardIntent {
            to_referee: Payout { recipient: CLAIMER, amount: 5 },
            to_referrer: Payout { recipient: REFERRER, amount: 10 },
        }))
    );
    assert_eq!(accounts[3].data, stored_campaign(985, 1, true));
    assert_eq!(accounts[1].data, stored_referral(1, true));
    assert_eq!(
        accounts,
        claim_accounts(stored_referral(1, true), stored_campaign(985, 1, true))
    );
}

#[test]
fn claims_against_accounts_run_until_the_supply_is_exhausted() {
    let mut accounts = claim_accounts(stored_referral(0, true), stored_campaign(1000, 0, true));
    let payload = claim_payload("FRIEND");
    for claims in 1..=65u64 {
        assert!(process_instruction(&PROGRAM, &mut accounts, &payload).is_ok());
        assert_eq!(accounts[3].data, stored_campaign(1000 - 15 * claims, claims, true));
        assert_eq!(accounts[1].data, stored_referral(claims, true));
    }
    assert_eq!(accounts[3].data, stored_campaign(25, 65, true));
    assert!(process_claim_referral(&PROGRAM, &mut accounts, String::from("FRIEND")).is_ok());
    assert_eq!(accounts[3].data, stored_campaign(10, 66, true));
    let before = accounts.clone();
    assert_eq!(
        process_instruction(&PROGRAM, &mut accounts, &payload),
        Err(LedgerError::SupplyExhausted)
    );
    assert_eq!(accounts, before);
}

#[test]
fn a_rejected_claim_changes_no_account() {
    let payload = claim_payload("FRIEND");

    let mut wrong_code = claim_accounts(stored_referral(4, true), stored_campaign(940, 4, true));
    let before = wrong_code.clone();
    assert_eq!(
        process_instruction(&PROGRAM, &mut wrong_code, &claim_payload("FRIENDS")),
        Err(LedgerError::CodeMismatch)
    );
    assert_eq!(wrong_code, before);

    let mut inactive_referral =
        claim_accounts(stored_referral(4, false), stored_campaign(940, 4, true));
    let before = inactive_referral.clone();
    assert_eq!(
        process_instruction(&PROGRAM, &mut inactive_referral, &payload),
        Err(LedgerError::ReferralInactive)
    );
    assert_eq!(inactive_referral, before);

    let mut inactive_campaign =
        claim_accounts(stored_referral(4, true), stored_campaign(940, 4, false));
    let before = inactive_campaign.clone();
    assert_eq!(
        process_instruction(&PROGRAM, &mut inactive_campaign, &payload),
        Err(LedgerError::CampaignInactive)
    );
    assert_eq!(inactive_campaign, before);

    let mut full_counter =
        claim_accounts(stored_referral(u64::MAX, true), stored_campaign(940, 4, true));
    let before = full_counter.clone();
    assert_eq!(
        process_instruction(&PROGRAM, &mut full_counter, &payload),
        Err(LedgerError::CounterOverflow)
    );
    assert_eq!(full_counter, before);
}

#[test]
fn claim_needs_stored_records() {
    let payload = claim_payload("FRIEND");
    let mut no_referral = claim_accounts(Vec::new(), stored_campaign(1000, 0, true));
    assert_eq!(
        process_instruction(&PROGRAM, &mut no_referral, &payload),
        Err(LedgerError::InvalidAccountData)
    );
    let mut no_campaign = claim_accounts(stored_referral(0, true), vec![0; 200]);
    let before = no_campaign.clone();
    assert_eq!(
        process_instruction(&PROGRAM, &mut no_campaign, &payload),
        Err(LedgerError::InvalidAccountData)
    );
    assert_eq!(no_campaign, before);
}

#[test]
fn the_whole_life_of_a_campaign() {
    let campaign_size = stored_campaign(1000, 0, true).len();
    let referral_size = stored_referral(0, true).len();

    let mut accounts = initialize_accounts(campaign_size);
    assert_eq!(process_instruction(&PROGRAM, &mut accounts, &initialize_payload()), Ok(None));
    let campaign = accounts[1].data.clone();

    let mut accounts = create_accounts(campaign.clone(), referral_size);
    assert_eq!(process_instruction(&PROGRAM, &mut accounts, &create_payload("FRIEND")), Ok(None));
    let referral = accounts[1].data.clone();

    let mut accounts = claim_accounts(referral, campaign);
    assert!(process_instruction(&PROGRAM, &mut accounts, &claim_payload("FRIEND")).is_ok());
    let campaign = CampaignAccount::try_from_slice(&accounts[3].data).unwrap();
    let referral = ReferralAccount::try_from_slice(&accounts[1].data).unwrap();
    assert_eq!(campaign.remaining_supply, 985);
    assert_eq!(campaign.successful_claims, 1);
    assert_eq!(referral.successful_claims, 1);
    assert_eq!(referral.referrer, REFERRER);
    assert_eq!(referral.campaign_id, CAMPAIGN);
}
