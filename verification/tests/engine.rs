use referral_ledger::{
    claim_referral, create_referral, initialize_campaign, CampaignAccount, LedgerError, Payout,
    Pubkey, ReferralAccount, RewardIntent,
};

fn key(byte: u8) -> Pubkey {
    Pubkey([byte; 32])
}

fn campaign(token_supply: u64, referrer_reward: u64, referee_reward: u64) -> CampaignAccount {
    initialize_campaign(
        key(1),
        true,
        String::from("Spring"),
        String::from("Bring a friend"),
        1_900_000_000,
        referrer_reward,
        referee_reward,
        token_supply,
    )
    .unwrap()
}

fn referral(campaign: &CampaignAccount, code: &str) -> ReferralAccount {
    create_referral(key(2), true, key(9), String::from(code), campaign).unwrap()
}

#[test]
fn initialize_campaign_starts_with_the_whole_supply() {
    let c = initialize_campaign(
        key(7),
        true,
        String::from("Spring"),
        String::from("Bring a friend"),
        1_900_000_000,
        10,
        5,
        1000,
    )
    .unwrap();
    assert_eq!(c.creator, key(7));
    assert_eq!(c.campaign_name, "Spring");
    assert_eq!(c.campaign_description, "Bring a friend");
    assert_eq!(c.end_date, 1_900_000_000);
    assert_eq!(c.referrer_reward, 10);
    assert_eq!(c.referee_reward, 5);
    assert_eq!(c.token_supply, 1000);
    assert_eq!(c.remaining_supply, 1000);
    assert_eq!(c.successful_claims, 0);
    assert!(c.is_active);
}

#[test]
fn initialize_campaign_accepts_any_magnitudes() {
    let zero = campaign(0, 0, 0);
    assert_eq!(zero.remaining_supply, 0);
    assert_eq!(zero.successful_claims, 0);
    assert!(zero.is_active);

    let huge = campaign(u64::MAX, u64::MAX, u64::MAX);
    assert_eq!(huge.remaining_supply, u64::MAX);
    assert_eq!(huge.token_supply, u64::MAX);
    assert_eq!(huge.successful_claims, 0);
    assert!(huge.is_active);

    let rewards_above_supply = campaign(3, 10, 5);
    assert_eq!(rewards_above_supply.remaining_supply, 3);
    assert!(rewards_above_supply.is_active);
}

#[test]
fn initialize_campaign_needs_authorization() {
    let r = initialize_campaign(
        key(7),
        false,
        String::from("Spring"),
        String::from("Bring a friend"),
        1_900_000_000,
        10,
        5,
        1000,
    );
    assert_eq!(r, Err(LedgerError::Unauthorized));
}

#[test]
fn create_referral_stamps_the_record() {
    let c = campaign(1000, 10, 5);
    let r = create_referral(key(2), true, key(9), String::from("FRIEND"), &c).unwrap();
    assert_eq!(r.campaign_id, key(9));
    assert_eq!(r.referrer, key(2));
    assert_eq!(r.referral_code, "FRIEND");
    assert_eq!(r.successful_claims, 0);
    assert!(r.is_active);
}

#[test]
fn create_referral_accepts_a_repeated_code() {
    let c = campaign(1000, 10, 5);
    let first = create_referral(key(2), true, key(9), String::from("FRIEND"), &c).unwrap();
    let second = create_referral(key(3), true, key(9), String::from("FRIEND"), &c).unwrap();
    assert_eq!(first.referral_code, second.referral_code);
    assert_ne!(first, second);
}

#[test]
fn create_referral_rejects_an_inactive_campaign() {
    let mut c = campaign(1000, 10, 5);
    c.is_active = false;
    let r = create_referral(key(2), true, key(9), String::from("FRIEND"), &c);
    assert_eq!(r, Err(LedgerError::CampaignInactive));
}

#[test]
fn create_referral_rejects_an_exhausted_campaign() {
    let mut c = campaign(1000, 10, 5);
    c.remaining_supply = 0;
    let r = create_referral(key(2), true, key(9), String::from("FRIEND"), &c);
    assert_eq!(r, Err(LedgerError::SupplyExhausted));

    c.remaining_supply = 1;
    assert!(create_referral(key(2), true, key(9), String::from("FRIEND"), &c).is_ok());
}

#[test]
fn create_referral_checks_in_order() {
    let mut c = campaign(1000, 10, 5);
    c.is_active = false;
    c.remaining_supply = 0;
    assert_eq!(
        create_referral(key(2), false, key(9), String::from("FRIEND"), &c),
        Err(LedgerError::Unauthorized)
    );
    assert_eq!(
        create_referral(key(2), true, key(9), String::from("FRIEND"), &c),
        Err(LedgerError::CampaignInactive)
    );
}

#[test]
fn claim_moves_one_claim() {
    let c = campaign(1000, 10, 5);
    let r = referral(&c, "FRIEND");
    let out = claim_referral(key(3), true, &r, &c, &String::from("FRIEND")).unwrap();

    assert_eq!(out.campaign.remaining_supply, 985);
    assert_eq!(out.campaign.successful_claims, 1);
    assert_eq!(out.referral.successful_claims, 1);

    let mut expected_campaign = c.clone();
    expected_campaign.remaining_supply = 985;
    expected_campaign.successful_claims = 1;
    assert_eq!(out.campaign, expected_campaign);
    let mut expected_referral = r.clone();
    expected_referral.successful_claims = 1;
    assert_eq!(out.referral, expected_referral);
}

#[test]
fn claim_names_the_rewards() {
    let c = campaign(1000, 10, 5);
    let r = referral(&c, "FRIEND");
    let out = claim_referral(key(3), true, &r, &c, &String::from("FRIEND")).unwrap();
    assert_eq!(
        out.intent,
        RewardIntent {
            to_referee: Payout { recipient: key(3), amount: 5 },
            to_referrer: Payout { recipient: key(2), amount: 10 },
        }
    );
}

#[test]
fn claims_run_until_the_supply_is_exhausted() {
    let code = String::from("FRIEND");
    let mut c = campaign(1000, 10, 5);
    let mut r = referral(&c, "FRIEND");

    let first = claim_referral(key(3), true, &r, &c, &code).unwrap();
    assert_eq!(first.campaign.remaining_supply, 985);
    assert_eq!(first.campaign.successful_claims, 1);
    assert_eq!(first.referral.successful_claims, 1);
    c = first.campaign;
    r = first.referral;

    for _ in 0..64 {
        let next = claim_referral(key(3), true, &r, &c, &code).unwrap();
        c = next.campaign;
        r = next.referral;
    }
    assert_eq!(c.remaining_supply, 985 - 64 * 15);
    assert_eq!(c.remaining_supply, 25);
    assert_eq!(c.successful_claims, 65);

    let last = claim_referral(key(3), true, &r, &c, &code).unwrap();
    assert_eq!(last.campaign.remaining_supply, 10);
    assert_eq!(last.campaign.successful_claims, 66);
    assert_eq!(last.referral.successful_claims, 66);
    c = last.campaign;
    r = last.referral;

    assert_eq!(claim_referral(key(3), true, &r, &c, &code), Err(LedgerError::SupplyExhausted));
    assert_eq!(c.remaining_supply, 10);
    assert_eq!(c.successful_claims, 66);
}

#[test]
fn supply_is_conserved_at_every_state() {
    let code = String::from("FRIEND");
    let mut c = campaign(1000, 10, 5);
    let mut r = referral(&c, "FRIEND");
    let mut states = 0;
    loop {
        assert!(c.remaining_supply <= c.token_supply);
        assert_eq!(
            c.remaining_supply as u128
                + c.successful_claims as u128
                    * (c.referrer_reward as u128 + c.referee_reward as u128),
            c.token_supply as u128
        );
        states += 1;
        match claim_referral(key(3), true, &r, &c, &code) {
            Ok(out) => {
                c = out.campaign;
                r = out.referral;
            }
            Err(e) => {
                assert_eq!(e, LedgerError::SupplyExhausted);
                break;
            }
        }
    }
    assert_eq!(states, 67);
}

#[test]
fn claim_needs_authorization() {
    let c = campaign(1000, 10, 5);
    let r = referral(&c, "FRIEND");
    assert_eq!(
        claim_referral(key(3), false, &r, &c, &String::from("FRIEND")),
        Err(LedgerError::Unauthorized)
    );
}

#[test]
fn claim_rejects_an_inactive_referral() {
    let c = campaign(1000, 10, 5);
    let mut r = referral(&c, "FRIEND");
    r.is_active = false;
    assert_eq!(
        claim_referral(key(3), true, &r, &c, &String::from("FRIEND")),
        Err(LedgerError::ReferralInactive)
    );
}

#[test]
fn claim_rejects_another_code() {
    let c = campaign(1000, 10, 5);
    let r = referral(&c, "FRIEND");
    let before = (c.clone(), r.clone());
    assert_eq!(
        claim_referral(key(3), true, &r, &c, &String::from("friend")),
        Err(LedgerError::CodeMismatch)
    );
    assert_eq!(
        claim_referral(key(3), true, &r, &c, &String::from("FRIEND ")),
        Err(LedgerError::CodeMismatch)
    );
    assert_eq!(
        claim_referral(key(3), true, &r, &c, &String::new()),
        Err(LedgerError::CodeMismatch)
    );
    assert_eq!((c, r), before);
}

#[test]
fn claim_rejects_an_inactive_campaign() {
    let mut c = campaign(1000, 10, 5);
    let r = referral(&c, "FRIEND");
    c.is_active = false;
    assert_eq!(
        claim_referral(key(3), true, &r, &c, &String::from("FRIEND")),
        Err(LedgerError::CampaignInactive)
    );
}

#[test]
fn claim_needs_the_whole_cost() {
    let mut c = campaign(1000, 10, 5);
    let r = referral(&c, "FRIEND");
    c.remaining_supply = 14;
    assert_eq!(
        claim_referral(key(3), true, &r, &c, &String::from("FRIEND")),
        Err(LedgerError::SupplyExhausted)
    );
    c.remaining_supply = 15;
    let out = claim_referral(key(3), true, &r, &c, &String::from("FRIEND")).unwrap();
    assert_eq!(out.campaign.remaining_supply, 0);
}

#[test]
fn claim_cost_above_u64_exhausts_the_supply() {
    let c = campaign(u64::MAX, u64::MAX, 1);
    let r = referral(&c, "FRIEND");
    assert_eq!(
        claim_referral(key(3), true, &r, &c, &String::from("FRIEND")),
        Err(LedgerError::SupplyExhausted)
    );

    let exact = campaign(u64::MAX, u64::MAX - 1, 1);
    let out = claim_referral(key(3), true, &r, &exact, &String::from("FRIEND")).unwrap();
    assert_eq!(out.campaign.remaining_supply, 0);
    assert_eq!(out.campaign.successful_claims, 1);
}

#[test]
fn claim_stops_at_a_full_counter() {
    let mut c = campaign(1000, 0, 0);
    let mut r = referral(&c, "FRIEND");
    c.successful_claims = u64::MAX;
    assert_eq!(
        claim_referral(key(3), true, &r, &c, &String::from("FRIEND")),
        Err(LedgerError::CounterOverflow)
    );
    c.successful_claims = u64::MAX - 1;
    let out = claim_referral(key(3), true, &r, &c, &String::from("FRIEND")).unwrap();
    assert_eq!(out.campaign.successful_claims, u64::MAX);
    assert_eq!(out.campaign.remaining_supply, 1000);

    r.successful_claims = u64::MAX;
    assert_eq!(
        claim_referral(key(3), true, &r, &c, &String::from("FRIEND")),
        Err(LedgerError::CounterOverflow)
    );
}

#[test]
fn claim_checks_in_order() {
    let mut c = campaign(1000, 10, 5);
    let mut r = referral(&c, "FRIEND");
    c.is_active = false;
    c.remaining_supply = 0;
    c.successful_claims = u64::MAX;
    r.is_active = false;
    let wrong = String::from("OTHER");
    let right = String::from("FRIEND");

    assert_eq!(claim_referral(key(3), false, &r, &c, &wrong), Err(LedgerError::Unauthorized));
    assert_eq!(claim_referral(key(3), true, &r, &c, &wrong), Err(LedgerError::ReferralInactive));
    r.is_active = true;
    assert_eq!(claim_referral(key(3), true, &r, &c, &wrong), Err(LedgerError::CodeMismatch));
    assert_eq!(claim_referral(key(3), true, &r, &c, &right), Err(LedgerError::CampaignInactive));
    c.is_active = true;
    assert_eq!(claim_referral(key(3), true, &r, &c, &right), Err(LedgerError::SupplyExhausted));
    c.remaining_supply = 15;
    assert_eq!(claim_referral(key(3), true, &r, &c, &right), Err(LedgerError::CounterOverflow));
}

#[test]
fn unauthorized_wins_even_if_all_else_passes() {
    let c = campaign(1000, 10, 5);
    let r = referral(&c, "FRIEND");
    assert_eq!(
        initialize_campaign(key(1), false, String::new(), String::new(), 0, 1, 1, 10),
        Err(LedgerError::Unauthorized)
    );
    assert_eq!(
        create_referral(key(2), false, key(9), String::from("FRIEND"), &c),
        Err(LedgerError::Unauthorized)
    );
    assert_eq!(
        claim_referral(key(3), false, &r, &c, &String::from("FRIEND")),
        Err(LedgerError::Unauthorized)
    );
}

#[test]
fn claim_ignores_the_end_date() {
    let mut c = campaign(1000, 10, 5);
    c.end_date = 0;
    let r = referral(&c, "FRIEND");
    assert!(claim_referral(key(3), true, &r, &c, &String::from("FRIEND")).is_ok());
}
