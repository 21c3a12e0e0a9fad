//! The byte layout of a campaign record.

use vstd::bytes::lemma_auto_spec_u64_to_from_le_bytes;
use vstd::prelude::*;
use vstd::utf8::encode_utf8_valid_utf8;
use crate::layout::fields::{
    after_bool, after_key, after_string, after_u64, lemma_bool_in_front, lemma_bool_was_in_front,
    lemma_key_in_front, lemma_key_was_in_front, lemma_string_in_front,
    lemma_field_joins_front, lemma_string_read_is_unique, lemma_string_was_in_front,
    lemma_u64_in_front,
    lemma_u64_was_in_front, reads_bool, reads_key, reads_string, reads_u64,
};
use crate::primitives::{
    bool_bytes, put_bool, put_key, put_string, put_u64, string_bytes, string_encodable,
    take_bool, take_key, take_string, take_u64, u64_bytes,
};
use crate::state::{CampaignAccount, CampaignView};

verus! {

/// Whether a campaign has an encoding: both of its strings can be stored.
pub open spec fn campaign_encodable(campaign: CampaignView) -> bool {
    string_encodable(campaign.campaign_name) && string_encodable(campaign.campaign_description)
}

/// The encoding of a campaign: its fields in order.
pub open spec fn campaign_bytes(campaign: CampaignView) -> Seq<u8> {
    campaign.creator.bytes() + string_bytes(campaign.campaign_name) + string_bytes(
        campaign.campaign_description,
    ) + u64_bytes(campaign.end_date) + u64_bytes(campaign.referrer_reward) + u64_bytes(
        campaign.referee_reward,
    ) + u64_bytes(campaign.token_supply) + u64_bytes(campaign.remaining_supply) + u64_bytes(
        campaign.successful_claims,
    ) + bool_bytes(campaign.is_active)
}

/// `input` reads, field by field and to its last byte, as `campaign`.
pub(crate) open spec fn reads_campaign(input: Seq<u8>, campaign: CampaignView) -> bool {
    let s1 = after_key(input);
    let s2 = after_string(s1);
    let s3 = after_string(s2);
    let s4 = after_u64(s3);
    let s5 = after_u64(s4);
    let s6 = after_u64(s5);
    let s7 = after_u64(s6);
    let s8 = after_u64(s7);
    let s9 = after_u64(s8);
    &&& reads_key(input, campaign.creator)
    &&& reads_string(s1, campaign.campaign_name)
    &&& reads_string(s2, campaign.campaign_description)
    &&& reads_u64(s3, campaign.end_date)
    &&& reads_u64(s4, campaign.referrer_reward)
    &&& reads_u64(s5, campaign.referee_reward)
    &&& reads_u64(s6, campaign.token_supply)
    &&& reads_u64(s7, campaign.remaining_supply)
    &&& reads_u64(s8, campaign.successful_claims)
    &&& reads_bool(s9, campaign.is_active)
    &&& after_bool(s9).len() == 0
}

/// The campaign that `input` encodes, if it encodes one.
pub open spec fn campaign_decoding(input: Seq<u8>) -> Option<CampaignView> {
    if exists|campaign: CampaignView|
        campaign_encodable(campaign) && #[trigger] campaign_bytes(campaign) == input {
        Some(
            choose|campaign: CampaignView|
                campaign_encodable(campaign) && #[trigger] campaign_bytes(campaign) == input,
        )
    } else {
        None
    }
}

/// The encoding of a campaign reads as that campaign.
pub(crate) proof fn lemma_campaign_bytes_read(campaign: CampaignView)
    requires
        campaign_encodable(campaign),
    ensures
        reads_campaign(campaign_bytes(campaign), campaign),
{
    let f1 = campaign.creator.bytes();
    let f2 = string_bytes(campaign.campaign_name);
    let f3 = string_bytes(campaign.campaign_description);
    let f4 = u64_bytes(campaign.end_date);
    let f5 = u64_bytes(campaign.referrer_reward);
    let f6 = u64_bytes(campaign.referee_reward);
    let f7 = u64_bytes(campaign.token_supply);
    let f8 = u64_bytes(campaign.remaining_supply);
    let f9 = u64_bytes(campaign.successful_claims);
    let f10 = bool_bytes(campaign.is_active);
    let r10 = f10 + Seq::<u8>::empty();
    let r9 = f9 + r10;
    let r8 = f8 + r9;
    let r7 = f7 + r8;
    let r6 = f6 + r7;
    let r5 = f5 + r6;
    let r4 = f4 + r5;
    let r3 = f3 + r4;
    let r2 = f2 + r3;
    let input = campaign_bytes(campaign);
    assert(input == f1 + r2) by {
        assert(r10 =~= f10);
        lemma_field_joins_front(f1 + f2 + f3 + f4 + f5 + f6 + f7 + f8, f9, r10);
        lemma_field_joins_front(f1 + f2 + f3 + f4 + f5 + f6 + f7, f8, r9);
        lemma_field_joins_front(f1 + f2 + f3 + f4 + f5 + f6, f7, r8);
        lemma_field_joins_front(f1 + f2 + f3 + f4 + f5, f6, r7);
        lemma_field_joins_front(f1 + f2 + f3 + f4, f5, r6);
        lemma_field_joins_front(f1 + f2 + f3, f4, r5);
        lemma_field_joins_front(f1 + f2, f3, r4);
        lemma_field_joins_front(f1, f2, r3);
    }
    lemma_key_in_front(campaign.creator, r2);
    lemma_string_in_front(campaign.campaign_name, r3);
    lemma_string_in_front(campaign.campaign_description, r4);
    lemma_u64_in_front(campaign.end_date, r5);
    lemma_u64_in_front(campaign.referrer_reward, r6);
    lemma_u64_in_front(campaign.referee_reward, r7);
    lemma_u64_in_front(campaign.token_supply, r8);
    lemma_u64_in_front(campaign.remaining_supply, r9);
    lemma_u64_in_front(campaign.successful_claims, r10);
    lemma_bool_in_front(campaign.is_active, Seq::<u8>::empty());
}

/// Input that reads as a campaign is that campaign's encoding.
pub(crate) proof fn lemma_campaign_read_is_encoding(input: Seq<u8>, campaign: CampaignView)
    requires
        reads_campaign(input, campaign),
    ensures
        campaign_encodable(campaign),
        campaign_bytes(campaign) == input,
{
    let f1 = campaign.creator.bytes();
    let f2 = string_bytes(campaign.campaign_name);
    let f3 = string_bytes(campaign.campaign_description);
    let f4 = u64_bytes(campaign.end_date);
    let f5 = u64_bytes(campaign.referrer_reward);
    let f6 = u64_bytes(campaign.referee_reward);
    let f7 = u64_bytes(campaign.token_supply);
    let f8 = u64_bytes(campaign.remaining_supply);
    let f9 = u64_bytes(campaign.successful_claims);
    let f10 = bool_bytes(campaign.is_active);
    let s1 = after_key(input);
    let s2 = after_string(s1);
    let s3 = after_string(s2);
    let s4 = after_u64(s3);
    let s5 = after_u64(s4);
    let s6 = after_u64(s5);
    let s7 = after_u64(s6);
    let s8 = after_u64(s7);
    let s9 = after_u64(s8);
    let s10 = after_bool(s9);
    lemma_key_was_in_front(input, campaign.creator);
    lemma_string_was_in_front(s1, campaign.campaign_name);
    lemma_string_was_in_front(s2, campaign.campaign_description);
    lemma_u64_was_in_front(s3, campaign.end_date);
    lemma_u64_was_in_front(s4, campaign.referrer_reward);
    lemma_u64_was_in_front(s5, campaign.referee_reward);
    lemma_u64_was_in_front(s6, campaign.token_supply);
    lemma_u64_was_in_front(s7, campaign.remaining_supply);
    lemma_u64_was_in_front(s8, campaign.successful_claims);
    lemma_bool_was_in_front(s9, campaign.is_active);
    assert(input == f1 + s1);
    assert(input == f1 + f2 + s2) by {
        lemma_field_joins_front(f1, f2, s2);
    }
    assert(input == f1 + f2 + f3 + s3) by {
        lemma_field_joins_front(f1 + f2, f3, s3);
    }
    assert(input == f1 + f2 + f3 + f4 + s4) by {
        lemma_field_joins_front(f1 + f2 + f3, f4, s4);
    }
    assert(input == f1 + f2 + f3 + f4 + f5 + s5) by {
        lemma_field_joins_front(f1 + f2 + f3 + f4, f5, s5);
    }
    assert(input == f1 + f2 + f3 + f4 + f5 + f6 + s6) by {
        lemma_field_joins_front(f1 + f2 + f3 + f4 + f5, f6, s6);
    }
    assert(input == f1 + f2 + f3 + f4 + f5 + f6 + f7 + s7) by {
        lemma_field_joins_front(f1 + f2 + f3 + f4 + f5 + f6, f7, s7);
    }
    assert(input == f1 + f2 + f3 + f4 + f5 + f6 + f7 + f8 + s8) by {
        lemma_field_joins_front(f1 + f2 + f3 + f4 + f5 + f6 + f7, f8, s8);
    }
    assert(input == f1 + f2 + f3 + f4 + f5 + f6 + f7 + f8 + f9 + s9) by {
        lemma_field_joins_front(f1 + f2 + f3 + f4 + f5 + f6 + f7 + f8, f9, s9);
    }
    assert(input == f1 + f2 + f3 + f4 + f5 + f6 + f7 + f8 + f9 + f10) by {
        assert(f10 + s10 =~= f10);
    }
}

/// Input reads as at most one campaign.
pub(crate) proof fn lemma_campaign_read_is_unique(input: Seq<u8>, a: CampaignView, b: CampaignView)
    requires
        reads_campaign(input, a),
        reads_campaign(input, b),
    ensures
        a == b,
{
    let s1 = after_key(input);
    let s2 = after_string(s1);
    lemma_string_read_is_unique(s1, a.campaign_name, b.campaign_name);
    lemma_string_read_is_unique(s2, a.campaign_description, b.campaign_description);
    assert(a.creator.0 =~= b.creator.0);
}

/// Input that reads as a campaign decodes to it.
pub(crate) proof fn lemma_campaign_read_is_decoding(input: Seq<u8>, campaign: CampaignView)
    requires
        reads_campaign(input, campaign),
    ensures
        campaign_decoding(input) == Some(campaign),
{
    lemma_campaign_read_is_encoding(input, campaign);
    let chosen = choose|c: CampaignView|
        campaign_encodable(c) && #[trigger] campaign_bytes(c) == input;
    lemma_campaign_bytes_read(chosen);
    lemma_campaign_read_is_unique(input, campaign, chosen);
}

/// Input that reads as no campaign decodes to none.
pub(crate) proof fn lemma_campaign_unread_is_no_decoding(input: Seq<u8>)
    requires
        forall|campaign: CampaignView| !reads_campaign(input, campaign),
    ensures
        campaign_decoding(input) is None,
{
    assert forall|campaign: CampaignView|
        campaign_encodable(campaign) implies #[trigger] campaign_bytes(campaign) != input by {
        lemma_campaign_bytes_read(campaign);
    }
}

/// Decoding inverts encoding: the encoding of a campaign decodes to that
/// campaign and to no other.
pub proof fn lemma_campaign_round_trip(campaign: CampaignView)
    requires
        campaign_encodable(campaign),
    ensures
        campaign_decoding(campaign_bytes(campaign)) == Some(campaign),
{
    lemma_campaign_bytes_read(campaign);
    lemma_campaign_read_is_decoding(campaign_bytes(campaign), campaign);
}

/// Encoding inverts decoding: input that decodes to a campaign is that
/// campaign's encoding.
pub proof fn lemma_campaign_decoding_is_exact(input: Seq<u8>, campaign: CampaignView)
    requires
        campaign_decoding(input) == Some(campaign),
    ensures
        campaign_encodable(campaign),
        campaign_bytes(campaign) == input,
{
}

/// Two campaigns with the same strings have encodings of the same length, and
/// either both have an encoding or neither has.
pub proof fn lemma_campaign_same_length(a: CampaignView, b: CampaignView)
    requires
        a.campaign_name == b.campaign_name,
        a.campaign_description == b.campaign_description,
    ensures
        campaign_encodable(a) == campaign_encodable(b),
        campaign_bytes(a).len() == campaign_bytes(b).len(),
{
    lemma_auto_spec_u64_to_from_le_bytes();
}

/// Reads a campaign off `bytes`, field by field and to the last byte.
fn read_campaign(bytes: &[u8]) -> (r: Option<CampaignAccount>)
    ensures
        match r {
            Some(campaign) => reads_campaign(bytes@, campaign@),
            None => forall|campaign: CampaignView| !reads_campaign(bytes@, campaign),
        },
{
    broadcast use encode_utf8_valid_utf8;

    let mut rest = bytes;
    let creator = take_key(&mut rest)?;
    let campaign_name = take_string(&mut rest)?;
    let campaign_description = take_string(&mut rest)?;
    let end_date = take_u64(&mut rest)?;
    let referrer_reward = take_u64(&mut rest)?;
    let referee_reward = take_u64(&mut rest)?;
    let token_supply = take_u64(&mut rest)?;
    let remaining_supply = take_u64(&mut rest)?;
    let successful_claims = take_u64(&mut rest)?;
    let is_active = take_bool(&mut rest)?;
    if rest.len() != 0 {
        return None;
    }
    Some(
        CampaignAccount {
            creator,
            campaign_name,
            campaign_description,
            end_date,
            referrer_reward,
            referee_reward,
            token_supply,
            remaining_supply,
            successful_claims,
            is_active,
        },
    )
}

impl CampaignAccount {
    /// Decodes a campaign from exactly `bytes`: `None` unless `bytes` is,
    /// from first byte to last, the encoding of a campaign.
    pub fn try_from_slice(bytes: &[u8]) -> (r: Option<CampaignAccount>)
        ensures
            match r {
                Some(campaign) => campaign_decoding(bytes@) == Some(campaign@),
                None => campaign_decoding(bytes@) is None,
            },
    {
        let r = read_campaign(bytes);
        proof {
            match &r {
                Some(campaign) => lemma_campaign_read_is_decoding(bytes@, campaign@),
                None => lemma_campaign_unread_is_no_decoding(bytes@),
            }
        }
        r
    }

    /// Encodes the campaign: `None` if one of its strings is too long to be
    /// stored.
    pub fn try_to_vec(&self) -> (r: Option<Vec<u8>>)
        ensures
            match r {
                Some(bytes) => campaign_encodable(self@) && bytes@ == campaign_bytes(self@),
                None => !campaign_encodable(self@),
            },
    {
        let mut out: Vec<u8> = Vec::new();
        put_key(&self.creator, &mut out);
        assert(out@ =~= self.creator.bytes());
        if !put_string(&self.campaign_name, &mut out) {
            return None;
        }
        if !put_string(&self.campaign_description, &mut out) {
            return None;
        }
        put_u64(self.end_date, &mut out);
        put_u64(self.referrer_reward, &mut out);
        put_u64(self.referee_reward, &mut out);
        put_u64(self.token_supply, &mut out);
        put_u64(self.remaining_supply, &mut out);
        put_u64(self.successful_claims, &mut out);
        put_bool(self.is_active, &mut out);
        Some(out)
    }
}

} // verus!
