//! The byte layout of a referral record.

use vstd::bytes::lemma_auto_spec_u64_to_from_le_bytes;
use vstd::prelude::*;
use vstd::utf8::encode_utf8_valid_utf8;
use crate::layout::fields::{
    after_bool, after_key, after_string, after_u64, lemma_bool_in_front, lemma_bool_was_in_front,
    lemma_field_joins_front, lemma_key_in_front, lemma_key_was_in_front, lemma_string_in_front,
    lemma_string_read_is_unique, lemma_string_was_in_front, lemma_u64_in_front,
    lemma_u64_was_in_front, reads_bool, reads_key, reads_string, reads_u64,
};
use crate::primitives::{
    bool_bytes, put_bool, put_key, put_string, put_u64, string_bytes, string_encodable,
    take_bool, take_key, take_string, take_u64, u64_bytes,
};
use crate::state::{ReferralAccount, ReferralView};

verus! {

/// Whether a referral has an encoding: its code can be stored.
pub open spec fn referral_encodable(referral: ReferralView) -> bool {
    string_encodable(referral.referral_code)
}

/// The encoding of a referral: its fields in order.
pub open spec fn referral_bytes(referral: ReferralView) -> Seq<u8> {
    referral.campaign_id.bytes() + referral.referrer.bytes() + string_bytes(
        referral.referral_code,
    ) + u64_bytes(referral.successful_claims) + bool_bytes(referral.is_active)
}

/// `input` reads, field by field and to its last byte, as `referral`.
pub(crate) open spec fn reads_referral(input: Seq<u8>, referral: ReferralView) -> bool {
    let s1 = after_key(input);
    let s2 = after_key(s1);
    let s3 = after_string(s2);
    let s4 = after_u64(s3);
    &&& reads_key(input, referral.campaign_id)
    &&& reads_key(s1, referral.referrer)
    &&& reads_string(s2, referral.referral_code)
    &&& reads_u64(s3, referral.successful_claims)
    &&& reads_bool(s4, referral.is_active)
    &&& after_bool(s4).len() == 0
}

/// The referral that `input` encodes, if it encodes one.
pub open spec fn referral_decoding(input: Seq<u8>) -> Option<ReferralView> {
    if exists|referral: ReferralView|
        referral_encodable(referral) && #[trigger] referral_bytes(referral) == input {
        Some(
            choose|referral: ReferralView|
                referral_encodable(referral) && #[trigger] referral_bytes(referral) == input,
        )
    } else {
        None
    }
}

/// The encoding of a referral reads as that referral.
pub(crate) proof fn lemma_referral_bytes_read(referral: ReferralView)
    requires
        referral_encodable(referral),
    ensures
        reads_referral(referral_bytes(referral), referral),
{
    let f1 = referral.campaign_id.bytes();
    let f2 = referral.referrer.bytes();
    let f3 = string_bytes(referral.referral_code);
    let f4 = u64_bytes(referral.successful_claims);
    let f5 = bool_bytes(referral.is_active);
    let r5 = f5 + Seq::<u8>::empty();
    let r4 = f4 + r5;
    let r3 = f3 + r4;
    let r2 = f2 + r3;
    let input = referral_bytes(referral);
    assert(input == f1 + r2) by {
        assert(r5 =~= f5);
        lemma_field_joins_front(f1 + f2 + f3, f4, r5);
        lemma_field_joins_front(f1 + f2, f3, r4);
        lemma_field_joins_front(f1, f2, r3);
    }
    lemma_key_in_front(referral.campaign_id, r2);
    lemma_key_in_front(referral.referrer, r3);
    lemma_string_in_front(referral.referral_code, r4);
    lemma_u64_in_front(referral.successful_claims, r5);
    lemma_bool_in_front(referral.is_active, Seq::<u8>::empty());
}

/// Input that reads as a referral is that referral's encoding.
pub(crate) proof fn lemma_referral_read_is_encoding(input: Seq<u8>, referral: ReferralView)
    requires
        reads_referral(input, referral),
    ensures
        referral_encodable(referral),
        referral_bytes(referral) == input,
{
    let f1 = referral.campaign_id.bytes();
    let f2 = referral.referrer.bytes();
    let f3 = string_bytes(referral.referral_code);
    let f4 = u64_bytes(referral.successful_claims);
    let f5 = bool_bytes(referral.is_active);
    let s1 = after_key(input);
    let s2 = after_key(s1);
    let s3 = after_string(s2);
    let s4 = after_u64(s3);
    let s5 = after_bool(s4);
    lemma_key_was_in_front(input, referral.campaign_id);
    lemma_key_was_in_front(s1, referral.referrer);
    lemma_string_was_in_front(s2, referral.referral_code);
    lemma_u64_was_in_front(s3, referral.successful_claims);
    lemma_bool_was_in_front(s4, referral.is_active);
    assert(input == f1 + s1);
    assert(input == f1 + f2 + s2) by {
        lemma_field_joins_front(f1, f2, s2);
    }
    assert(input == f1 + f2 + f3 + s3) by {
        lemma_field_joins_front(f1 + f2, f3, s3);
    }
    assert(input == f1 + f2 + f3 + f4 + s4) by {
        lemma_field_joins_front(f1 + f2 + f3, f4, s4);
    }
    assert(input == f1 + f2 + f3 + f4 + f5) by {
        assert(f5 + s5 =~= f5);
    }
}

/// Input reads as at most one referral.
pub(crate) proof fn lemma_referral_read_is_unique(input: Seq<u8>, a: ReferralView, b: ReferralView)
    requires
        reads_referral(input, a),
        reads_referral(input, b),
    ensures
        a == b,
{
    lemma_string_read_is_unique(after_key(after_key(input)), a.referral_code, b.referral_code);
    assert(a.campaign_id.0 =~= b.campaign_id.0);
    assert(a.referrer.0 =~= b.referrer.0);
}

/// Input that reads as a referral decodes to it.
pub(crate) proof fn lemma_referral_read_is_decoding(input: Seq<u8>, referral: ReferralView)
    requires
        reads_referral(input, referral),
    ensures
        referral_decoding(input) == Some(referral),
{
    lemma_referral_read_is_encoding(input, referral);
    let chosen = choose|r: ReferralView|
        referral_encodable(r) && #[trigger] referral_bytes(r) == input;
    lemma_referral_bytes_read(chosen);
    lemma_referral_read_is_unique(input, referral, chosen);
}

/// Input that reads as no referral decodes to none.
pub(crate) proof fn lemma_referral_unread_is_no_decoding(input: Seq<u8>)
    requires
        forall|referral: ReferralView| !reads_referral(input, referral),
    ensures
        referral_decoding(input) is None,
{
    assert forall|referral: ReferralView|
        referral_encodable(referral) implies #[trigger] referral_bytes(referral) != input by {
        lemma_referral_bytes_read(referral);
    }
}

/// Decoding inverts encoding: the encoding of a referral decodes to that
/// referral and to no other.
pub proof fn lemma_referral_round_trip(referral: ReferralView)
    requires
        referral_encodable(referral),
    ensures
        referral_decoding(referral_bytes(referral)) == Some(referral),
{
    lemma_referral_bytes_read(referral);
    lemma_referral_read_is_decoding(referral_bytes(referral), referral);
}

/// Encoding inverts decoding: input that decodes to a referral is that
/// referral's encoding.
pub proof fn lemma_referral_decoding_is_exact(input: Seq<u8>, referral: ReferralView)
    requires
        referral_decoding(input) == Some(referral),
    ensures
        referral_encodable(referral),
        referral_bytes(referral) == input,
{
}

/// Two referrals with the same strings have encodings of the same length, and
/// either both have an encoding or neither has.
pub proof fn lemma_referral_same_length(a: ReferralView, b: ReferralView)
    requires
        a.referral_code == b.referral_code,
    ensures
        referral_encodable(a) == referral_encodable(b),
        referral_bytes(a).len() == referral_bytes(b).len(),
{
    lemma_auto_spec_u64_to_from_le_bytes();
}

/// Reads a referral off `bytes`, field by field and to the last byte.
fn read_referral(bytes: &[u8]) -> (r: Option<ReferralAccount>)
    ensures
        match r {
            Some(referral) => reads_referral(bytes@, referral@),
            None => forall|referral: ReferralView| !reads_referral(bytes@, referral),
        },
{
    broadcast use encode_utf8_valid_utf8;

    let mut rest = bytes;
    let campaign_id = take_key(&mut rest)?;
    let referrer = take_key(&mut rest)?;
    let referral_code = take_string(&mut rest)?;
    let successful_claims = take_u64(&mut rest)?;
    let is_active = take_bool(&mut rest)?;
    if rest.len() != 0 {
        return None;
    }
    Some(ReferralAccount { campaign_id, referrer, referral_code, successful_claims, is_active })
}

impl ReferralAccount {
    /// Decodes a referral from exactly `bytes`: `None` unless `bytes` is,
    /// from first byte to last, the encoding of a referral.
    pub fn try_from_slice(bytes: &[u8]) -> (r: Option<ReferralAccount>)
        ensures
            match r {
                Some(referral) => referral_decoding(bytes@) == Some(referral@),
                None => referral_decoding(bytes@) is None,
            },
    {
        let r = read_referral(bytes);
        proof {
            match &r {
                Some(referral) => lemma_referral_read_is_decoding(bytes@, referral@),
                None => lemma_referral_unread_is_no_decoding(bytes@),
            }
        }
        r
    }

    /// Encodes the referral: `None` if its code is too long to be stored.
    pub fn try_to_vec(&self) -> (r: Option<Vec<u8>>)
        ensures
            match r {
                Some(bytes) => referral_encodable(self@) && bytes@ == referral_bytes(self@),
                None => !referral_encodable(self@),
            },
    {
        let mut out: Vec<u8> = Vec::new();
        put_key(&self.campaign_id, &mut out);
        assert(out@ =~= self.campaign_id.bytes());
        put_key(&self.referrer, &mut out);
        if !put_string(&self.referral_code, &mut out) {
            return None;
        }
        put_u64(self.successful_claims, &mut out);
        put_bool(self.is_active, &mut out);
        Some(out)
    }
}

} // verus!
