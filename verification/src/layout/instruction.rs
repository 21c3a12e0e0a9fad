//! The byte layout of an instruction payload.

use vstd::prelude::*;
use vstd::utf8::encode_utf8_valid_utf8;
use crate::instruction::{InstructionView, ReferralInstruction};
use crate::layout::fields::{
    after_key, after_string, after_u64, lemma_field_joins_front, lemma_key_in_front,
    lemma_key_was_in_front, lemma_string_in_front, lemma_string_read_is_unique,
    lemma_string_was_in_front, lemma_u64_in_front, lemma_u64_was_in_front, reads_key,
    reads_string, reads_u64,
};
use crate::primitives::{
    put_key, put_string, put_u64, put_u8, string_bytes, string_encodable, take_key,
    take_string, take_u64, take_u8, u64_bytes,
};

verus! {

/// The byte that tells the operation: the position of its variant.
pub open spec fn instruction_tag(instruction: InstructionView) -> u8 {
    match instruction {
        InstructionView::InitializeCampaign { .. } => 0,
        InstructionView::CreateReferral { .. } => 1,
        InstructionView::ClaimReferral { .. } => 2,
    }
}

/// Whether an instruction has an encoding: its strings can be stored.
pub open spec fn instruction_encodable(instruction: InstructionView) -> bool {
    match instruction {
        InstructionView::InitializeCampaign {
            campaign_name,
            campaign_description,
            ..
        } => string_encodable(campaign_name) && string_encodable(campaign_description),
        InstructionView::CreateReferral { referral_code, .. } => string_encodable(referral_code),
        InstructionView::ClaimReferral { referral_code } => string_encodable(referral_code),
    }
}

/// The fields of an instruction, in order, as they follow the tag.
pub open spec fn instruction_fields_bytes(instruction: InstructionView) -> Seq<u8> {
    match instruction {
        InstructionView::InitializeCampaign {
            campaign_name,
            campaign_description,
            end_date,
            referrer_reward,
            referee_reward,
            token_supply,
        } => string_bytes(campaign_name) + string_bytes(campaign_description) + u64_bytes(
            end_date,
        ) + u64_bytes(referrer_reward) + u64_bytes(referee_reward) + u64_bytes(token_supply),
        InstructionView::CreateReferral { campaign_id, referral_code } => campaign_id.bytes()
            + string_bytes(referral_code),
        InstructionView::ClaimReferral { referral_code } => string_bytes(referral_code),
    }
}

/// The encoding of an instruction: its tag, then its fields.
pub open spec fn instruction_bytes(instruction: InstructionView) -> Seq<u8> {
    seq![instruction_tag(instruction)] + instruction_fields_bytes(instruction)
}

/// `input` reads, field by field and to its last byte, as the fields of
/// `instruction`.
pub(crate) open spec fn reads_instruction_fields(
    input: Seq<u8>,
    instruction: InstructionView,
) -> bool {
    match instruction {
        InstructionView::InitializeCampaign {
            campaign_name,
            campaign_description,
            end_date,
            referrer_reward,
            referee_reward,
            token_supply,
        } => {
            let s1 = after_string(input);
            let s2 = after_string(s1);
            let s3 = after_u64(s2);
            let s4 = after_u64(s3);
            let s5 = after_u64(s4);
            &&& reads_string(input, campaign_name)
            &&& reads_string(s1, campaign_description)
            &&& reads_u64(s2, end_date)
            &&& reads_u64(s3, referrer_reward)
            &&& reads_u64(s4, referee_reward)
            &&& reads_u64(s5, token_supply)
            &&& after_u64(s5).len() == 0
        },
        InstructionView::CreateReferral { campaign_id, referral_code } => {
            let s1 = after_key(input);
            &&& reads_key(input, campaign_id)
            &&& reads_string(s1, referral_code)
            &&& after_string(s1).len() == 0
        },
        InstructionView::ClaimReferral { referral_code } => {
            &&& reads_string(input, referral_code)
            &&& after_string(input).len() == 0
        },
    }
}

/// `input` reads as `instruction`: its first byte is the instruction's tag
/// and the rest reads as the instruction's fields.
pub(crate) open spec fn reads_instruction(input: Seq<u8>, instruction: InstructionView) -> bool {
    &&& input.len() >= 1
    &&& input[0] == instruction_tag(instruction)
    &&& reads_instruction_fields(input.skip(1), instruction)
}

/// The instruction that `input` encodes, if it encodes one.
pub open spec fn instruction_decoding(input: Seq<u8>) -> Option<InstructionView> {
    if exists|instruction: InstructionView|
        instruction_encodable(instruction) && #[trigger] instruction_bytes(instruction) == input {
        Some(
            choose|instruction: InstructionView|
                instruction_encodable(instruction) && #[trigger] instruction_bytes(instruction)
                    == input,
        )
    } else {
        None
    }
}

/// The fields of an instruction, encoded, read as the fields of that
/// instruction.
proof fn lemma_instruction_fields_bytes_read(instruction: InstructionView)
    requires
        instruction_encodable(instruction),
    ensures
        reads_instruction_fields(instruction_fields_bytes(instruction), instruction),
{
    let input = instruction_fields_bytes(instruction);
    let empty = Seq::<u8>::empty();
    match instruction {
        InstructionView::InitializeCampaign {
            campaign_name,
            campaign_description,
            end_date,
            referrer_reward,
            referee_reward,
            token_supply,
        } => {
            let f1 = string_bytes(campaign_name);
            let f2 = string_bytes(campaign_description);
            let f3 = u64_bytes(end_date);
            let f4 = u64_bytes(referrer_reward);
            let f5 = u64_bytes(referee_reward);
            let f6 = u64_bytes(token_supply);
            let r6 = f6 + empty;
            let r5 = f5 + r6;
            let r4 = f4 + r5;
            let r3 = f3 + r4;
            let r2 = f2 + r3;
            assert(input == f1 + r2) by {
                assert(r6 =~= f6);
                lemma_field_joins_front(f1 + f2 + f3 + f4, f5, r6);
                lemma_field_joins_front(f1 + f2 + f3, f4, r5);
                lemma_field_joins_front(f1 + f2, f3, r4);
                lemma_field_joins_front(f1, f2, r3);
            }
            lemma_string_in_front(campaign_name, r2);
            lemma_string_in_front(campaign_description, r3);
            lemma_u64_in_front(end_date, r4);
            lemma_u64_in_front(referrer_reward, r5);
            lemma_u64_in_front(referee_reward, r6);
            lemma_u64_in_front(token_supply, empty);
        },
        InstructionView::CreateReferral { campaign_id, referral_code } => {
            let r2 = string_bytes(referral_code) + empty;
            assert(r2 =~= string_bytes(referral_code));
            lemma_key_in_front(campaign_id, r2);
            lemma_string_in_front(referral_code, empty);
        },
        InstructionView::ClaimReferral { referral_code } => {
            assert(string_bytes(referral_code) + empty =~= string_bytes(referral_code));
            lemma_string_in_front(referral_code, empty);
        },
    }
}

/// Input that reads as the fields of an instruction is the encoding of
/// those fields.
proof fn lemma_instruction_fields_read_is_encoding(input: Seq<u8>, instruction: InstructionView)
    requires
        reads_instruction_fields(input, instruction),
    ensures
        instruction_encodable(instruction),
        instruction_fields_bytes(instruction) == input,
{
    match instruction {
        InstructionView::InitializeCampaign {
            campaign_name,
            campaign_description,
            end_date,
            referrer_reward,
            referee_reward,
            token_supply,
        } => {
            let f1 = string_bytes(campaign_name);
            let f2 = string_bytes(campaign_description);
            let f3 = u64_bytes(end_date);
            let f4 = u64_bytes(referrer_reward);
            let f5 = u64_bytes(referee_reward);
            let f6 = u64_bytes(token_supply);
            let s1 = after_string(input);
            let s2 = after_string(s1);
            let s3 = after_u64(s2);
            let s4 = after_u64(s3);
            let s5 = after_u64(s4);
            let s6 = after_u64(s5);
            lemma_string_was_in_front(input, campaign_name);
            lemma_string_was_in_front(s1, campaign_description);
            lemma_u64_was_in_front(s2, end_date);
            lemma_u64_was_in_front(s3, referrer_reward);
            lemma_u64_was_in_front(s4, referee_reward);
            lemma_u64_was_in_front(s5, token_supply);
            assert(input == f1 + s1);
            assert(input == f1 + f2 + s2) by {
                lemma_field_joins_front(f1, f2, s2);
            }
            assert(input == f1 + f2 + f3 + s3) by {
                lemma_field_joins_front(f1 + f2, f3, s3);
            }
            assert(input == f1 + f2 + f3 + f4 + s4) by {
                lemma_field_joins_front(f1 + f2 + f3, f4, s4);
            }
            assert(input == f1 + f2 + f3 + f4 + f5 + s5) by {
                lemma_field_joins_front(f1 + f2 + f3 + f4, f5, s5);
            }
            assert(input == f1 + f2 + f3 + f4 + f5 + f6) by {
                assert(f6 + s6 =~= f6);
            }
        },
        InstructionView::CreateReferral { campaign_id, referral_code } => {
            let f1 = campaign_id.bytes();
            let f2 = string_bytes(referral_code);
            let s1 = after_key(input);
            let s2 = after_string(s1);
            lemma_key_was_in_front(input, campaign_id);
            lemma_string_was_in_front(s1, referral_code);
            assert(input == f1 + f2) by {
                assert(f2 + s2 =~= f2);
            }
        },
        InstructionView::ClaimReferral { referral_code } => {
            let f1 = string_bytes(referral_code);
            lemma_string_was_in_front(input, referral_code);
            assert(f1 + after_string(input) =~= f1);
        },
    }
}

/// The encoding of an instruction reads as that instruction.
pub(crate) proof fn lemma_instruction_bytes_read(instruction: InstructionView)
    requires
        instruction_encodable(instruction),
    ensures
        reads_instruction(instruction_bytes(instruction), instruction),
{
    lemma_instruction_fields_bytes_read(instruction);
    assert(instruction_bytes(instruction).skip(1) =~= instruction_fields_bytes(instruction));
}

/// Input that reads as an instruction is that instruction's encoding.
pub(crate) proof fn lemma_instruction_read_is_encoding(input: Seq<u8>, instruction: InstructionView)
    requires
        reads_instruction(input, instruction),
    ensures
        instruction_encodable(instruction),
        instruction_bytes(instruction) == input,
{
    lemma_instruction_fields_read_is_encoding(input.skip(1), instruction);
    assert(input =~= seq![input[0]] + input.skip(1));
}

/// Input reads as at most one instruction.
pub(crate) proof fn lemma_instruction_read_is_unique(
    input: Seq<u8>,
    a: InstructionView,
    b: InstructionView,
)
    requires
        reads_instruction(input, a),
        reads_instruction(input, b),
    ensures
        a == b,
{
    let fields = input.skip(1);
    match (a, b) {
        (
            InstructionView::InitializeCampaign {
                campaign_name: name_a,
                campaign_description: description_a,
                ..
            },
            InstructionView::InitializeCampaign {
                campaign_name: name_b,
                campaign_description: description_b,
                ..
            },
        ) => {
            lemma_string_read_is_unique(fields, name_a, name_b);
            lemma_string_read_is_unique(after_string(fields), description_a, description_b);
        },
        (
            InstructionView::CreateReferral { campaign_id: id_a, referral_code: code_a },
            InstructionView::CreateReferral { campaign_id: id_b, referral_code: code_b },
        ) => {
            lemma_string_read_is_unique(after_key(fields), code_a, code_b);
            assert(id_a.0 =~= id_b.0);
        },
        (
            InstructionView::ClaimReferral { referral_code: code_a },
            InstructionView::ClaimReferral { referral_code: code_b },
        ) => {
            lemma_string_read_is_unique(fields, code_a, code_b);
        },
        _ => {},
    }
}

/// Input that reads as an instruction decodes to it.
pub(crate) proof fn lemma_instruction_read_is_decoding(input: Seq<u8>, instruction: InstructionView)
    requires
        reads_instruction(input, instruction),
    ensures
        instruction_decoding(input) == Some(instruction),
{
    lemma_instruction_read_is_encoding(input, instruction);
    let chosen = choose|i: InstructionView|
        instruction_encodable(i) && #[trigger] instruction_bytes(i) == input;
    lemma_instruction_bytes_read(chosen);
    lemma_instruction_read_is_unique(input, instruction, chosen);
}

/// Input that reads as no instruction decodes to none.
pub(crate) proof fn lemma_instruction_unread_is_no_decoding(input: Seq<u8>)
    requires
        forall|instruction: InstructionView| !reads_instruction(input, instruction),
    ensures
        instruction_decoding(input) is None,
{
    assert forall|instruction: InstructionView|
        instruction_encodable(instruction) implies #[trigger] instruction_bytes(instruction)
        != input by {
        lemma_instruction_bytes_read(instruction);
    }
}

/// Decoding inverts encoding: the encoding of an instruction decodes to
/// that instruction and to no other.
pub proof fn lemma_instruction_round_trip(instruction: InstructionView)
    requires
        instruction_encodable(instruction),
    ensures
        instruction_decoding(instruction_bytes(instruction)) == Some(instruction),
{
    lemma_instruction_bytes_read(instruction);
    lemma_instruction_read_is_decoding(instruction_bytes(instruction), instruction);
}

/// Encoding inverts decoding: input that decodes to an instruction is that
/// instruction's encoding.
pub proof fn lemma_instruction_decoding_is_exact(input: Seq<u8>, instruction: InstructionView)
    requires
        instruction_decoding(input) == Some(instruction),
    ensures
        instruction_encodable(instruction),
        instruction_bytes(instruction) == input,
{
}

/// Reads the fields of an `InitializeCampaign` off `bytes`, to the last byte.
fn read_initialize_campaign(bytes: &[u8]) -> (r: Option<ReferralInstruction>)
    ensures
        match r {
            Some(instruction) => instruction@ is InitializeCampaign && reads_instruction_fields(
                bytes@,
                instruction@,
            ),
            None => forall|instruction: InstructionView|
                instruction is InitializeCampaign ==> !reads_instruction_fields(
                    bytes@,
                    instruction,
                ),
        },
{
    broadcast use encode_utf8_valid_utf8;

    let mut rest = bytes;
    let campaign_name = take_string(&mut rest)?;
    let campaign_description = take_string(&mut rest)?;
    let end_date = take_u64(&mut rest)?;
    let referrer_reward = take_u64(&mut rest)?;
    let referee_reward = take_u64(&mut rest)?;
    let token_supply = take_u64(&mut rest)?;
    if rest.len() != 0 {
        return None;
    }
    Some(
        ReferralInstruction::InitializeCampaign {
            campaign_name,
            campaign_description,
            end_date,
            referrer_reward,
            referee_reward,
            token_supply,
        },
    )
}

/// Reads the fields of a `CreateReferral` off `bytes`, to the last byte.
fn read_create_referral(bytes: &[u8]) -> (r: Option<ReferralInstruction>)
    ensures
        match r {
            Some(instruction) => instruction@ is CreateReferral && reads_instruction_fields(
                bytes@,
                instruction@,
            ),
            None => forall|instruction: InstructionView|
                instruction is CreateReferral ==> !reads_instruction_fields(bytes@, instruction),
        },
{
    broadcast use encode_utf8_valid_utf8;

    let mut rest = bytes;
    let campaign_id = take_key(&mut rest)?;
    let referral_code = take_string(&mut rest)?;
    if rest.len() != 0 {
        return None;
    }
    Some(ReferralInstruction::CreateReferral { campaign_id, referral_code })
}

/// Reads the fields of a `ClaimReferral` off `bytes`, to the last byte.
fn read_claim_referral(bytes: &[u8]) -> (r: Option<ReferralInstruction>)
    ensures
        match r {
            Some(instruction) => instruction@ is ClaimReferral && reads_instruction_fields(
                bytes@,
                instruction@,
            ),
            None => forall|instruction: InstructionView|
                instruction is ClaimReferral ==> !reads_instruction_fields(bytes@, instruction),
        },
{
    broadcast use encode_utf8_valid_utf8;

    let mut rest = bytes;
    let referral_code = take_string(&mut rest)?;
    if rest.len() != 0 {
        return None;
    }
    Some(ReferralInstruction::ClaimReferral { referral_code })
}

/// Reads an instruction off `bytes`: the tag, then the fields that the tag
/// calls for, to the last byte.
fn read_instruction(bytes: &[u8]) -> (r: Option<ReferralInstruction>)
    ensures
        match r {
            Some(instruction) => reads_instruction(bytes@, instruction@),
            None => forall|instruction: InstructionView| !reads_instruction(bytes@, instruction),
        },
{
    let mut rest = bytes;
    let tag = take_u8(&mut rest)?;
    if tag == 0 {
        read_initialize_campaign(rest)
    } else if tag == 1 {
        read_create_referral(rest)
    } else if tag == 2 {
        read_claim_referral(rest)
    } else {
        None
    }
}

impl ReferralInstruction {
    /// Decodes an instruction from exactly `bytes`: `None` unless `bytes`
    /// is, from first byte to last, the encoding of an instruction.
    pub fn try_from_slice(bytes: &[u8]) -> (r: Option<ReferralInstruction>)
        ensures
            match r {
                Some(instruction) => instruction_decoding(bytes@) == Some(instruction@),
                None => instruction_decoding(bytes@) is None,
            },
    {
        let r = read_instruction(bytes);
        proof {
            match &r {
                Some(instruction) => lemma_instruction_read_is_decoding(bytes@, instruction@),
                None => lemma_instruction_unread_is_no_decoding(bytes@),
            }
        }
        r
    }

    /// Encodes the instruction: `None` if one of its strings is too long to
    /// be stored.
    pub fn try_to_vec(&self) -> (r: Option<Vec<u8>>)
        ensures
            match r {
                Some(bytes) => instruction_encodable(self@) && bytes@ == instruction_bytes(
                    self@,
                ),
                None => !instruction_encodable(self@),
            },
    {
        let mut out: Vec<u8> = Vec::new();
        let ghost tag = seq![instruction_tag(self@)];
        match self {
            ReferralInstruction::InitializeCampaign {
                campaign_name,
                campaign_description,
                end_date,
                referrer_reward,
                referee_reward,
                token_supply,
            } => {
                put_u8(0, &mut out);
                assert(out@ =~= tag);
                if !put_string(campaign_name, &mut out) {
                    return None;
                }
                if !put_string(campaign_description, &mut out) {
                    return None;
                }
                put_u64(*end_date, &mut out);
                put_u64(*referrer_reward, &mut out);
                put_u64(*referee_reward, &mut out);
                put_u64(*token_supply, &mut out);
                proof {
                    let f1 = string_bytes(campaign_name@);
                    let f2 = string_bytes(campaign_description@);
                    let f3 = u64_bytes(*end_date);
                    let f4 = u64_bytes(*referrer_reward);
                    let f5 = u64_bytes(*referee_reward);
                    let f6 = u64_bytes(*token_supply);
                    lemma_field_joins_front(tag, f1, f2);
                    lemma_field_joins_front(tag, f1 + f2, f3);
                    lemma_field_joins_front(tag, f1 + f2 + f3, f4);
                    lemma_field_joins_front(tag, f1 + f2 + f3 + f4, f5);
                    lemma_field_joins_front(tag, f1 + f2 + f3 + f4 + f5, f6);
                }
            },
            ReferralInstruction::CreateReferral { campaign_id, referral_code } => {
                put_u8(1, &mut out);
                assert(out@ =~= tag);
                put_key(campaign_id, &mut out);
                if !put_string(referral_code, &mut out) {
                    return None;
                }
                proof {
                    lemma_field_joins_front(
                        tag,
                        campaign_id.bytes(),
                        string_bytes(referral_code@),
                    );
                }
            },
            ReferralInstruction::ClaimReferral { referral_code } => {
                put_u8(2, &mut out);
                assert(out@ =~= tag);
                if !put_string(referral_code, &mut out) {
                    return None;
                }
            },
        }
        Some(out)
    }
}

} // verus!
