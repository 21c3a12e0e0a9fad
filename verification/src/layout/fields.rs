//! Reading one field off the front of a byte sequence.
//!
//! For each field type, `reads_*` says when the input begins with a value of
//! that type and `after_*` what follows it. The lemmas tie reading to the
//! field layouts: a field written in front of other bytes is read back as
//! itself, and input that reads as a field is that field's bytes and the rest.

use vstd::bytes::{
    lemma_auto_spec_u32_to_from_le_bytes, lemma_auto_spec_u64_to_from_le_bytes,
    spec_u32_to_le_bytes, spec_u64_from_le_bytes,
};
use vstd::prelude::*;
use vstd::seq_lib::lemma_concat_associative;
use vstd::utf8::{encode_utf8, encode_utf8_decode_utf8, encode_utf8_valid_utf8, valid_utf8};
use crate::primitives::{
    announced_bytes, announced_length, bool_bytes, holds_announced_bytes, string_bytes,
    string_encodable, u64_bytes,
};
use crate::state::Pubkey;

verus! {

/// `input` begins with the 32 bytes of `value`.
pub(crate) open spec fn reads_key(input: Seq<u8>, value: Pubkey) -> bool {
    input.len() >= 32 && value.bytes() == input.take(32)
}

/// What follows an identity at the front of `input`.
pub(crate) open spec fn after_key(input: Seq<u8>) -> Seq<u8> {
    input.skip(32)
}

/// `input` begins with the eight bytes of `value`.
pub(crate) open spec fn reads_u64(input: Seq<u8>, value: u64) -> bool {
    input.len() >= 8 && value == spec_u64_from_le_bytes(input.take(8))
}

/// What follows a `u64` at the front of `input`.
pub(crate) open spec fn after_u64(input: Seq<u8>) -> Seq<u8> {
    input.skip(8)
}

/// `input` begins with the byte of `value`.
pub(crate) open spec fn reads_bool(input: Seq<u8>, value: bool) -> bool {
    input.len() >= 1 && input[0] == (if value {
        1u8
    } else {
        0u8
    })
}

/// What follows a `bool` at the front of `input`.
pub(crate) open spec fn after_bool(input: Seq<u8>) -> Seq<u8> {
    input.skip(1)
}

/// `input` begins with a length and that many bytes of valid UTF-8, which
/// are the UTF-8 form of `value`.
pub(crate) open spec fn reads_string(input: Seq<u8>, value: Seq<char>) -> bool {
    &&& holds_announced_bytes(input)
    &&& valid_utf8(announced_bytes(input))
    &&& encode_utf8(value) == announced_bytes(input)
}

/// What follows a string at the front of `input`.
pub(crate) open spec fn after_string(input: Seq<u8>) -> Seq<u8> {
    input.skip(4 + announced_length(input))
}

/// Bytes that are `front` followed by a field and a rest are also `front`
/// with the field appended, followed by the rest.
pub(crate) proof fn lemma_field_joins_front(front: Seq<u8>, field: Seq<u8>, rest: Seq<u8>)
    ensures
        front + (field + rest) == (front + field) + rest,
{
    lemma_concat_associative(front, field, rest);
}

/// An identity in front of `rest` is read back as itself, and `rest` follows.
pub(crate) proof fn lemma_key_in_front(value: Pubkey, rest: Seq<u8>)
    ensures
        reads_key(value.bytes() + rest, value),
        after_key(value.bytes() + rest) == rest,
{
    let input = value.bytes() + rest;
    assert(value.bytes().len() == 32);
    assert(input.take(32) =~= value.bytes());
    assert(input.skip(32) =~= rest);
}

/// Input that reads as an identity is that identity's bytes and what follows.
pub(crate) proof fn lemma_key_was_in_front(input: Seq<u8>, value: Pubkey)
    requires
        reads_key(input, value),
    ensures
        input == value.bytes() + after_key(input),
{
    assert(input =~= input.take(32) + input.skip(32));
}

/// A `u64` in front of `rest` is read back as itself, and `rest` follows.
pub(crate) proof fn lemma_u64_in_front(value: u64, rest: Seq<u8>)
    ensures
        reads_u64(u64_bytes(value) + rest, value),
        after_u64(u64_bytes(value) + rest) == rest,
{
    lemma_auto_spec_u64_to_from_le_bytes();
    let input = u64_bytes(value) + rest;
    assert(u64_bytes(value).len() == 8);
    assert(input.take(8) =~= u64_bytes(value));
    assert(input.skip(8) =~= rest);
}

/// Input that reads as a `u64` is that number's bytes and what follows.
pub(crate) proof fn lemma_u64_was_in_front(input: Seq<u8>, value: u64)
    requires
        reads_u64(input, value),
    ensures
        input == u64_bytes(value) + after_u64(input),
{
    lemma_auto_spec_u64_to_from_le_bytes();
    assert(input.take(8).len() == 8);
    assert(u64_bytes(value) == input.take(8));
    assert(input =~= input.take(8) + input.skip(8));
}

/// A `bool` in front of `rest` is read back as itself, and `rest` follows.
pub(crate) proof fn lemma_bool_in_front(value: bool, rest: Seq<u8>)
    ensures
        reads_bool(bool_bytes(value) + rest, value),
        after_bool(bool_bytes(value) + rest) == rest,
{
    let input = bool_bytes(value) + rest;
    assert(input.skip(1) =~= rest);
}

/// Input that reads as a `bool` is that value's byte and what follows.
pub(crate) proof fn lemma_bool_was_in_front(input: Seq<u8>, value: bool)
    requires
        reads_bool(input, value),
    ensures
        input == bool_bytes(value) + after_bool(input),
{
    assert(input =~= bool_bytes(value) + input.skip(1));
}

/// A string that can be stored, in front of `rest`, is read back as itself,
/// and `rest` follows.
pub(crate) proof fn lemma_string_in_front(value: Seq<char>, rest: Seq<u8>)
    requires
        string_encodable(value),
    ensures
        reads_string(string_bytes(value) + rest, value),
        after_string(string_bytes(value) + rest) == rest,
{
    lemma_auto_spec_u32_to_from_le_bytes();
    encode_utf8_valid_utf8(value);
    let payload = encode_utf8(value);
    let length = spec_u32_to_le_bytes(payload.len() as u32);
    let input = string_bytes(value) + rest;
    assert(length.len() == 4);
    assert(input.take(4) =~= length);
    assert(announced_length(input) == payload.len());
    assert(announced_bytes(input) =~= payload);
    assert(input.skip(4 + announced_length(input)) =~= rest);
}

/// Input that reads as a string is that string's bytes and what follows,
/// and the string can be stored.
pub(crate) proof fn lemma_string_was_in_front(input: Seq<u8>, value: Seq<char>)
    requires
        reads_string(input, value),
    ensures
        string_encodable(value),
        input == string_bytes(value) + after_string(input),
{
    lemma_auto_spec_u32_to_from_le_bytes();
    let n = announced_length(input);
    assert(input.take(4).len() == 4);
    assert(announced_bytes(input).len() == n);
    assert(spec_u32_to_le_bytes(n as u32) == input.take(4));
    assert(input =~= input.take(4) + input.subrange(4, 4 + n) + input.skip(4 + n));
}

/// Two strings that are read from the same input are the same string.
pub(crate) proof fn lemma_string_read_is_unique(input: Seq<u8>, a: Seq<char>, b: Seq<char>)
    requires
        reads_string(input, a),
        reads_string(input, b),
    ensures
        a == b,
{
    encode_utf8_decode_utf8(a);
    encode_utf8_decode_utf8(b);
}

} // verus!
