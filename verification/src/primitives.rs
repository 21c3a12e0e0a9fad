//! How the field types of the records are laid out in bytes.
//!
//! The records are stored in the Borsh format, and the `borsh` crate itself
//! writes and reads every field. Its behaviour on the five field types is
//! stated here once, in the contracts of the functions that call it; nothing
//! in those contracts is proved. The record layouts are assembled from these
//! functions in verified code.

use borsh::{BorshDeserialize, BorshSerialize};
use vstd::bytes::{
    spec_u32_from_le_bytes, spec_u32_to_le_bytes, spec_u64_from_le_bytes, spec_u64_to_le_bytes,
};
use vstd::prelude::*;
use vstd::utf8::{encode_utf8, valid_utf8};
use crate::state::Pubkey;

verus! {

/// A `u64` is stored as its eight bytes, least significant first.
pub open spec fn u64_bytes(value: u64) -> Seq<u8> {
    spec_u64_to_le_bytes(value)
}

/// A `bool` is stored as one byte, 1 for `true` and 0 for `false`.
pub open spec fn bool_bytes(value: bool) -> Seq<u8> {
    seq![if value { 1u8 } else { 0u8 }]
}

/// A string can be stored if its UTF-8 form is at most `u32::MAX` bytes long.
pub open spec fn string_encodable(value: Seq<char>) -> bool {
    encode_utf8(value).len() <= u32::MAX
}

/// A string is stored as the length of its UTF-8 form, in four bytes, least
/// significant first, followed by the UTF-8 form itself.
pub open spec fn string_bytes(value: Seq<char>) -> Seq<u8> {
    spec_u32_to_le_bytes(encode_utf8(value).len() as u32) + encode_utf8(value)
}

/// The length that the first four bytes of `input` announce.
pub open spec fn announced_length(input: Seq<u8>) -> int {
    spec_u32_from_le_bytes(input.take(4)) as int
}

/// `input` starts with a length and holds at least that many bytes after it.
pub open spec fn holds_announced_bytes(input: Seq<u8>) -> bool {
    input.len() >= 4 && input.len() - 4 >= announced_length(input)
}

/// The bytes that follow the length at the start of `input`, as many as the
/// length announces.
pub open spec fn announced_bytes(input: Seq<u8>) -> Seq<u8> {
    input.subrange(4, 4 + announced_length(input))
}

/// Appends one byte to `out`.
///
/// Calls `<u8 as BorshSerialize>::serialize`, which writes the byte itself.
/// Writing to a `Vec<u8>` does not fail.
#[verifier::external_body]
pub(crate) fn put_u8(value: u8, out: &mut Vec<u8>)
    ensures
        final(out)@ == old(out)@.push(value),
{
    let _ = value.serialize(out);
}

/// Appends a `u64` to `out`.
///
/// Calls `<u64 as BorshSerialize>::serialize`, which writes
/// `value.to_le_bytes()`. Writing to a `Vec<u8>` does not fail.
#[verifier::external_body]
pub(crate) fn put_u64(value: u64, out: &mut Vec<u8>)
    ensures
        final(out)@ == old(out)@ + u64_bytes(value),
{
    let _ = value.serialize(out);
}

/// Appends a `bool` to `out`.
///
/// Calls `<bool as BorshSerialize>::serialize`, which writes `u8::from(value)`.
/// Writing to a `Vec<u8>` does not fail.
#[verifier::external_body]
pub(crate) fn put_bool(value: bool, out: &mut Vec<u8>)
    ensures
        final(out)@ == old(out)@ + bool_bytes(value),
{
    let _ = value.serialize(out);
}

/// Appends the 32 bytes of an identity to `out`.
///
/// Calls `<[u8; 32] as BorshSerialize>::serialize`, which writes the array's
/// bytes in order, with no length before them. Writing to a `Vec<u8>` does
/// not fail.
#[verifier::external_body]
pub(crate) fn put_key(value: &Pubkey, out: &mut Vec<u8>)
    ensures
        final(out)@ == old(out)@ + value.bytes(),
{
    let _ = value.0.serialize(out);
}

/// Appends a string to `out`, and says whether it could.
///
/// Calls `<String as BorshSerialize>::serialize`, which serializes
/// `value.as_bytes()` as a slice: it converts the byte length to `u32` and
/// fails, before it writes anything, if the length does not fit; else it
/// writes the length's `to_le_bytes()` and then the bytes.
#[verifier::external_body]
pub(crate) fn put_string(value: &String, out: &mut Vec<u8>) -> (written: bool)
    ensures
        written == string_encodable(value@),
        final(out)@ == if written {
            old(out)@ + string_bytes(value@)
        } else {
            old(out)@
        },
{
    value.serialize(out).is_ok()
}

/// Takes one byte off the front of `input`.
///
/// Calls `<u8 as BorshDeserialize>::deserialize`, which reads exactly one
/// byte and fails if there is none.
#[verifier::external_body]
pub(crate) fn take_u8(input: &mut &[u8]) -> (r: Option<u8>)
    ensures
        match r {
            Some(value) => old(input)@.len() >= 1 && value == old(input)@[0] && final(input)@
                == old(input)@.skip(1),
            None => old(input)@.len() == 0,
        },
{
    u8::deserialize(input).ok()
}

/// Takes a `u64` off the front of `input`.
///
/// Calls `<u64 as BorshDeserialize>::deserialize`, which reads exactly eight
/// bytes, fails if there are fewer, and returns `u64::from_le_bytes` of them.
#[verifier::external_body]
pub(crate) fn take_u64(input: &mut &[u8]) -> (r: Option<u64>)
    ensures
        match r {
            Some(value) => old(input)@.len() >= 8 && value == spec_u64_from_le_bytes(
                old(input)@.take(8),
            ) && final(input)@ == old(input)@.skip(8),
            None => old(input)@.len() < 8,
        },
{
    u64::deserialize(input).ok()
}

/// Takes a `bool` off the front of `input`.
///
/// Calls `<bool as BorshDeserialize>::deserialize`, which reads one byte,
/// fails if there is none, returns `false` for 0 and `true` for 1, and fails
/// for every other byte.
#[verifier::external_body]
pub(crate) fn take_bool(input: &mut &[u8]) -> (r: Option<bool>)
    ensures
        match r {
            Some(value) => old(input)@.len() >= 1 && old(input)@[0] == (if value {
                1u8
            } else {
                0u8
            }) && final(input)@ == old(input)@.skip(1),
            None => old(input)@.len() == 0 || old(input)@[0] > 1,
        },
{
    bool::deserialize(input).ok()
}

/// Takes the 32 bytes of an identity off the front of `input`.
///
/// Calls `<[u8; 32] as BorshDeserialize>::deserialize`, which reads exactly
/// 32 bytes into the array and fails if there are fewer.
#[verifier::external_body]
pub(crate) fn take_key(input: &mut &[u8]) -> (r: Option<Pubkey>)
    ensures
        match r {
            Some(value) => old(input)@.len() >= 32 && value.bytes() == old(input)@.take(32)
                && final(input)@ == old(input)@.skip(32),
            None => old(input)@.len() < 32,
        },
{
    <[u8; 32]>::deserialize(input).ok().map(Pubkey)
}

/// Takes a string off the front of `input`.
///
/// Calls `<String as BorshDeserialize>::deserialize`, which reads a `u32`
/// length from four bytes, least significant first, then as many bytes as
/// the length says, and hands them to `String::from_utf8`; it fails if the
/// input is shorter than that or if the bytes are not valid UTF-8. A string
/// made by `String::from_utf8` has the given bytes as its UTF-8 form.
#[verifier::external_body]
pub(crate) fn take_string(input: &mut &[u8]) -> (r: Option<String>)
    ensures
        match r {
            Some(value) => {
                &&& holds_announced_bytes(old(input)@)
                &&& encode_utf8(value@) == announced_bytes(old(input)@)
                &&& final(input)@ == old(input)@.skip(4 + announced_length(old(input)@))
            },
            None => !holds_announced_bytes(old(input)@) || !valid_utf8(
                announced_bytes(old(input)@),
            ),
        },
{
    String::deserialize(input).ok()
}

} // verus!
