//! The address codec, as far as the host calls use it.
//!
//! Addresses are put into text and read back by the `bech32` crate. Nothing
//! in this file is proved: each function below makes one call into that
//! crate. What the codec computes is not spelled out here. Each result has a
//! name instead, and a function says that the call returns what the name
//! stands for, so that the same input is known to give the same output.

use vstd::prelude::*;
use bech32::{u5, FromBase32, ToBase32};

verus! {

/// `bech32::u5`, one symbol of an address's data part.
#[verifier::external_type_specification]
#[verifier::external_body]
pub struct ExSymbol(bech32::u5);

/// `bech32::Error`, the codec's own account of a failure.
#[verifier::external_type_specification]
#[verifier::external_body]
pub struct ExCodecError(bech32::Error);

/// The prefix and the data symbols that `text` spells as a checksummed
/// address, if it spells one.
pub uninterp spec fn bech32_decoded(text: Seq<char>) -> Option<(Seq<char>, Seq<u5>)>;

/// The checksummed address text for `prefix` and `data`, for a prefix that
/// the codec accepts.
pub uninterp spec fn bech32_encoded(prefix: Seq<char>, data: Seq<u5>) -> Seq<char>;

/// The bytes that the symbols `data` spell, if they spell whole bytes.
pub uninterp spec fn base32_bytes(data: Seq<u5>) -> Option<Seq<u8>>;

/// The symbols that spell `bytes`.
pub uninterp spec fn bytes_base32(bytes: Seq<u8>) -> Seq<u5>;

/// Whether the codec accepts `prefix` as the readable part of an address:
/// one to 83 printable ASCII characters, letters all of one case.
pub open spec fn acceptable_prefix(prefix: Seq<char>) -> bool {
    &&& 1 <= prefix.len() <= 83
    &&& forall|i: int| 0 <= i < prefix.len() ==> 33 <= (#[trigger] prefix[i]) as u32 <= 126
    &&& !({
        &&& exists|i: int| 0 <= i < prefix.len() && 'a' <= #[trigger] prefix[i] <= 'z'
        &&& exists|i: int| 0 <= i < prefix.len() && 'A' <= #[trigger] prefix[i] <= 'Z'
    })
}

/// `bech32::decode`.
///
/// Claims that the call is a function of the text alone: it succeeds where
/// the text spells an address, and gives its prefix and data symbols.
#[verifier::external_body]
pub(crate) fn decode(text: &str) -> (decoded: Result<(String, Vec<u5>), bech32::Error>)
    ensures
        decoded is Ok <==> bech32_decoded(text@) is Some,
        decoded matches Ok(parts) ==> bech32_decoded(text@) == Some((parts.0@, parts.1@)),
{
    bech32::decode(text)
}

/// `bech32::encode`.
///
/// Claims that the call fails exactly on a prefix that the codec does not
/// accept, and that the text it gives is a function of the prefix and the
/// data alone.
#[verifier::external_body]
pub(crate) fn encode(prefix: &str, data: Vec<u5>) -> (text: Result<String, bech32::Error>)
    ensures
        text is Ok <==> acceptable_prefix(prefix@),
        text matches Ok(address) ==> address@ == bech32_encoded(prefix@, data@),
{
    bech32::encode(prefix, data)
}

/// `bech32::FromBase32::from_base32`, for `Vec<u8>`.
///
/// Claims that the call is a function of the symbols alone: it succeeds
/// where they spell whole bytes, and gives those bytes.
#[verifier::external_body]
pub(crate) fn from_base32(data: &Vec<u5>) -> (bytes: Result<Vec<u8>, bech32::Error>)
    ensures
        bytes is Ok <==> base32_bytes(data@) is Some,
        bytes matches Ok(spelled) ==> base32_bytes(data@) == Some(spelled@),
{
    Vec::<u8>::from_base32(data)
}

/// `bech32::ToBase32::to_base32`, for a slice of bytes.
///
/// Claims that the symbols it gives are a function of the bytes alone.
#[verifier::external_body]
pub(crate) fn to_base32(bytes: &[u8]) -> (data: Vec<u5>)
    ensures
        data@ == bytes_base32(bytes@),
{
    bytes.to_base32()
}

} // verus!
