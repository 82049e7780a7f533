//! Addresses in their two forms: the text a person reads, and the canonical
//! bytes a contract stores.

use vstd::prelude::*;
use vstd::utf8::{decode_utf8, encode_utf8, valid_utf8};
use crate::codec::{
    acceptable_prefix,
    base32_bytes,
    bech32_decoded,
    bech32_encoded,
    bytes_base32,
    decode,
    encode,
    from_base32,
    to_base32,
};
use crate::errors::AddressError;
use crate::text::{trim, trimmed, utf8_text};

verus! {

/// The prefix of an account address on this network.
pub const BECH32_PREFIX_ACC_ADDR: &'static str = "secret";

/// The prefix of an account address on this network, as characters.
pub open spec fn account_prefix() -> Seq<char> {
    BECH32_PREFIX_ACC_ADDR@
}

/// The text of an address that arrived as `human`: the bytes read as
/// UTF-8, without the whitespace around them, and not empty.
pub open spec fn address_text(human: Seq<u8>) -> Result<Seq<char>, AddressError> {
    if !valid_utf8(human) {
        Err(AddressError::InvalidUtf8)
    } else if trimmed(decode_utf8(human)).len() == 0 {
        Err(AddressError::Empty)
    } else {
        Ok(trimmed(decode_utf8(human)))
    }
}

/// Whether an address with this prefix belongs to this network.
pub open spec fn prefix_checked(prefix: Seq<char>) -> Result<(), AddressError> {
    if prefix == account_prefix() {
        Ok(())
    } else {
        Err(AddressError::WrongPrefix)
    }
}

/// The canonical bytes of the address that arrived as `human`, or why it
/// has none. The checks come in this order: the bytes are UTF-8; the text
/// is not empty once trimmed; it is a checksummed address; its prefix is
/// this network's; its data spells whole bytes.
pub open spec fn canonical_address(human: Seq<u8>) -> Result<Seq<u8>, AddressError> {
    match address_text(human) {
        Err(error) => Err(error),
        Ok(text) => match bech32_decoded(text) {
            None => Err(AddressError::InvalidEncoding),
            Some((prefix, data)) => match prefix_checked(prefix) {
                Err(error) => Err(error),
                Ok(()) => match base32_bytes(data) {
                    None => Err(AddressError::InvalidPayload),
                    Some(bytes) => Ok(bytes),
                },
            },
        },
    }
}

/// The address text for the canonical bytes `canonical`, with this
/// network's prefix.
pub open spec fn human_address(canonical: Seq<u8>) -> Seq<char> {
    bech32_encoded(account_prefix(), bytes_base32(canonical))
}

/// Whether the codec, having read `text` as an address, puts the same
/// prefix and bytes back into the same text.
pub open spec fn codec_restores(text: Seq<char>) -> bool {
    match bech32_decoded(text) {
        Some((prefix, data)) => match base32_bytes(data) {
            Some(bytes) => bech32_encoded(prefix, bytes_base32(bytes)) == text,
            None => true,
        },
        None => true,
    }
}

/// This network's prefix is one that the codec accepts.
pub proof fn lemma_account_prefix_acceptable()
    ensures
        acceptable_prefix(account_prefix()),
{
    reveal_strlit("secret");
    let prefix = account_prefix();
    assert(prefix.len() == 6);
    assert(prefix[0] == 's' && prefix[1] == 'e' && prefix[2] == 'c' && prefix[3] == 'r'
        && prefix[4] == 'e' && prefix[5] == 't');
    assert forall|i: int| 0 <= i < prefix.len() implies 33 <= (#[trigger] prefix[i]) as u32
        <= 126 && !('A' <= prefix[i] <= 'Z') by {
        assert(i == 0 || i == 1 || i == 2 || i == 3 || i == 4 || i == 5);
    }
}

/// Reads the bytes of an address as text: UTF-8, trimmed, not empty.
pub fn read_address_text(human: &[u8]) -> (text: Result<&str, AddressError>)
    ensures
        match text {
            Ok(read) => address_text(human@) == Ok::<Seq<char>, AddressError>(read@),
            Err(error) => address_text(human@) == Err::<Seq<char>, AddressError>(error),
        },
{
    let text = match utf8_text(human) {
        Some(text) => text,
        None => return Err(AddressError::InvalidUtf8),
    };
    let inner = trim(text);
    if inner.is_empty() {
        return Err(AddressError::Empty);
    }
    Ok(inner)
}

/// Accepts the prefix of this network and no other.
pub fn check_prefix(prefix: &str) -> (checked: Result<(), AddressError>)
    ensures
        checked == prefix_checked(prefix@),
{
    let found = prefix.to_owned();
    let expected = BECH32_PREFIX_ACC_ADDR.to_owned();
    if found == expected {
        Ok(())
    } else {
        Err(AddressError::WrongPrefix)
    }
}

/// Converts the text of an address, as the bytes `human`, into its
/// canonical bytes.
pub fn canonicalize(human: &[u8]) -> (canonical: Result<Vec<u8>, AddressError>)
    ensures
        match canonical {
            Ok(bytes) => canonical_address(human@) == Ok::<Seq<u8>, AddressError>(bytes@),
            Err(error) => canonical_address(human@) == Err::<Seq<u8>, AddressError>(error),
        },
{
    let text = match read_address_text(human) {
        Ok(text) => text,
        Err(error) => return Err(error),
    };
    let (prefix, data) = match decode(text) {
        Ok(parts) => parts,
        Err(_) => return Err(AddressError::InvalidEncoding),
    };
    match check_prefix(prefix.as_str()) {
        Ok(()) => {},
        Err(error) => return Err(error),
    }
    match from_base32(&data) {
        Ok(bytes) => Ok(bytes),
        Err(_) => Err(AddressError::InvalidPayload),
    }
}

/// Converts canonical bytes into the text of an address with this
/// network's prefix. The prefix is one that the codec accepts, so this
/// never fails.
pub fn humanize(canonical: &[u8]) -> (human: Result<String, AddressError>)
    ensures
        human matches Ok(text) && text@ == human_address(canonical@),
{
    proof {
        lemma_account_prefix_acceptable();
    }
    match encode(BECH32_PREFIX_ACC_ADDR, to_base32(canonical)) {
        Ok(text) => Ok(text),
        Err(_) => Err(AddressError::EncodingFailed),
    }
}

/// Where the codec puts back into text what it read from it, humanizing a
/// canonicalized address reproduces the address, for an address that
/// arrived without whitespace around it.
pub proof fn lemma_round_trip_given_codec(human: Seq<u8>)
    requires
        canonical_address(human) is Ok,
        trimmed(decode_utf8(human)) == decode_utf8(human),
        codec_restores(decode_utf8(human)),
    ensures
        encode_utf8(human_address(canonical_address(human)->Ok_0)) == human,
{
    vstd::utf8::decode_utf8_encode_utf8(human);
}

} // verus!
