use vstd::prelude::*;

use crate::error::AddressError;
use crate::error::is_codec_error;

verus! {

/// What the Base58Check encoding of a payload is: named, not written out.
/// The encoding appends the first 4 bytes of the double-SHA-256 digest of
/// the payload and renders the whole with the Base58 alphabet.
pub uninterp spec fn base58check_of(payload: Seq<u8>) -> Seq<char>;

/// Relies on bs58's checked encoding (`encode(..).with_check()`): the text
/// is a function of the payload bytes alone.
#[verifier::external_body]
pub(crate) fn encode_base58check(payload: &[u8]) -> (r: String)
    ensures
        r@ == base58check_of(payload@),
{
    bs58::encode(payload).with_check().into_string()
}

/// Relies on bs58's checked decoding (`decode(..).with_check(None)`): it
/// returns exactly the payload whose checked encoding is the input text,
/// and fails exactly when no payload has that encoding (a character outside
/// the alphabet, a checksum mismatch, or text too short to hold a
/// checksum); each failure of the codec is moved to the matching variant.
#[verifier::external_body]
pub(crate) fn decode_base58check(s: &str) -> (r: Result<Vec<u8>, AddressError>)
    ensures
        match r {
            Ok(p) => base58check_of(p@) == s@ && (forall|q: Seq<u8>|
                base58check_of(q) == s@ ==> q == p@),
            Err(e) => is_codec_error(e) && !(exists|q: Seq<u8>| base58check_of(q) == s@),
        },
{
    match bs58::decode(s).with_check(None).into_vec() {
        Ok(p) => Ok(p),
        Err(bs58::decode::Error::InvalidCharacter { character, index }) => Err(
            AddressError::InvalidCharacter { character, index },
        ),
        Err(bs58::decode::Error::NonAsciiCharacter { index }) => Err(
            AddressError::NonAsciiCharacter { index },
        ),
        Err(bs58::decode::Error::InvalidChecksum { checksum, expected_checksum }) => Err(
            AddressError::InvalidChecksum { checksum, expected_checksum },
        ),
        Err(_) => Err(AddressError::NoChecksum),
    }
}

} // verus!
