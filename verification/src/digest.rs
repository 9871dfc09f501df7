use vstd::prelude::*;

use sha2::Digest;

verus! {

/// What the SHA-256 digest of a byte sequence is: named, not written out.
pub uninterp spec fn sha256_of(data: Seq<u8>) -> Seq<u8>;

/// What the RIPEMD-160 digest of a byte sequence is: named, not written out.
pub uninterp spec fn ripemd160_of(data: Seq<u8>) -> Seq<u8>;

/// The 20-byte public-key digest: RIPEMD-160 applied to the SHA-256 digest
/// of the input.
pub open spec fn hash160_of(data: Seq<u8>) -> Seq<u8> {
    ripemd160_of(sha256_of(data))
}

/// Relies on sha2's `Sha256::digest`: a 32-byte digest that is a function
/// of the input bytes alone.
#[verifier::external_body]
fn sha256(data: &[u8]) -> (r: Vec<u8>)
    ensures
        r@ == sha256_of(data@),
        r@.len() == 32,
{
    sha2::Sha256::digest(data).to_vec()
}

/// Relies on ripemd's `Ripemd160::digest`: a 20-byte digest that is a
/// function of the input bytes alone.
#[verifier::external_body]
fn ripemd160(data: &[u8]) -> (r: Vec<u8>)
    ensures
        r@ == ripemd160_of(data@),
        r@.len() == 20,
{
    ripemd::Ripemd160::digest(data).to_vec()
}

/// Computes the pay-to-public-key-hash digest of the input bytes.
pub fn hash160(data: &[u8]) -> (r: Vec<u8>)
    ensures
        r@ == hash160_of(data@),
        r@.len() == 20,
{
    let first = sha256(data);
    ripemd160(first.as_slice())
}

} // verus!
