use vstd::prelude::*;

use crate::base58::base58check_of;
use crate::base58::decode_base58check;
use crate::base58::encode_base58check;
use crate::digest::hash160;
use crate::digest::hash160_of;
use crate::error::AddressError;
use crate::error::is_codec_error;
use crate::hash160::Hash160;
use crate::network::Network;
use crate::script::OP_CHECKSIG;
use crate::script::OP_DUP;
use crate::script::OP_EQUALVERIFY;
use crate::script::OP_HASH160;
use crate::script::OP_PUSHBYTES_20;
use crate::script::Script;
use crate::script::p2pkh_script_bytes;

verus! {

/// A bitcoin pay-to-public-key-hash address: the network it is usable on,
/// paired with the 20-byte public-key digest it encodes. Both fields are
/// fixed at construction; equality is structural over both.
#[derive(Debug, Clone, PartialEq, Eq)]
pub struct Address {
    /// The network on which this address is usable.
    pub network: Network,
    /// The public-key digest that this address encodes.
    pub hash: Hash160,
}

/// The 21-byte wire payload of an address: one version byte selected by the
/// network, then the 20 digest bytes.
pub open spec fn address_payload(network: Network, hash: Seq<u8>) -> Seq<u8> {
    seq![network.spec_version_byte()] + hash
}

/// What parsing a decoded payload yields: the network and digest for a
/// 21-byte payload with a known version byte, and the exact error
/// otherwise.
pub open spec fn parse_payload(p: Seq<u8>) -> Result<(Network, Seq<u8>), AddressError> {
    if p.len() != 21 {
        Err(AddressError::InvalidLength(p.len() as usize))
    } else if p[0] == 0 {
        Ok((Network::Mainnet, p.subrange(1, 21)))
    } else if p[0] == 111 {
        Ok((Network::Testnet, p.subrange(1, 21)))
    } else {
        Err(AddressError::InvalidVersion(p[0]))
    }
}

/// The plain-value model of an address parse result.
pub open spec fn addr_model(r: Result<Address, AddressError>) -> Result<
    (Network, Seq<u8>),
    AddressError,
> {
    match r {
        Ok(a) => Ok((a.network, a.hash@)),
        Err(e) => Err(e),
    }
}

/// What an address built from a public key is: the given network, paired
/// with the key's 20-byte digest.
pub open spec fn from_key_spec(network: Network, public_key: Seq<u8>) -> (Network, Seq<u8>) {
    (network, hash160_of(public_key))
}

/// Everything decoding promises for text `s`: where `s` is the checked
/// encoding of some payload, the result is exactly what parsing that
/// payload yields; where it is the encoding of no payload, the result is
/// the codec's own failure, propagated.
pub open spec fn decode_outcome(
    s: Seq<char>,
    r: Result<(Network, Seq<u8>), AddressError>,
) -> bool {
    if exists|p: Seq<u8>| base58check_of(p) == s {
        forall|p: Seq<u8>| base58check_of(p) == s ==> r == parse_payload(p)
    } else {
        r matches Err(e) && is_codec_error(e)
    }
}

impl Address {
    /// Creates an address from a serialized public key: the key is digested
    /// with SHA-256 then RIPEMD-160, and the digest is paired with the
    /// network. Deterministic: the result is a function of the two
    /// arguments alone.
    pub fn from_key(network: Network, public_key: &[u8]) -> (r: Address)
        ensures
            r.network == network,
            r.hash@ == hash160_of(public_key@),
            (r.network, r.hash@) == from_key_spec(network, public_key@),
    {
        let digest = hash160(public_key);
        Address { network, hash: Hash160::from_byte_vec(digest) }
    }

    /// Generates the canonical pay-to-public-key-hash locking script
    /// spending to this address. A pure transformation with no failure
    /// path: the output is always the 25-byte standard template.
    pub fn script_pubkey(&self) -> (r: Script)
        ensures
            r@ == p2pkh_script_bytes(self.hash@),
            r@.len() == 25,
    {
        proof {
            use_type_invariant(&self.hash);
        }
        let mut bytes: Vec<u8> = Vec::new();
        bytes.push(OP_DUP);
        bytes.push(OP_HASH160);
        bytes.push(OP_PUSHBYTES_20);
        let digest = self.hash.as_bytes();
        let mut i: usize = 0;
        while i < 20
            invariant
                i <= 20,
                digest@ == self.hash@,
                digest@.len() == 20,
                bytes@ == seq![OP_DUP, OP_HASH160, OP_PUSHBYTES_20] + self.hash@.take(i as int),
            decreases 20 - i,
        {
            bytes.push(digest[i]);
            proof {
                assert(bytes@ =~= seq![OP_DUP, OP_HASH160, OP_PUSHBYTES_20] + self.hash@.take(
                    i as int + 1,
                ));
            }
            i = i + 1;
        }
        bytes.push(OP_EQUALVERIFY);
        bytes.push(OP_CHECKSIG);
        proof {
            assert(self.hash@.take(20) =~= self.hash@);
            assert(bytes@ =~= p2pkh_script_bytes(self.hash@));
        }
        Script::from_bytes(bytes)
    }

    /// The 21-byte wire payload: the network's version byte, then the 20
    /// digest bytes.
    pub fn base58_layout(&self) -> (r: Vec<u8>)
        ensures
            r@ == address_payload(self.network, self.hash@),
            r@.len() == 21,
    {
        proof {
            use_type_invariant(&self.hash);
        }
        let mut ret: Vec<u8> = Vec::new();
        ret.push(self.network.version_byte());
        let digest = self.hash.as_bytes();
        let mut i: usize = 0;
        while i < 20
            invariant
                i <= 20,
                digest@ == self.hash@,
                digest@.len() == 20,
                ret@ == seq![self.network.spec_version_byte()] + self.hash@.take(i as int),
            decreases 20 - i,
        {
            ret.push(digest[i]);
            proof {
                assert(ret@ =~= seq![self.network.spec_version_byte()] + self.hash@.take(
                    i as int + 1,
                ));
            }
            i = i + 1;
        }
        proof {
            assert(self.hash@.take(20) =~= self.hash@);
        }
        ret
    }

    /// Renders the address as Base58Check text: the checked encoding of the
    /// 21-byte wire payload.
    pub fn to_base58check(&self) -> (r: String)
        ensures
            r@ == base58check_of(address_payload(self.network, self.hash@)),
    {
        let payload = self.base58_layout();
        encode_base58check(payload.as_slice())
    }

    /// Parses an address from an already-decoded payload: rejects a length
    /// other than 21 bytes and an unknown version byte, and otherwise pairs
    /// the tagged network with the digest bytes.
    pub fn from_base58_layout(data: Vec<u8>) -> (r: Result<Address, AddressError>)
        ensures
            addr_model(r) == parse_payload(data@),
    {
        if data.len() != 21 {
            return Err(AddressError::InvalidLength(data.len()));
        }
        let version = data[0];
        let network = if version == 0 {
            Network::Mainnet
        } else if version == 111 {
            Network::Testnet
        } else {
            return Err(AddressError::InvalidVersion(version));
        };
        let mut digest: Vec<u8> = Vec::new();
        let mut i: usize = 1;
        while i < 21
            invariant
                1 <= i <= 21,
                data@.len() == 21,
                digest@ == data@.subrange(1, i as int),
            decreases 21 - i,
        {
            digest.push(data[i]);
            proof {
                assert(digest@ =~= data@.subrange(1, i as int + 1));
            }
            i = i + 1;
        }
        Ok(Address { network, hash: Hash160::from_byte_vec(digest) })
    }

    /// Parses an address from its Base58Check text form. Checksum and
    /// alphabet failures of the codec propagate unchanged; a successfully
    /// decoded payload is then held to the wire layout.
    pub fn from_base58check(s: &str) -> (r: Result<Address, AddressError>)
        ensures
            decode_outcome(s@, addr_model(r)),
    {
        match decode_base58check(s) {
            Ok(payload) => {
                let ghost p = payload@;
                let r = Address::from_base58_layout(payload);
                proof {
                    assert(forall|q: Seq<u8>|
                        base58check_of(q) == s@ ==> addr_model(r) == parse_payload(q));
                }
                r
            },
            Err(e) => Err(e),
        }
    }

    /// Read-only view of the digest bytes the address encodes.
    pub fn as_bytes(&self) -> (r: &[u8])
        ensures
            r@ == self.hash@,
            r@.len() == 20,
    {
        self.hash.as_bytes()
    }

    /// The digest byte at `index`.
    pub fn byte_at(&self, index: usize) -> (r: u8)
        requires
            index < 20,
        ensures
            r == self.hash@[index as int],
    {
        self.hash.byte_at(index)
    }
}

/// Copies a borrowed 20-byte digest into a new address on `network`,
/// skipping digesting: for a hash that is already known. The caller is
/// responsible for the bytes already being a valid 20-byte hash.
pub fn to_address(bytes: &[u8], network: Network) -> (r: Address)
    requires
        bytes@.len() == 20,
    ensures
        r.network == network,
        r.hash@ == bytes@,
{
    if let Some(hash) = Hash160::from_slice(bytes) {
        Address { network, hash }
    } else {
        proof {
            assert(false);
        }
        vstd::pervasive::unreached()
    }
}

/// Building an address from a key is deterministic: any two results that
/// the contract of [`Address::from_key`] allows for the same network and
/// key are equal.
pub proof fn lemma_from_key_deterministic(
    network: Network,
    public_key: Seq<u8>,
    r1: (Network, Seq<u8>),
    r2: (Network, Seq<u8>),
)
    requires
        r1 == from_key_spec(network, public_key),
        r2 == from_key_spec(network, public_key),
    ensures
        r1 == r2,
{
}

/// Parsing inverts layout: the wire payload of any network and 20-byte
/// digest parses back to exactly that pair.
pub proof fn lemma_parse_of_payload(network: Network, hash: Seq<u8>)
    requires
        hash.len() == 20,
    ensures
        parse_payload(address_payload(network, hash)) == Ok::<
            (Network, Seq<u8>),
            AddressError,
        >((network, hash)),
{
    let p = address_payload(network, hash);
    assert(p.len() == 21);
    assert(p[0] == network.spec_version_byte());
    assert(p.subrange(1, 21) =~= hash);
    match network {
        Network::Mainnet => {
            assert(p[0] == 0);
        },
        Network::Testnet => {
            assert(p[0] == 111);
        },
    }
}

/// Round trip: decoding the Base58Check text of any valid address yields
/// that address back. Any decode result that the decoding contract allows
/// for the encoding of `(network, hash)` is `Ok((network, hash))`.
pub proof fn lemma_base58check_round_trip(
    network: Network,
    hash: Seq<u8>,
    r: Result<(Network, Seq<u8>), AddressError>,
)
    requires
        hash.len() == 20,
        decode_outcome(base58check_of(address_payload(network, hash)), r),
    ensures
        r == Ok::<(Network, Seq<u8>), AddressError>((network, hash)),
{
    let p = address_payload(network, hash);
    let s = base58check_of(p);
    assert(base58check_of(p) == s);
    assert(r == parse_payload(p));
    lemma_parse_of_payload(network, hash);
}

} // verus!
