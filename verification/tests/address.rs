use btc_units::address::Address;
use btc_units::address::to_address;
use btc_units::error::AddressError;
use btc_units::hash160::Hash160;
use btc_units::network::Network;

const HASH_HEX: &str = "162c5ea71c0b23f5b9022ef047c4a86470a5b070";
const ADDR_TEXT: &str = "132F25rTsvBdp9JzLLBHP5mvGY66i1xdiM";

fn known_hash() -> Hash160 {
    Hash160::from_data(hex::decode(HASH_HEX).unwrap()).unwrap()
}

#[test]
fn test_address_58() {
    let addr = Address {
        network: Network::Mainnet,
        hash: Hash160::from_slice(&hex::decode(HASH_HEX).unwrap()).unwrap(),
    };

    assert_eq!(&addr.to_base58check(), ADDR_TEXT);
    assert_eq!(Address::from_base58check(ADDR_TEXT), Ok(addr));
}

#[test]
fn from_key_known_vector() {
    // The public key, its digest and its address from the classic worked
    // example of version-1 address construction.
    let pk = hex::decode("0250863ad64a87ae8a2fe83c1af1a8403cb53f53e486d8511dad8a04887e5b2352")
        .unwrap();
    let addr = Address::from_key(Network::Mainnet, &pk);
    assert_eq!(
        addr.hash.as_bytes(),
        hex::decode("f54a5851e9372b87810a8e60cdd2e7cfd80b6e31").unwrap().as_slice()
    );
    assert_eq!(addr.to_base58check(), "1PMycacnJaSqwwJqjawXBErnLsZ7RkXUAs");
}

#[test]
fn from_key_deterministic() {
    let pk = hex::decode("0250863ad64a87ae8a2fe83c1af1a8403cb53f53e486d8511dad8a04887e5b2352")
        .unwrap();
    let a = Address::from_key(Network::Testnet, &pk);
    let b = Address::from_key(Network::Testnet, &pk);
    assert_eq!(a, b);
}

#[test]
fn testnet_round_trip() {
    let addr = Address { network: Network::Testnet, hash: known_hash() };
    let text = addr.to_base58check();
    assert_eq!(Address::from_base58check(&text), Ok(addr));
}

#[test]
fn decode_rejects_short_payload() {
    // A correctly checksummed payload of 20 bytes: one byte short of the
    // address layout.
    let text = bs58::encode(&[0u8; 20]).with_check().into_string();
    assert_eq!(Address::from_base58check(&text), Err(AddressError::InvalidLength(20)));
}

#[test]
fn decode_rejects_long_payload() {
    let text = bs58::encode(&[0u8; 22]).with_check().into_string();
    assert_eq!(Address::from_base58check(&text), Err(AddressError::InvalidLength(22)));
}

#[test]
fn decode_rejects_unknown_version() {
    let text = bs58::encode(&[5u8; 21]).with_check().into_string();
    assert_eq!(Address::from_base58check(&text), Err(AddressError::InvalidVersion(5)));
}

#[test]
fn decode_rejects_bad_character() {
    // '0' is not in the Base58 alphabet.
    assert_eq!(
        Address::from_base58check("0OIl"),
        Err(AddressError::InvalidCharacter { character: '0', index: 0 })
    );
}

#[test]
fn decode_rejects_non_ascii() {
    assert!(matches!(
        Address::from_base58check("é"),
        Err(AddressError::NonAsciiCharacter { index: 0 })
    ));
}

#[test]
fn decode_rejects_bad_checksum() {
    // The known-good text with its last character changed.
    let mut text = String::from(ADDR_TEXT);
    text.pop();
    text.push('N');
    assert!(matches!(
        Address::from_base58check(&text),
        Err(AddressError::InvalidChecksum { .. })
    ));
}

#[test]
fn decode_rejects_missing_checksum() {
    // "111" decodes to three zero bytes: too short to hold a checksum.
    assert_eq!(Address::from_base58check("111"), Err(AddressError::NoChecksum));
}

#[test]
fn base58_layout_bytes() {
    let addr = Address { network: Network::Mainnet, hash: known_hash() };
    let mut expected = vec![0u8];
    expected.extend_from_slice(&hex::decode(HASH_HEX).unwrap());
    assert_eq!(addr.base58_layout(), expected);

    let addr = Address { network: Network::Testnet, hash: known_hash() };
    let mut expected = vec![111u8];
    expected.extend_from_slice(&hex::decode(HASH_HEX).unwrap());
    assert_eq!(addr.base58_layout(), expected);
}

#[test]
fn from_base58_layout_parses() {
    let mut payload = vec![0u8];
    payload.extend_from_slice(&hex::decode(HASH_HEX).unwrap());
    let addr = Address::from_base58_layout(payload).unwrap();
    assert_eq!(addr.network, Network::Mainnet);
    assert_eq!(addr.hash, known_hash());

    assert_eq!(
        Address::from_base58_layout(vec![0u8; 5]),
        Err(AddressError::InvalidLength(5))
    );
    assert_eq!(
        Address::from_base58_layout(vec![42u8; 21]),
        Err(AddressError::InvalidVersion(42))
    );
}

#[test]
fn script_pubkey_template() {
    let addr = Address { network: Network::Mainnet, hash: known_hash() };
    let script = addr.script_pubkey();
    let mut expected = vec![0x76u8, 0xa9, 0x14];
    expected.extend_from_slice(&hex::decode(HASH_HEX).unwrap());
    expected.push(0x88);
    expected.push(0xac);
    assert_eq!(script.as_bytes(), expected.as_slice());
    assert_eq!(script.len(), 25);
}

#[test]
fn to_address_wraps_bytes() {
    let bytes = hex::decode(HASH_HEX).unwrap();
    let addr = to_address(&bytes, Network::Mainnet);
    assert_eq!(addr.network, Network::Mainnet);
    assert_eq!(addr.hash.as_bytes(), bytes.as_slice());
    assert_eq!(addr.to_base58check(), ADDR_TEXT);
}

#[test]
fn hash160_length_checks() {
    assert!(Hash160::from_data(vec![0u8; 32]).is_none());
    assert!(Hash160::from_data(vec![0u8; 19]).is_none());
    assert!(Hash160::from_slice(&[0u8; 21]).is_none());

    let h = Hash160::from_data(vec![7u8; 20]).unwrap();
    assert_eq!(h.len(), 20);
    assert_eq!(h.as_bytes(), &[7u8; 20]);
}

#[test]
fn hash160_byte_access() {
    let h = known_hash();
    assert_eq!(h.byte_at(0), 0x16);
    assert_eq!(h.byte_at(19), 0x70);

    let addr = Address { network: Network::Mainnet, hash: h.clone() };
    assert_eq!(addr.byte_at(0), 0x16);
    assert_eq!(addr.as_bytes(), h.as_bytes());
}
