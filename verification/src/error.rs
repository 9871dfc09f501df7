use vstd::prelude::*;

verus! {

/// Everything that can go wrong when parsing an address from its
/// Base58Check text form.
///
/// The first two variants are this library's own checks on the decoded
/// payload; the remaining four propagate a failure of the Base58Check
/// codec collaborator unchanged.
#[derive(Debug, Clone, PartialEq, Eq)]
pub enum AddressError {
    /// The payload, after the checksum is stripped, is not exactly 21 bytes.
    InvalidLength(usize),
    /// The payload's first byte matches no known network.
    InvalidVersion(u8),
    /// The text held a character outside the Base58 alphabet.
    InvalidCharacter { character: char, index: usize },
    /// The text held a multi-byte character.
    NonAsciiCharacter { index: usize },
    /// The trailing 4-byte checksum did not match the payload.
    InvalidChecksum { checksum: [u8; 4], expected_checksum: [u8; 4] },
    /// The text was too short to hold a checksum at all.
    NoChecksum,
}

/// True of the variants that propagate a failure of the Base58Check codec,
/// as opposed to this library's own payload checks.
pub open spec fn is_codec_error(e: AddressError) -> bool {
    match e {
        AddressError::InvalidCharacter { .. } => true,
        AddressError::NonAsciiCharacter { .. } => true,
        AddressError::InvalidChecksum { .. } => true,
        AddressError::NoChecksum => true,
        AddressError::InvalidLength(..) => false,
        AddressError::InvalidVersion(..) => false,
    }
}

} // verus!
