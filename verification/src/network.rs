use vstd::prelude::*;

verus! {

/// The network an address is usable on.
///
/// The version byte embedded in the Base58Check text form is the sole
/// network discriminator of the wire format; a new network needs a new
/// byte value and a branch in both the encoding and the decoding map.
#[derive(Debug, Copy, Clone, PartialEq, Eq, Structural, Hash)]
pub enum Network {
    Mainnet,
    Testnet,
}

impl Network {
    /// The version byte that tags this network in an address payload.
    pub open spec fn spec_version_byte(self) -> u8 {
        match self {
            Network::Mainnet => 0,
            Network::Testnet => 111,
        }
    }

    /// Returns the version byte that tags this network in an address payload.
    pub fn version_byte(self) -> (b: u8)
        ensures
            b == self.spec_version_byte(),
    {
        match self {
            Network::Mainnet => 0,
            Network::Testnet => 111,
        }
    }
}

/// The network a version byte stands for, if any.
pub open spec fn network_for_version(b: u8) -> Option<Network> {
    if b == 0 {
        Some(Network::Mainnet)
    } else if b == 111 {
        Some(Network::Testnet)
    } else {
        None
    }
}

} // verus!
