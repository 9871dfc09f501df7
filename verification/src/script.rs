use vstd::prelude::*;

verus! {

/// Opcode: duplicate the top stack item.
pub const OP_DUP: u8 = 0x76;

/// Opcode: hash the top stack item with SHA-256 then RIPEMD-160.
pub const OP_HASH160: u8 = 0xa9;

/// Opcode: push the next 20 bytes onto the stack.
pub const OP_PUSHBYTES_20: u8 = 0x14;

/// Opcode: check the top two stack items for equality and fail if unequal.
pub const OP_EQUALVERIFY: u8 = 0x88;

/// Opcode: check a signature against a public key.
pub const OP_CHECKSIG: u8 = 0xac;

/// A serialized output script.
#[derive(Debug, Clone, PartialEq, Eq, Hash)]
pub struct Script {
    bytes: Vec<u8>,
}

/// The canonical pay-to-public-key-hash locking script over a 20-byte key
/// digest: `OP_DUP OP_HASH160 <push 20-byte hash> OP_EQUALVERIFY OP_CHECKSIG`.
pub open spec fn p2pkh_script_bytes(hash: Seq<u8>) -> Seq<u8> {
    seq![OP_DUP, OP_HASH160, OP_PUSHBYTES_20] + hash + seq![OP_EQUALVERIFY, OP_CHECKSIG]
}

impl View for Script {
    type V = Seq<u8>;

    closed spec fn view(&self) -> Seq<u8> {
        self.bytes@
    }
}

impl Script {
    /// Wraps already-serialized script bytes.
    pub fn from_bytes(bytes: Vec<u8>) -> (r: Script)
        ensures
            r@ == bytes@,
    {
        Script { bytes }
    }

    /// Read-only view of the serialized script.
    pub fn as_bytes(&self) -> (r: &[u8])
        ensures
            r@ == self@,
    {
        self.bytes.as_slice()
    }

    /// The length of the serialized script in bytes.
    pub fn len(&self) -> (r: usize)
        ensures
            r == self@.len(),
    {
        self.bytes.len()
    }
}

} // verus!
