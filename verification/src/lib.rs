//! Bitcoin value types: a pay-to-public-key-hash address codec with
//! Base58Check text form, and fixed-point fee-rate arithmetic over
//! satoshis and weight units.

pub mod address;
pub mod amount;
pub mod base58;
pub mod digest;
pub mod error;
pub mod fee_rate;
pub mod hash160;
pub mod network;
pub mod script;
pub mod weight;
