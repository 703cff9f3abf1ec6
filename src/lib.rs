//! Elliptic-curve verifiable random function over secp256k1 with a
//! Keccak-256 Fiat-Shamir transform.

pub mod bytes;
pub mod curve;
pub mod keccak;
pub mod vrf;
pub mod rpc;
