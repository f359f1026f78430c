//! Schnorr and MuSig signatures over BN254 with a Poseidon Fiat-Shamir transcript.
pub mod field;
pub mod curve;
pub mod poseidon;
pub mod sponge;
pub mod transcript;
pub mod keypair;
pub mod signature;
pub mod musig;
pub mod params;
