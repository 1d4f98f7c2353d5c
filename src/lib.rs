//! Threshold authorization of account-key rotation by a small set of owner keys.
//!
//! An owner record packs up to three 64-byte owner public keys and a one-byte
//! threshold into 256 bytes. A rotation to a new 32-byte key is authorized when
//! the number of distinct owners whose recoverable signatures over the new key
//! match the slot they claim reaches the threshold.
pub mod inputs;
pub mod k_public_key;
pub mod k_signature;
pub mod laws;
pub mod program;

pub use inputs::{
    CurrentData, InputError, Inputs, MultisigData, MultisigDataGetter, VerifyingKeyBytes,
};
pub use k_public_key::KPublicKey;
pub use k_signature::KSignature;
pub use program::Program;
