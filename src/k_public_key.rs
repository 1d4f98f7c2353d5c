use vstd::prelude::*;

verus! {

/// A secp256k1 public key as its two affine coordinates, big-endian.
#[derive(Clone, Copy, Debug)]
pub struct KPublicKey(pub [u8; 64]);

} // verus!
