use k256::elliptic_curve::sec1::ToEncodedPoint;
use vstd::prelude::*;

verus! {

/// The public key (64 coordinate bytes) that ECDSA recovery over secp256k1
/// yields for a prehashed message, a signature `r || s` and a recovery id,
/// or `None` where recovery fails.
pub uninterp spec fn recovered_key(msg: Seq<u8>, sig: Seq<u8>, recovery_id: u8) -> Option<Seq<u8>>;

/// Relies on k256's `Signature::from_slice`, `RecoveryId::from_byte` and
/// `VerifyingKey::recover_from_prehash`: the key recovered from the signature
/// over `msg`, as the coordinates of its uncompressed SEC1 encoding. Recovery
/// depends on its arguments alone; any of the three may fail.
#[verifier::external_body]
fn recover_from_prehash(msg: &[u8; 32], sig: &[u8; 64], recovery_id: u8) -> (r: Option<[u8; 64]>)
    ensures
        match r {
            Some(k) => recovered_key(msg@, sig@, recovery_id) == Some(k@),
            None => recovered_key(msg@, sig@, recovery_id) is None,
        },
{
    let signature = k256::ecdsa::Signature::from_slice(sig).ok()?;
    let recovery_id = k256::ecdsa::RecoveryId::from_byte(recovery_id)?;
    let key = k256::ecdsa::VerifyingKey::recover_from_prehash(msg, &signature, recovery_id).ok()?;
    let mut out = [0u8; 64];
    out.copy_from_slice(&key.to_encoded_point(false).as_bytes()[1..]);
    Some(out)
}

/// A recoverable ECDSA signature over a new account key, together with the
/// owner slot (0, 1 or 2) whose key it claims to be made with.
#[derive(Clone, Copy, Debug)]
pub struct KSignature {
    /// The scalars `r || s`, 32 big-endian bytes each.
    pub signature: [u8; 64],
    /// The recovery id, 0 to 3.
    pub recovery_id: u8,
    /// The owner slot that the signer claims.
    pub owner_index: u8,
}

impl KSignature {
    /// The key recovered from this signature over `msg`, if recovery succeeds.
    pub open spec fn recovered(&self, msg: Seq<u8>) -> Option<Seq<u8>> {
        recovered_key(msg, self.signature@, self.recovery_id)
    }

    /// Recovers the signer's public key from this signature over `msg`.
    pub fn ecrecover(&self, msg: &[u8; 32]) -> (r: Option<[u8; 64]>)
        ensures
            r matches Some(k) ==> self.recovered(msg@) == Some(k@),
            r is None ==> self.recovered(msg@) is None,
    {
        recover_from_prehash(msg, &self.signature, self.recovery_id)
    }
}

} // verus!
