use k256::ecdsa::SigningKey;
use k256::elliptic_curve::sec1::ToEncodedPoint;
use k_lib::{
    CurrentData, InputError, Inputs, KPublicKey, KSignature, MultisigData, MultisigDataGetter,
    Program,
};

fn signing_key(seed: u8) -> SigningKey {
    SigningKey::from_slice(&[seed; 32]).unwrap()
}

fn public_key(key: &SigningKey) -> KPublicKey {
    let point = key.verifying_key().to_encoded_point(false);
    let mut out = [0u8; 64];
    out.copy_from_slice(&point.as_bytes()[1..]);
    KPublicKey(out)
}

fn sign(key: &SigningKey, new_key: &[u8; 32], owner_index: u8) -> KSignature {
    let (signature, recovery_id) = key.sign_prehash_recoverable(new_key).unwrap();
    let mut bytes = [0u8; 64];
    bytes.copy_from_slice(&signature.to_bytes());
    KSignature { signature: bytes, recovery_id: recovery_id.to_byte(), owner_index }
}

fn request(owners: &[KPublicKey], threshold: u8, new_key: [u8; 32], signatures: Vec<KSignature>) -> Inputs {
    Inputs { current_data: CurrentData::new(owners, threshold).unwrap(), new_key, signatures }
}

#[test]
fn ecrecover_yields_signer_key() {
    let key = signing_key(3);
    let new_key = [42u8; 32];
    let sig = sign(&key, &new_key, 0);
    assert_eq!(sig.ecrecover(&new_key), Some(public_key(&key).0));
    assert_ne!(sig.ecrecover(&[43u8; 32]), Some(public_key(&key).0));
}

#[test]
fn ecrecover_fails_on_zero_signature() {
    let sig = KSignature { signature: [0u8; 64], recovery_id: 0, owner_index: 0 };
    assert_eq!(sig.ecrecover(&[42u8; 32]), None);
    let bad_id = KSignature { recovery_id: 4, ..sign(&signing_key(3), &[42u8; 32], 0) };
    assert_eq!(bad_id.ecrecover(&[42u8; 32]), None);
}

#[test]
fn round_trip_all_sizes_and_thresholds() {
    let keys: Vec<KPublicKey> = (1..=3u8).map(|i| public_key(&signing_key(i))).collect();
    for n in 0..=3usize {
        for threshold in 0..=3u8 {
            let record = CurrentData::new(&keys[..n], threshold).unwrap();
            let decoded = CurrentData::decode(record.get_bytes()).unwrap();
            assert_eq!(decoded.get_bytes(), record.get_bytes());
            assert_eq!(decoded.get_threshold(), threshold);
            let data = MultisigData::from(&decoded);
            assert_eq!(data.threshold, threshold);
            for slot in 0..3usize {
                let expected = if slot < n { keys[slot].0 } else { [0u8; 64] };
                assert_eq!(data.owners[slot].0, expected);
            }
            assert!(record.get_bytes()[192..255].iter().all(|b| *b == 0));
        }
    }
}

#[test]
fn encode_layout_is_exact() {
    let record = CurrentData::new(&[KPublicKey([7u8; 64]), KPublicKey([9u8; 64])], 2).unwrap();
    let bytes = record.get_bytes();
    assert!(bytes[..64].iter().all(|b| *b == 7));
    assert!(bytes[64..128].iter().all(|b| *b == 9));
    assert!(bytes[128..255].iter().all(|b| *b == 0));
    assert_eq!(bytes[255], 2);
}

#[test]
fn encode_rejects_more_than_three_owners() {
    for n in 4..=6usize {
        let keys = vec![KPublicKey([1u8; 64]); n];
        assert_eq!(CurrentData::new(&keys, 1).unwrap_err(), InputError::TooManyOwners);
        assert_eq!(CurrentData::try_from(&keys).unwrap_err(), InputError::TooManyOwners);
    }
}

#[test]
fn decode_rejects_long_buffers() {
    for len in [257usize, 300, 512] {
        assert_eq!(CurrentData::decode(&vec![1u8; len]).unwrap_err(), InputError::InvalidLength);
    }
}

#[test]
fn decode_pads_short_buffers() {
    let decoded = CurrentData::decode(&[5u8; 10]).unwrap();
    let bytes = decoded.get_bytes();
    assert!(bytes[..10].iter().all(|b| *b == 5));
    assert!(bytes[10..].iter().all(|b| *b == 0));
    assert_eq!(decoded.get_threshold(), 0);
    assert_eq!(CurrentData::decode(&[]).unwrap().get_bytes(), &[0u8; 256]);
    let full = CurrentData::decode(&[3u8; 256]).unwrap();
    assert_eq!(full.get_bytes(), &[3u8; 256]);
    assert_eq!(full.get_threshold(), 3);
}

#[test]
fn try_from_sets_threshold_one() {
    let record = CurrentData::try_from(&[KPublicKey([4u8; 64])]).unwrap();
    assert_eq!(record.get_threshold(), 1);
    assert!(record.get_bytes()[..64].iter().all(|b| *b == 4));
}

#[test]
fn inputs_new_builds_record_with_threshold_one() {
    let keys = [KPublicKey([4u8; 64]), KPublicKey([6u8; 64])];
    let inputs = Inputs::new(&keys, [8u8; 32], vec![]).unwrap();
    assert_eq!(inputs.current_data.get_threshold(), 1);
    assert_eq!(inputs.new_key, [8u8; 32]);
    assert!(inputs.signatures.is_empty());
    let too_many = vec![KPublicKey([4u8; 64]); 4];
    assert_eq!(Inputs::new(&too_many, [8u8; 32], vec![]).unwrap_err(), InputError::TooManyOwners);
}

#[test]
fn is_owner_matches_exact_slot() {
    let record = CurrentData::new(&[KPublicKey([1u8; 64]), KPublicKey([2u8; 64])], 1).unwrap();
    let data = MultisigData::from(&record);
    assert!(data.is_owner(0, [1u8; 64]));
    assert!(!data.is_owner(0, [2u8; 64]));
    assert!(data.is_owner(1, [2u8; 64]));
    assert!(data.is_owner(2, [0u8; 64]));
}

#[test]
fn cross_slot_signature_is_rejected() {
    let owners = [signing_key(1), signing_key(2)];
    let keys: Vec<KPublicKey> = owners.iter().map(public_key).collect();
    let new_key = [42u8; 32];
    let sig = sign(&owners[1], &new_key, 0);
    let inputs = request(&keys, 1, new_key, vec![sig]);
    let data = MultisigData::from(&inputs.current_data);
    assert!(data.verify_signatures(&new_key, &inputs.signatures).is_empty());
    assert_eq!(Program::run(&inputs), Err(InputError::ThresholdNotMet));
}

#[test]
fn duplicate_signer_counts_once() {
    let owners = [signing_key(1), signing_key(2)];
    let keys: Vec<KPublicKey> = owners.iter().map(public_key).collect();
    let new_key = [42u8; 32];
    let sigs = vec![sign(&owners[0], &new_key, 0), sign(&owners[0], &new_key, 0)];
    let one = request(&keys, 1, new_key, sigs.clone());
    let data = MultisigData::from(&one.current_data);
    let signers = data.verify_signatures(&new_key, &sigs);
    assert_eq!(signers.len(), 1);
    assert_eq!(signers[0].0, keys[0].0);
    assert_eq!(Program::run(&one), Ok(new_key));
    let two = request(&keys, 2, new_key, sigs);
    assert_eq!(Program::run(&two), Err(InputError::ThresholdNotMet));
}

#[test]
fn threshold_zero_accepts_without_signatures() {
    let keys = [public_key(&signing_key(1))];
    let inputs = request(&keys, 0, [42u8; 32], vec![]);
    assert_eq!(Program::run(&inputs), Ok([42u8; 32]));
    let one = request(&keys, 1, [42u8; 32], vec![]);
    assert_eq!(Program::run(&one), Err(InputError::ThresholdNotMet));
}

#[test]
fn two_of_three_owners_accept() {
    let owners = [signing_key(1), signing_key(2), signing_key(3)];
    let keys: Vec<KPublicKey> = owners.iter().map(public_key).collect();
    let new_key = [42u8; 32];
    let sigs = vec![sign(&owners[0], &new_key, 0), sign(&owners[2], &new_key, 2)];
    let inputs = request(&keys, 2, new_key, sigs);
    let data = MultisigData::from(&inputs.current_data);
    assert_eq!(data.verify_signatures(&new_key, &inputs.signatures).len(), 2);
    assert_eq!(Program::run(&inputs), Ok(new_key));
}

#[test]
fn forged_slot_claim_counts_only_genuine_signer() {
    let owners = [signing_key(1), signing_key(2), signing_key(3)];
    let keys: Vec<KPublicKey> = owners.iter().map(public_key).collect();
    let new_key = [42u8; 32];
    let sigs = vec![sign(&owners[0], &new_key, 0), sign(&owners[2], &new_key, 0)];
    let inputs = request(&keys, 2, new_key, sigs);
    let data = MultisigData::from(&inputs.current_data);
    assert_eq!(data.verify_signatures(&new_key, &inputs.signatures).len(), 1);
    assert_eq!(Program::run(&inputs), Err(InputError::ThresholdNotMet));
}

#[test]
fn signature_over_other_key_is_not_counted() {
    let owner = signing_key(1);
    let keys = [public_key(&owner)];
    let inputs = request(&keys, 1, [42u8; 32], vec![sign(&owner, &[41u8; 32], 0)]);
    assert_eq!(Program::run(&inputs), Err(InputError::ThresholdNotMet));
}

#[test]
fn unrecoverable_signature_is_not_counted() {
    let keys = [public_key(&signing_key(1))];
    let sig = KSignature { signature: [0u8; 64], recovery_id: 0, owner_index: 0 };
    let inputs = request(&keys, 1, [42u8; 32], vec![sig]);
    assert_eq!(Program::run(&inputs), Err(InputError::ThresholdNotMet));
}

#[test]
fn changed_owner_byte_breaks_slot_match() {
    let owners = [signing_key(1), signing_key(2), signing_key(3)];
    let keys: Vec<KPublicKey> = owners.iter().map(public_key).collect();
    let new_key = [42u8; 32];
    let sig = sign(&owners[1], &new_key, 1);
    let recovered = sig.ecrecover(&new_key).unwrap();
    let record = CurrentData::new(&keys, 1).unwrap();
    for j in [64usize, 100, 127] {
        let mut bytes = *record.get_bytes();
        bytes[j] ^= 0x01;
        let mutated = CurrentData::decode(&bytes).unwrap();
        assert_eq!(mutated.get_bytes(), &bytes);
        let data = MultisigData::from(&mutated);
        assert!(!data.is_owner(1, recovered));
        assert!(data.is_owner(0, keys[0].0));
        assert!(data.is_owner(2, keys[2].0));
        let inputs = Inputs { current_data: mutated, new_key, signatures: vec![sig] };
        assert_eq!(Program::run(&inputs), Err(InputError::ThresholdNotMet));
    }
    assert!(MultisigData::from(&record).is_owner(1, recovered));
}

#[test]
fn error_messages_are_distinct() {
    assert_eq!(InputError::TooManyOwners.message(), "too many owners");
    assert_eq!(InputError::InvalidLength.message(), "owner record longer than 256 bytes");
    assert_eq!(InputError::ThresholdNotMet.message(), "threshold not met");
}
