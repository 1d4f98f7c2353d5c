use crate::k_public_key::KPublicKey;
use crate::k_signature::KSignature;
use vstd::prelude::*;

verus! {

/// Length in bytes of an owner record.
pub const RECORD_LEN: usize = 256;

/// Largest number of owners that an owner record holds.
pub const MAX_OWNERS: usize = 3;

/// Offset of the threshold byte in an owner record.
pub const THRESHOLD_OFFSET: usize = 255;

/// The errors of building, decoding and authorizing a rotation request.
#[derive(Clone, Copy, Debug, PartialEq, Eq, Structural)]
pub enum InputError {
    /// More than three owner keys were supplied.
    TooManyOwners,
    /// An owner record buffer is longer than 256 bytes.
    InvalidLength,
    /// Fewer distinct owners signed than the threshold asks for.
    ThresholdNotMet,
}

impl InputError {
    /// A short description of the error.
    pub fn message(&self) -> (r: &'static str) {
        match self {
            InputError::TooManyOwners => "too many owners",
            InputError::InvalidLength => "owner record longer than 256 bytes",
            InputError::ThresholdNotMet => "threshold not met",
        }
    }
}

/// The owner record that `owners` and `threshold` encode to: the owners'
/// keys packed from offset 0 in list order, zero up to the last byte, and the
/// threshold as the last byte.
pub open spec fn encoded(owners: Seq<KPublicKey>, threshold: u8) -> Seq<u8> {
    Seq::new(
        RECORD_LEN as nat,
        |j: int|
            if j == THRESHOLD_OFFSET {
                threshold
            } else if j < 64 * owners.len() {
                owners[j / 64].0@[j % 64]
            } else {
                0u8
            },
    )
}

/// `bytes` followed by zeros up to the length of an owner record.
pub open spec fn zero_padded(bytes: Seq<u8>) -> Seq<u8> {
    Seq::new(RECORD_LEN as nat, |j: int| if j < bytes.len() { bytes[j] } else { 0u8 })
}

/// The 64 bytes of owner slot `i` of a record.
pub open spec fn slot(record: Seq<u8>, i: int) -> Seq<u8> {
    record.subrange(64 * i, 64 * i + 64)
}

/// The three owner slots of a record, in slot order.
pub open spec fn record_owners(record: Seq<u8>) -> Seq<Seq<u8>> {
    Seq::new(MAX_OWNERS as nat, |i: int| slot(record, i))
}

/// The threshold of a record: its last byte.
pub open spec fn record_threshold(record: Seq<u8>) -> u8 {
    record[THRESHOLD_OFFSET as int]
}

/// An owner record: up to three 64-byte owner keys in slots at offsets 0, 64
/// and 128, reserved zero bytes, and the threshold in the last byte.
#[derive(Clone, Debug)]
pub struct CurrentData([u8; 256]);

impl View for CurrentData {
    type V = Seq<u8>;

    closed spec fn view(&self) -> Seq<u8> {
        self.0@
    }
}

impl CurrentData {
    /// Encodes up to three owner keys and a threshold into a record.
    pub fn new(owners: &[KPublicKey], threshold: u8) -> (r: Result<CurrentData, InputError>)
        ensures
            r is Ok <==> owners@.len() <= MAX_OWNERS,
            r matches Ok(d) ==> d@ == encoded(owners@, threshold),
            r matches Err(e) ==> e == InputError::TooManyOwners,
    {
        if owners.len() > MAX_OWNERS {
            return Err(InputError::TooManyOwners);
        }
        let mut bytes = [0u8; 256];
        let end: usize = owners.len() * 64;
        let mut j: usize = 0;
        while j < end
            invariant
                end == 64 * owners@.len(),
                owners@.len() <= MAX_OWNERS,
                j <= end,
                forall|t: int|
                    0 <= t < RECORD_LEN ==> #[trigger] bytes@[t] == if t < j {
                        owners@[t / 64].0@[t % 64]
                    } else {
                        0u8
                    },
            decreases end - j,
        {
            bytes[j] = owners[j / 64].0[j % 64];
            j += 1;
        }
        bytes[THRESHOLD_OFFSET] = threshold;
        let r = CurrentData(bytes);
        assert(r@ =~= encoded(owners@, threshold));
        Ok(r)
    }

    /// Encodes up to three owner keys with the threshold 1, so that a record
    /// built from a list of keys alone never authorizes unsigned rotations.
    pub fn try_from(owners: &[KPublicKey]) -> (r: Result<CurrentData, InputError>)
        ensures
            r is Ok <==> owners@.len() <= MAX_OWNERS,
            r matches Ok(d) ==> d@ == encoded(owners@, 1),
            r matches Err(e) ==> e == InputError::TooManyOwners,
    {
        CurrentData::new(owners, 1)
    }

    /// Decodes a record from at most 256 bytes, padding a shorter buffer
    /// with zeros at the end.
    pub fn decode(bytes: &[u8]) -> (r: Result<CurrentData, InputError>)
        ensures
            r is Ok <==> bytes@.len() <= RECORD_LEN,
            r matches Ok(d) ==> d@ == zero_padded(bytes@),
            r matches Err(e) ==> e == InputError::InvalidLength,
    {
        if bytes.len() > RECORD_LEN {
            return Err(InputError::InvalidLength);
        }
        let mut out = [0u8; 256];
        let mut j: usize = 0;
        while j < bytes.len()
            invariant
                bytes@.len() <= RECORD_LEN,
                j <= bytes@.len(),
                forall|t: int|
                    0 <= t < RECORD_LEN ==> #[trigger] out@[t] == if t < j {
                        bytes@[t]
                    } else {
                        0u8
                    },
            decreases bytes@.len() - j,
        {
            out[j] = bytes[j];
            j += 1;
        }
        let r = CurrentData(out);
        assert(r@ =~= zero_padded(bytes@));
        Ok(r)
    }
}

/// Read access to the bytes of an owner record and its threshold.
pub trait MultisigDataGetter {
    /// The record's bytes.
    spec fn record(&self) -> Seq<u8>;

    /// The 256 bytes of the record.
    fn get_bytes(&self) -> (r: &[u8; 256])
        ensures
            r@ == self.record(),
    ;

    /// The threshold: the record's last byte.
    fn get_threshold(&self) -> (r: u8)
        ensures
            r == record_threshold(self.record()),
    {
        let bytes = self.get_bytes();
        bytes[THRESHOLD_OFFSET]
    }
}

impl MultisigDataGetter for CurrentData {
    open spec fn record(&self) -> Seq<u8> {
        self@
    }

    fn get_bytes(&self) -> (r: &[u8; 256]) {
        &self.0
    }
}

} // verus!

verus! {

/// Whether `sig` is a qualifying signature over `msg` for the owner keys
/// `owners`: the slot it claims exists, and the key recovered from it is
/// exactly the key stored in that slot.
pub open spec fn qualifies(owners: Seq<Seq<u8>>, msg: Seq<u8>, sig: KSignature) -> bool {
    &&& (sig.owner_index as int) < owners.len()
    &&& sig.recovered(msg) == Some(owners[sig.owner_index as int])
}

/// The distinct owner keys that the qualifying signatures among `sigs`
/// recover to.
pub open spec fn verified_signers(owners: Seq<Seq<u8>>, msg: Seq<u8>, sigs: Seq<KSignature>) -> Set<
    Seq<u8>,
> {
    Set::new(
        |k: Seq<u8>|
            exists|i: int|
                0 <= i < sigs.len() && #[trigger] qualifies(owners, msg, sigs[i]) && owners[sigs[i].owner_index as int] == k,
    )
}

/// Whether enough distinct owners signed `msg` among `sigs` to meet `threshold`.
pub open spec fn authorized(owners: Seq<Seq<u8>>, threshold: u8, msg: Seq<u8>, sigs: Seq<KSignature>) -> bool {
    verified_signers(owners, msg, sigs).len() >= threshold
}

/// The keys held in a sequence of key values.
pub open spec fn keys_of(s: Seq<VerifyingKeyBytes>) -> Seq<Seq<u8>> {
    s.map_values(|k: VerifyingKeyBytes| k.0@)
}

/// Whether two keys hold the same bytes.
fn same_key(a: &[u8; 64], b: &[u8; 64]) -> (r: bool)
    ensures
        r == (a@ == b@),
{
    let mut i: usize = 0;
    while i < 64
        invariant
            i <= 64,
            forall|t: int| 0 <= t < i ==> a@[t] == b@[t],
        decreases 64 - i,
    {
        if a[i] != b[i] {
            return false;
        }
        i += 1;
    }
    assert(a@ =~= b@);
    true
}

/// Whether `keys` holds `key`.
fn contains_key(keys: &Vec<VerifyingKeyBytes>, key: &[u8; 64]) -> (r: bool)
    ensures
        r == keys_of(keys@).contains(key@),
{
    let mut k: usize = 0;
    while k < keys.len()
        invariant
            k <= keys@.len(),
            forall|t: int| 0 <= t < k ==> keys_of(keys@)[t] != key@,
        decreases keys@.len() - k,
    {
        if same_key(&keys[k].0, key) {
            assert(keys_of(keys@)[k as int] == key@);
            return true;
        }
        k += 1;
    }
    false
}

/// A public key's 64 coordinate bytes, used as the identity of a signer.
#[derive(Clone, Copy, Debug, Hash, PartialEq, Eq)]
pub struct VerifyingKeyBytes(pub [u8; 64]);

/// The decoded owner record: three owner slots and a threshold.
pub struct MultisigData {
    pub owners: [VerifyingKeyBytes; 3],
    pub threshold: u8,
}

impl MultisigData {
    /// The three owner keys, in slot order.
    pub open spec fn owner_keys(&self) -> Seq<Seq<u8>> {
        Seq::new(MAX_OWNERS as nat, |i: int| self.owners@[i].0@)
    }

    /// Splits a record into its three owner slots and its threshold.
    pub fn from(value: &CurrentData) -> (r: MultisigData)
        ensures
            r.owner_keys() == record_owners(value@),
            r.threshold == record_threshold(value@),
    {
        let mut owners = [VerifyingKeyBytes([0u8; 64]); 3];
        let mut i: usize = 0;
        while i < MAX_OWNERS
            invariant
                i <= MAX_OWNERS,
                forall|s: int| 0 <= s < i ==> #[trigger] owners@[s].0@ == slot(value@, s),
            decreases MAX_OWNERS - i,
        {
            let mut key = [0u8; 64];
            let mut k: usize = 0;
            while k < 64
                invariant
                    i < MAX_OWNERS,
                    k <= 64,
                    value.0@.len() == RECORD_LEN,
                    forall|t: int| 0 <= t < k ==> #[trigger] key@[t] == value.0@[64 * i + t],
                decreases 64 - k,
            {
                key[k] = value.0[i * 64 + k];
                k += 1;
            }
            assert(key@ =~= slot(value@, i as int));
            owners[i] = VerifyingKeyBytes(key);
            i += 1;
        }
        let r = MultisigData { owners, threshold: value.0[THRESHOLD_OFFSET] };
        assert(r.owner_keys() =~= record_owners(value@));
        r
    }

    /// Whether `recovered_key` is exactly the key in owner slot `owner_index`.
    pub fn is_owner(&self, owner_index: u8, recovered_key: [u8; 64]) -> (r: bool)
        requires
            owner_index < MAX_OWNERS,
        ensures
            r == (recovered_key@ == self.owner_keys()[owner_index as int]),
    {
        same_key(&recovered_key, &self.owners[owner_index as usize].0)
    }

    /// The distinct owner keys whose signatures over `new_key` among
    /// `signatures` match the slot they claim, each once.
    pub fn verify_signatures(&self, new_key: &[u8; 32], signatures: &[KSignature]) -> (r: Vec<
        VerifyingKeyBytes,
    >)
        requires
            forall|i: int| 0 <= i < signatures@.len() ==> #[trigger] signatures@[i].owner_index < MAX_OWNERS,
        ensures
            keys_of(r@).no_duplicates(),
            keys_of(r@).to_set() == verified_signers(self.owner_keys(), new_key@, signatures@),
            r@.len() == verified_signers(self.owner_keys(), new_key@, signatures@).len(),
    {
        let ghost owners = self.owner_keys();
        let mut unique_signers: Vec<VerifyingKeyBytes> = Vec::new();
        let mut i: usize = 0;
        while i < signatures.len()
            invariant
                i <= signatures@.len(),
                owners == self.owner_keys(),
                forall|j: int| 0 <= j < signatures@.len() ==> #[trigger] signatures@[j].owner_index < MAX_OWNERS,
                keys_of(unique_signers@).no_duplicates(),
                keys_of(unique_signers@).to_set() == verified_signers(owners, new_key@, signatures@.take(i as int)),
            decreases signatures@.len() - i,
        {
            let sig = &signatures[i];
            let ghost before = verified_signers(owners, new_key@, signatures@.take(i as int));
            let ghost after = verified_signers(owners, new_key@, signatures@.take(i + 1));
            assert(signatures@.take(i + 1) =~= signatures@.take(i as int).push(signatures@[i as int]));
            if let Some(key) = sig.ecrecover(new_key) {
                if self.is_owner(sig.owner_index, key) {
                    assert(qualifies(owners, new_key@, signatures@.take(i + 1)[i as int]));
                    assert(after =~= before.insert(key@));
                    if contains_key(&unique_signers, &key) {
                        assert(before.insert(key@) =~= before);
                    } else {
                        let ghost old_signers = unique_signers@;
                        unique_signers.push(VerifyingKeyBytes(key));
                        assert(keys_of(unique_signers@) =~= keys_of(old_signers).push(key@));
                        proof {
                            keys_of(old_signers).lemma_push_to_set_commute(key@);
                        }
                    }
                } else {
                    assert(after =~= before);
                }
            } else {
                assert(after =~= before);
            }
            i += 1;
        }
        assert(signatures@.take(i as int) =~= signatures@);
        proof {
            keys_of(unique_signers@).unique_seq_to_set();
        }
        unique_signers
    }
}

} // verus!

verus! {

/// A rotation request: the current owner record, the proposed new key, and
/// the owners' signatures over it.
#[derive(Clone, Debug)]
pub struct Inputs {
    pub current_data: CurrentData,
    pub new_key: [u8; 32],
    pub signatures: Vec<KSignature>,
}

impl Inputs {
    /// Builds a request whose record holds `signers` with the threshold 1.
    pub fn new(signers: &[KPublicKey], new_key: [u8; 32], signatures: Vec<KSignature>) -> (r: Result<
        Inputs,
        InputError,
    >)
        ensures
            r is Ok <==> signers@.len() <= MAX_OWNERS,
            r matches Ok(inputs) ==> {
                &&& inputs.current_data@ == encoded(signers@, 1)
                &&& inputs.new_key == new_key
                &&& inputs.signatures@ == signatures@
            },
            r matches Err(e) ==> e == InputError::TooManyOwners,
    {
        let current_data = CurrentData::try_from(signers)?;
        Ok(Inputs { current_data, new_key, signatures })
    }

    /// Whether every signature claims one of the three owner slots.
    pub open spec fn slots_in_range(&self) -> bool {
        forall|i: int|
            0 <= i < self.signatures@.len() ==> #[trigger] self.signatures@[i].owner_index < MAX_OWNERS
    }

    /// Whether the request is authorized by its own owner record.
    pub open spec fn is_authorized(&self) -> bool {
        authorized(
            record_owners(self.current_data@),
            record_threshold(self.current_data@),
            self.new_key@,
            self.signatures@,
        )
    }
}

} // verus!
