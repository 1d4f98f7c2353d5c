use crate::inputs::{
    authorized, encoded, qualifies, record_owners, record_threshold, slot, verified_signers,
    zero_padded, MAX_OWNERS, RECORD_LEN,
};
use crate::k_public_key::KPublicKey;
use crate::k_signature::KSignature;
use vstd::arithmetic::div_mod::lemma_fundamental_div_mod_converse;
use vstd::prelude::*;

verus! {

/// The 64 zero bytes of an empty owner slot.
pub open spec fn empty_slot() -> Seq<u8> {
    Seq::new(64, |k: int| 0u8)
}

/// Encoding up to three owners and a threshold, then decoding the record,
/// gives back those owners in their slots, the remaining slots empty, and
/// the threshold.
pub proof fn lemma_round_trip(owners: Seq<KPublicKey>, threshold: u8)
    requires
        owners.len() <= MAX_OWNERS,
    ensures
        zero_padded(encoded(owners, threshold)) == encoded(owners, threshold),
        forall|i: int|
            0 <= i < MAX_OWNERS ==> #[trigger] record_owners(encoded(owners, threshold))[i] == if i
                < owners.len() {
                owners[i].0@
            } else {
                empty_slot()
            },
        record_threshold(encoded(owners, threshold)) == threshold,
{
    let e = encoded(owners, threshold);
    assert(zero_padded(e) =~= e);
    assert forall|i: int| 0 <= i < MAX_OWNERS implies #[trigger] record_owners(e)[i] == if i
        < owners.len() {
        owners[i].0@
    } else {
        empty_slot()
    } by {
        assert forall|k: int| 0 <= k < 64 implies #[trigger] slot(e, i)[k] == if i < owners.len() {
            owners[i].0@[k]
        } else {
            0u8
        } by {
            lemma_fundamental_div_mod_converse(64 * i + k, 64, i, k);
        }
        if i < owners.len() {
            assert(slot(e, i) =~= owners[i].0@);
        } else {
            assert(slot(e, i) =~= empty_slot());
        }
    }
}

/// Changing one byte of an owner slot changes that slot's key, so the key
/// that was stored there no longer matches it, leaves the other slots as
/// they were, and decoding the changed record keeps the changed byte. A
/// signature that qualified for that slot before no longer does.
pub proof fn lemma_slot_byte_change(record: Seq<u8>, j: int, v: u8, msg: Seq<u8>, sig: KSignature)
    requires
        record.len() == RECORD_LEN,
        0 <= j < 64 * MAX_OWNERS,
        v != record[j],
    ensures
        record_owners(record.update(j, v))[j / 64] != record_owners(record)[j / 64],
        forall|s: int|
            0 <= s < MAX_OWNERS && s != j / 64 ==> #[trigger] record_owners(record.update(j, v))[s]
                == record_owners(record)[s],
        zero_padded(record.update(j, v)) == record.update(j, v),
        sig.owner_index == j / 64 && qualifies(record_owners(record), msg, sig) ==> !qualifies(
            record_owners(record.update(j, v)),
            msg,
            sig,
        ),
{
    let m = record.update(j, v);
    let s = j / 64;
    lemma_fundamental_div_mod_converse(j, 64, s, j % 64);
    assert(slot(m, s)[j % 64] != slot(record, s)[j % 64]);
    assert forall|t: int| 0 <= t < MAX_OWNERS && t != s implies #[trigger] record_owners(m)[t]
        == record_owners(record)[t] by {
        assert(slot(m, t) =~= slot(record, t));
    }
    assert(zero_padded(m) =~= m);
}

/// A signature that recovers to the key of one slot but claims another slot
/// holding a different key is not counted.
pub proof fn lemma_slot_binding(owners: Seq<Seq<u8>>, msg: Seq<u8>, sig: KSignature, slot_of_key: int)
    requires
        owners.len() == MAX_OWNERS,
        0 <= slot_of_key < MAX_OWNERS,
        sig.recovered(msg) == Some(owners[slot_of_key]),
        owners[sig.owner_index as int] != owners[slot_of_key],
    ensures
        !qualifies(owners, msg, sig),
        verified_signers(owners, msg, seq![sig]) == Set::<Seq<u8>>::empty(),
{
    assert(verified_signers(owners, msg, seq![sig]) =~= Set::<Seq<u8>>::empty());
}

/// Two signatures that both claim slot 0 and both recover to the key in
/// slot 0 count as one signer: they meet the threshold 1 and not 2.
pub proof fn lemma_duplicate_signer_counts_once(
    owners: Seq<Seq<u8>>,
    msg: Seq<u8>,
    first: KSignature,
    second: KSignature,
)
    requires
        owners.len() == MAX_OWNERS,
        first.owner_index == 0,
        second.owner_index == 0,
        first.recovered(msg) == Some(owners[0]),
        second.recovered(msg) == Some(owners[0]),
    ensures
        verified_signers(owners, msg, seq![first, second]) == set![owners[0]],
        verified_signers(owners, msg, seq![first, second]).len() == 1,
        authorized(owners, 1, msg, seq![first, second]),
        !authorized(owners, 2, msg, seq![first, second]),
{
    let sigs = seq![first, second];
    assert(qualifies(owners, msg, sigs[0]));
    assert(verified_signers(owners, msg, sigs) =~= set![owners[0]]);
    assert(set![owners[0]].len() == 1) by {
        assert(set![owners[0]] =~= Set::<Seq<u8>>::empty().insert(owners[0]));
    }
}

/// With no signatures nobody is counted, and the threshold 0 is met.
pub proof fn lemma_threshold_zero_without_signatures(owners: Seq<Seq<u8>>, msg: Seq<u8>)
    ensures
        verified_signers(owners, msg, Seq::<KSignature>::empty()) == Set::<Seq<u8>>::empty(),
        authorized(owners, 0, msg, Seq::<KSignature>::empty()),
{
    assert(verified_signers(owners, msg, Seq::<KSignature>::empty()) =~= Set::<Seq<u8>>::empty());
}

} // verus!
