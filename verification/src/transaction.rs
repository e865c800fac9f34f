//! Transactions, as far as signing one touches them.

use vstd::prelude::*;

use crate::error::{failure, ErrorKind, ErrorView, SignerError};
use crate::keys::{blank_signature, unsigned, Pubkey, Signature};

verus! {

/// A transaction: what is signed, who has to sign it, and who has.
///
/// Legacy and versioned transactions look the same from here, because what
/// crosses to the device is the serialized message either way.
pub struct VersionedTransaction {
    /// The serialized message, which every signature covers.
    pub message: Vec<u8>,
    /// The keys whose signatures the message requires, in the order of its
    /// signature array.
    pub required_signers: Vec<Pubkey>,
    /// The signature array. A slot nobody has signed yet is all-zero.
    pub signatures: Vec<Signature>,
}

/// The mathematical value of a [`VersionedTransaction`].
#[verifier::ext_equal]
pub struct TransactionView {
    pub message: Seq<u8>,
    pub required_signers: Seq<Seq<u8>>,
    pub signatures: Seq<Seq<u8>>,
}

impl View for VersionedTransaction {
    type V = TransactionView;

    open spec fn view(&self) -> TransactionView {
        TransactionView {
            message: self.message@,
            required_signers: self.required_signers@.map_values(|k: Pubkey| k@),
            signatures: self.signatures@.map_values(|s: Signature| s@),
        }
    }
}

/// The encoded transaction, and the signature that this signer added to it.
pub type SignedTransaction = (String, Signature);

/// A signed transaction, explicitly marked as complete or partial.
#[derive(Debug)]
pub enum SignTransactionResult {
    /// Every required signature is there.
    Complete(SignedTransaction),
    /// Someone else still has to sign.
    Partial(SignedTransaction),
}

impl SignTransactionResult {
    /// The signed transaction, whichever way it is marked.
    pub open spec fn signed(self) -> SignedTransaction {
        match self {
            SignTransactionResult::Complete(tx) => tx,
            SignTransactionResult::Partial(tx) => tx,
        }
    }

    /// Drops the mark and keeps the signed transaction.
    pub fn into_signed_transaction(self) -> (tx: SignedTransaction)
        ensures
            tx == self.signed(),
    {
        match self {
            Self::Complete(tx) | Self::Partial(tx) => tx,
        }
    }
}

pub const NOT_A_SIGNER: &'static str = "signer is not among the transaction's required signers";

/// The error for a key that the transaction does not want signed with.
pub open spec fn not_a_signer() -> ErrorView {
    failure(ErrorKind::SigningFailed, NOT_A_SIGNER@)
}

/// The signature array of a transaction, one slot per required signer.
pub open spec fn slots(tx: TransactionView) -> Seq<Seq<u8>> {
    Seq::new(
        if tx.signatures.len() > tx.required_signers.len() {
            tx.signatures.len()
        } else {
            tx.required_signers.len()
        },
        |i: int|
            if i < tx.signatures.len() {
                tx.signatures[i]
            } else {
                unsigned()
            },
    )
}

/// `tx` with `signature` in the slot of the signer at `index`.
pub open spec fn with_signature(
    tx: TransactionView,
    index: int,
    signature: Seq<u8>,
) -> TransactionView {
    TransactionView { signatures: slots(tx).update(index, signature), ..tx }
}

/// `index` is where `key` first occurs in `keys`.
pub open spec fn first_index(keys: Seq<Seq<u8>>, key: Seq<u8>, index: int) -> bool {
    &&& 0 <= index < keys.len()
    &&& keys[index] == key
    &&& forall|j: int| 0 <= j < index ==> #[trigger] keys[j] != key
}

/// Every required signer has signed.
pub open spec fn fully_signed(tx: TransactionView) -> bool {
    &&& tx.signatures.len() >= tx.required_signers.len()
    &&& forall|i: int|
        0 <= i < tx.required_signers.len() ==> #[trigger] tx.signatures[i] != unsigned()
}

/// Every required signer but the one at `index` has signed.
pub open spec fn others_signed(tx: TransactionView, index: int) -> bool {
    forall|i: int|
        0 <= i < tx.required_signers.len() && i != index ==> #[trigger] slots(tx)[i] != unsigned()
}

fn same_bytes(a: &[u8], b: &[u8]) -> (same: bool)
    ensures
        same == (a@ == b@),
{
    if a.len() != b.len() {
        return false;
    }
    let mut i: usize = 0;
    while i < a.len()
        invariant
            a@.len() == b@.len(),
            i <= a@.len(),
            forall|j: int| 0 <= j < i ==> a@[j] == b@[j],
        decreases a@.len() - i,
    {
        if a[i] != b[i] {
            return false;
        }
        i += 1;
    }
    assert(a@ =~= b@);
    true
}

fn is_unsigned(signature: &Signature) -> (r: bool)
    ensures
        r == (signature@ == unsigned()),
{
    same_bytes(signature.as_bytes(), blank_signature().as_bytes())
}

/// The index of `key` among `keys`.
fn position(keys: &Vec<Pubkey>, key: &Pubkey) -> (r: Option<usize>)
    ensures
        r matches Some(i) ==> first_index(keys@.map_values(|k: Pubkey| k@), key@, i as int),
        r is None ==> !keys@.map_values(|k: Pubkey| k@).contains(key@),
{
    let ghost all = keys@.map_values(|k: Pubkey| k@);
    let want: [u8; 32] = key.to_bytes();
    let mut i: usize = 0;
    while i < keys.len()
        invariant
            i <= keys@.len(),
            want@ == key@,
            all == keys@.map_values(|k: Pubkey| k@),
            forall|j: int| 0 <= j < i ==> #[trigger] all[j] != key@,
        decreases keys@.len() - i,
    {
        let here: [u8; 32] = keys[i].to_bytes();
        assert(all[i as int] == here@);
        if same_bytes(here.as_slice(), want.as_slice()) {
            return Some(i);
        }
        i += 1;
    }
    None
}

/// Put `signature` into the slot of `pubkey` in the transaction's signature
/// array, which is first brought to one slot per required signer.
pub fn add_signature_to_transaction(
    tx: &mut VersionedTransaction,
    pubkey: &Pubkey,
    signature: Signature,
) -> (r: Result<(), SignerError>)
    ensures
        r is Ok <==> old(tx)@.required_signers.contains(pubkey@),
        r is Ok ==> exists|i: int| #[trigger]
            first_index(old(tx)@.required_signers, pubkey@, i) && final(tx)@ == with_signature(
                old(tx)@,
                i,
                signature@,
            ),
        r matches Err(e) ==> e@ == not_a_signer() && *final(tx) == *old(tx),
{
    let ghost before = tx@;
    let index: usize = match position(&tx.required_signers, pubkey) {
        Some(i) => i,
        None => return Err(SignerError::SigningFailed(NOT_A_SIGNER.to_owned())),
    };
    let blank: Signature = blank_signature();
    while tx.signatures.len() < tx.required_signers.len()
        invariant
            blank@ == unsigned(),
            tx@.message == before.message,
            tx@.required_signers == before.required_signers,
            before.signatures.len() <= tx@.signatures.len() <= slots(before).len(),
            tx@.signatures == slots(before).take(tx@.signatures.len() as int),
        decreases tx.required_signers@.len() - tx.signatures@.len(),
    {
        let ghost filled = tx@.signatures;
        tx.signatures.push(blank);
        assert(tx@.signatures =~= filled.push(unsigned()));
        assert(tx@.signatures =~= slots(before).take(filled.len() as int + 1));
        assert(tx@.required_signers =~= before.required_signers);
    }
    assert(tx@.signatures =~= slots(before));
    tx.signatures.set(index, signature);
    assert(tx@.signatures =~= slots(before).update(index as int, signature@));
    assert(tx@ =~= with_signature(before, index as int, signature@));
    assert(first_index(before.required_signers, pubkey@, index as int));
    assert(before.required_signers.contains(pubkey@));
    Ok(())
}

/// Mark a signed transaction as complete when every required signer has signed
/// it, and as partial otherwise.
pub fn classify_signed_transaction(
    tx: &VersionedTransaction,
    signed: SignedTransaction,
) -> (r: SignTransactionResult)
    ensures
        r == (if fully_signed(tx@) {
            SignTransactionResult::Complete(signed)
        } else {
            SignTransactionResult::Partial(signed)
        }),
{
    if tx.signatures.len() < tx.required_signers.len() {
        return SignTransactionResult::Partial(signed);
    }
    let mut i: usize = 0;
    while i < tx.required_signers.len()
        invariant
            i <= tx.required_signers@.len() <= tx.signatures@.len(),
            forall|j: int| 0 <= j < i ==> #[trigger] tx@.signatures[j] != unsigned(),
        decreases tx.required_signers@.len() - i,
    {
        let empty = is_unsigned(&tx.signatures[i]);
        assert(tx@.signatures[i as int] == tx.signatures@[i as int]@);
        if empty {
            return SignTransactionResult::Partial(signed);
        }
        i += 1;
    }
    SignTransactionResult::Complete(signed)
}

/// Adding a signature touches one slot: the message, the required signers and
/// every other signature stay as they were.
pub proof fn adding_a_signature_touches_one_slot(
    tx: TransactionView,
    index: int,
    signature: Seq<u8>,
    other: int,
)
    requires
        0 <= index < tx.required_signers.len(),
        0 <= other < tx.signatures.len(),
        other != index,
    ensures
        with_signature(tx, index, signature).message == tx.message,
        with_signature(tx, index, signature).required_signers == tx.required_signers,
        with_signature(tx, index, signature).signatures[index] == signature,
        with_signature(tx, index, signature).signatures[other] == tx.signatures[other],
{
}

/// A signature completes a transaction exactly if it is the last one missing.
pub proof fn the_last_signature_completes(tx: TransactionView, index: int, signature: Seq<u8>)
    requires
        0 <= index < tx.required_signers.len(),
        signature != unsigned(),
    ensures
        fully_signed(with_signature(tx, index, signature)) <==> others_signed(tx, index),
        tx.required_signers.len() == 1 ==> fully_signed(with_signature(tx, index, signature)),
{
    let after = with_signature(tx, index, signature);
    assert forall|i: int|
        0 <= i < tx.required_signers.len() && i != index implies #[trigger] after.signatures[i]
        == slots(tx)[i] by {}
    if others_signed(tx, index) {
        assert forall|i: int| 0 <= i < after.required_signers.len() implies #[trigger]
            after.signatures[i] != unsigned() by {
            if i != index {
                assert(slots(tx)[i] != unsigned());
            }
        }
    }
    if fully_signed(after) {
        assert forall|i: int|
            0 <= i < tx.required_signers.len() && i != index implies #[trigger] slots(tx)[i]
            != unsigned() by {
            assert(after.signatures[i] != unsigned());
        }
    }
}

/// A transaction is its message, its required signers and its signatures, each in
/// place.
pub proof fn a_transaction_is_all_of_its_fields(tx: VersionedTransaction)
    ensures
        tx@.message == tx.message@,
        tx@.required_signers.len() == tx.required_signers@.len(),
        forall|i: int|
            0 <= i < tx.required_signers@.len() ==> #[trigger] tx@.required_signers[i]
                == tx.required_signers@[i]@,
        tx@.signatures.len() == tx.signatures@.len(),
        forall|i: int|
            0 <= i < tx.signatures@.len() ==> #[trigger] tx@.signatures[i] == tx.signatures@[i]@,
{
}

/// Adding a signature first brings the array to one slot per required signer, never
/// shortening it; a slot that is new is all-zero, except where the signature goes.
pub proof fn new_slots_are_blank(tx: TransactionView, index: int, signature: Seq<u8>)
    requires
        0 <= index < tx.required_signers.len(),
    ensures
        with_signature(tx, index, signature).signatures.len() >= tx.required_signers.len(),
        with_signature(tx, index, signature).signatures.len() >= tx.signatures.len(),
        with_signature(tx, index, signature).signatures.len() == tx.required_signers.len()
            || with_signature(tx, index, signature).signatures.len() == tx.signatures.len(),
        with_signature(tx, index, signature).signatures[index] == signature,
        forall|i: int|
            tx.signatures.len() <= i < tx.required_signers.len() && i != index ==> (
            #[trigger] with_signature(tx, index, signature).signatures[i]) == Seq::new(
                64,
                |j: int| 0u8,
            ),
{
}

/// A transaction is complete exactly if no required signer's slot is missing or
/// all-zero. Slots beyond those do not matter.
pub proof fn complete_means_no_required_slot_is_blank(tx: TransactionView)
    ensures
        fully_signed(tx) <==> {
            &&& tx.required_signers.len() <= tx.signatures.len()
            &&& forall|i: int|
                0 <= i < tx.required_signers.len() ==> (#[trigger] tx.signatures[i]) != Seq::new(
                    64,
                    |j: int| 0u8,
                )
        },
{
}

/// The mark is all that is dropped, and a key that need not sign is a failed
/// signing.
pub proof fn dropping_the_mark_keeps_the_transaction(tx: SignedTransaction)
    ensures
        SignTransactionResult::Complete(tx).signed() == tx,
        SignTransactionResult::Partial(tx).signed() == tx,
        not_a_signer().kind is SigningFailed,
        not_a_signer().detail == "signer is not among the transaction's required signers"@,
{
}

/// A signature goes to the first position of its key: there is one exactly if the
/// key is required at all, and never more than one.
pub proof fn the_slot_is_the_first_of_its_key(keys: Seq<Seq<u8>>, key: Seq<u8>, i: int, j: int)
    ensures
        first_index(keys, key, i) ==> 0 <= i < keys.len() && keys[i] == key,
        first_index(keys, key, i) && 0 <= j < keys.len() && keys[j] == key ==> i <= j,
        0 <= i < keys.len() && keys[i] == key && (forall|k: int|
            0 <= k < i ==> #[trigger] keys[k] != key) ==> first_index(keys, key, i),
{
}

} // verus!
