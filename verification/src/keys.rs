//! Public keys and signatures, as the bytes that cross to and from the device.

use vstd::prelude::*;

use crate::error::{failure, ErrorKind, ErrorView, SignerError};

verus! {

/// An ed25519 public key.
#[derive(Clone, Copy, Debug, PartialEq, Eq)]
pub struct Pubkey {
    bytes: [u8; 32],
}

impl View for Pubkey {
    type V = Seq<u8>;

    closed spec fn view(&self) -> Seq<u8> {
        self.bytes@
    }
}

impl Pubkey {
    /// The key made of these bytes.
    pub closed spec fn of(bytes: [u8; 32]) -> Pubkey {
        Pubkey { bytes }
    }

    /// The bytes of this key.
    pub fn to_bytes(&self) -> (bytes: [u8; 32])
        ensures
            bytes@ == self@,
            Pubkey::of(bytes) == *self,
    {
        self.bytes
    }
}

impl vstd::std_specs::convert::FromSpecImpl<[u8; 32]> for Pubkey {
    open spec fn obeys_from_spec() -> bool {
        true
    }

    open spec fn from_spec(bytes: [u8; 32]) -> Pubkey {
        Pubkey::of(bytes)
    }
}

impl From<[u8; 32]> for Pubkey {
    fn from(bytes: [u8; 32]) -> (key: Pubkey)
    {
        Pubkey { bytes }
    }
}

/// A public key holds exactly the bytes it was made of.
pub broadcast proof fn pubkey_holds_its_bytes(bytes: [u8; 32])
    ensures
        (#[trigger] Pubkey::of(bytes))@ == bytes@,
        Pubkey::of(bytes)@.len() == 32,
{
}

/// A public key is 32 bytes long.
pub proof fn pubkey_is_32_bytes(key: Pubkey)
    ensures
        key@.len() == 32,
{
}

/// An ed25519 signature.
#[derive(Clone, Copy, Debug, PartialEq, Eq)]
pub struct Signature {
    bytes: [u8; 64],
}

impl View for Signature {
    type V = Seq<u8>;

    closed spec fn view(&self) -> Seq<u8> {
        self.bytes@
    }
}

impl Signature {
    /// The signature made of these bytes.
    pub closed spec fn of(bytes: [u8; 64]) -> Signature {
        Signature { bytes }
    }

    /// The bytes of this signature.
    pub fn as_bytes(&self) -> (bytes: &[u8])
        ensures
            bytes@ == self@,
            bytes@.len() == 64,
    {
        self.bytes.as_slice()
    }
}

impl vstd::std_specs::convert::FromSpecImpl<[u8; 64]> for Signature {
    open spec fn obeys_from_spec() -> bool {
        true
    }

    open spec fn from_spec(bytes: [u8; 64]) -> Signature {
        Signature::of(bytes)
    }
}

impl From<[u8; 64]> for Signature {
    fn from(bytes: [u8; 64]) -> (signature: Signature)
    {
        Signature { bytes }
    }
}

/// A signature holds exactly the bytes it was made of.
pub broadcast proof fn signature_holds_its_bytes(bytes: [u8; 64])
    ensures
        (#[trigger] Signature::of(bytes))@ == bytes@,
        Signature::of(bytes)@.len() == 64,
{
}

/// The 64 raw bytes of a signature that came from elsewhere.
///
/// The bridge between signature types of different crates is byte-level: no two
/// of them ever have to be the same type.
pub fn signature_bytes(signature: &[u8]) -> (out: [u8; 64])
    requires
        signature@.len() == 64,
    ensures
        out@ == signature@,
{
    let mut out: [u8; 64] = [0u8; 64];
    let mut i: usize = 0;
    while i < 64
        invariant
            0 <= i <= 64,
            signature@.len() == 64,
            forall|j: int| 0 <= j < i ==> out@[j] == signature@[j],
        decreases 64 - i,
    {
        out[i] = signature[i];
        i += 1;
    }
    assert(out@ =~= signature@);
    out
}

/// The bytes that stand where nobody has signed.
pub open spec fn unsigned() -> Seq<u8> {
    Seq::new(64, |i: int| 0u8)
}

/// The signature that stands where nobody has signed.
pub(crate) fn blank_signature() -> (signature: Signature)
    ensures
        signature@ == unsigned(),
{
    let bytes: [u8; 64] = [0u8; 64];
    assert(bytes@ =~= unsigned());
    Signature { bytes }
}

/// Whether `signature` is an ed25519 signature of `message` under `pubkey`, as
/// `solana_signature` decides it.
pub uninterp spec fn signature_verifies(
    signature: Seq<u8>,
    pubkey: Seq<u8>,
    message: Seq<u8>,
) -> bool;

/// Calls `solana_signature::Signature::verify`.
///
/// Trusted: what that function answers depends on the bytes of the signature,
/// of the key and of the message and on nothing else; its answer is what
/// [`signature_verifies`] stands for. The verification is the strict one, which
/// rejects a signature whose first half encodes a point of small order, and all
/// zeros encode one: [`unsigned`] never verifies.
#[verifier::external_body]
fn ed25519_verify(signature: &Signature, pubkey: &Pubkey, message: &[u8]) -> (ok: bool)
    ensures
        ok == signature_verifies(signature@, pubkey@, message@),
        signature@ == unsigned() ==> !ok,
{
    solana_signature::Signature::from(signature.bytes).verify(&pubkey.bytes, message)
}

/// The detail of the error for a signature that does not verify.
pub const UNVERIFIED_SIGNATURE: &'static str =
    "the signature does not verify against the signer's public key";

/// The error for a signature that does not verify.
pub open spec fn unverified() -> ErrorView {
    failure(ErrorKind::SigningFailed, UNVERIFIED_SIGNATURE@)
}

/// Turns the outcome of a verification into a verdict.
pub fn accept_verified(verified: bool) -> (r: Result<(), SignerError>)
    ensures
        r is Ok <==> verified,
        r matches Err(e) ==> e@ == unverified(),
{
    if verified {
        Ok(())
    } else {
        Err(SignerError::SigningFailed(UNVERIFIED_SIGNATURE.to_owned()))
    }
}

/// Rejects a signature that does not verify against `pubkey` over `message`.
///
/// No signature leaves this crate without passing here first.
pub fn verify_or_reject(signature: &Signature, pubkey: &Pubkey, message: &[u8]) -> (r: Result<
    (),
    SignerError,
>)
    ensures
        r is Ok <==> signature_verifies(signature@, pubkey@, message@),
        r matches Err(e) ==> e@ == unverified(),
        signature@ == unsigned() ==> r is Err,
{
    accept_verified(ed25519_verify(signature, pubkey, message))
}

/// Two keys with the same bytes are the same key, and so are two signatures: a
/// signature that nobody gave is sixty-four zero bytes, and one that does not
/// verify is a failed signing.
pub proof fn bytes_are_all_there_is(key1: Pubkey, key2: Pubkey, a: Signature, b: Signature)
    ensures
        key1@ == key2@ <==> key1 == key2,
        a@ == b@ <==> a == b,
        a@.len() == 64,
        unsigned().len() == 64,
        forall|i: int| 0 <= i < 64 ==> #[trigger] unsigned()[i] == 0,
        unverified().kind is SigningFailed,
{
    if key1@ == key2@ {
        assert(key1.bytes =~= key2.bytes) by {
            assert forall|i: int| 0 <= i < 32 implies key1.bytes[i] == key2.bytes[i] by {
                assert(key1@[i] == key2@[i]);
            }
        }
    }
    if a@ == b@ {
        assert(a.bytes =~= b.bytes) by {
            assert forall|i: int| 0 <= i < 64 implies a.bytes[i] == b.bytes[i] by {
                assert(a@[i] == b@[i]);
            }
        }
    }
}

} // verus!
