//! What every signer offers.
//!
//! Signing waits on a device, and the waiting happens outside. So each method
//! that signs gives back a [`SigningRequest`]: what to send, and the check that
//! the reply has to pass before it counts as a signature.

use vstd::prelude::*;

use crate::error::{failure, ErrorKind, ErrorView, SignerError};
use crate::health::{still_blocked, ActorHealth};
use crate::keys::{
    signature_verifies, unsigned, unverified, verify_or_reject, Pubkey, Signature,
};
use crate::command::{signature_view, CommandView};
use crate::request::{DeviceRequest, Issued, Probe, ProbeView, RequestView};
use crate::text::join;
use crate::timeout::{Timeout, FAST_COMMAND_TIMEOUT};
use crate::transaction::{
    add_signature_to_transaction, first_index, fully_signed, not_a_signer, others_signed,
    the_last_signature_completes, with_signature, VersionedTransaction,
};

verus! {

pub const TASK_FAILED: &'static str = "Ledger signing task failed: ";

/// What a reply has to be checked against before it counts as a signature.
pub struct SignatureCheck {
    /// The key cached when the signer connected, never the one that the device
    /// reports now.
    pub pubkey: Pubkey,
    /// The exact bytes that the device was given to sign.
    pub covered: Vec<u8>,
}

/// A request to sign, and the check that its reply has to pass.
pub struct SigningRequest {
    pub request: DeviceRequest,
    pub check: SignatureCheck,
}

/// What a signing asks for, and what its reply is checked against.
#[verifier::ext_equal]
pub struct SigningView {
    pub request: RequestView,
    pub pubkey: Seq<u8>,
    pub covered: Seq<u8>,
}

impl View for SigningRequest {
    type V = Issued<SigningView>;

    open spec fn view(&self) -> Issued<SigningView> {
        Issued {
            plan: SigningView {
                request: self.request@.plan,
                pubkey: self.check.pubkey@,
                covered: self.check.covered@,
            },
            ticket: self.request@.ticket,
        }
    }
}

/// The mathematical value of the start of a signing.
pub open spec fn signing_view(r: Result<SigningRequest, SignerError>) -> Result<
    Issued<SigningView>,
    ErrorView,
> {
    match r {
        Ok(request) => Ok(request@),
        Err(e) => Err(e@),
    }
}

/// What a caller is told who wants to carry out `plan`: a plan that cannot be
/// carried out at all fails as it is; any other is refused while the device
/// thread is wedged, and issued otherwise.
pub open spec fn gated<T>(plan: Result<T, ErrorView>, health: ActorHealth) -> Result<
    Issued<T>,
    ErrorView,
> {
    match plan {
        Ok(plan) => if health.wedged() {
            Err(still_blocked())
        } else {
            Ok(Issued { plan, ticket: health.next_ticket() })
        },
        Err(e) => Err(e),
    }
}

/// The health after such a caller: a plan that cannot be carried out at all
/// never gets as far as looking.
pub open spec fn gated_health<T>(
    plan: Result<T, ErrorView>,
    health: ActorHealth,
) -> ActorHealth {
    if plan is Ok {
        health.after_issued()
    } else {
        health
    }
}

/// The start of a probe that sends `command`.
pub open spec fn probe_start(command: CommandView, health: ActorHealth) -> ProbeView {
    if health.wedged() {
        ProbeView::Answered(false)
    } else {
        ProbeView::Ask(
            Issued {
                plan: RequestView { command, timeout: Timeout::seconds(FAST_COMMAND_TIMEOUT) },
                ticket: health.next_ticket(),
            },
        )
    }
}

/// What a signing came to: the task that carried it out failed, for the reason
/// given, or it brought back the settled reply.
pub type SigningOutcome = Result<Result<[u8; 64], SignerError>, String>;

/// The mathematical value of a [`SigningOutcome`], with a failed task as the
/// error it is reported as.
pub open spec fn outcome_view(outcome: SigningOutcome) -> Result<Seq<u8>, ErrorView> {
    match outcome {
        Ok(reply) => signature_view(reply),
        Err(text) => Err(failure(ErrorKind::Other, TASK_FAILED@ + text@)),
    }
}

/// The signature that an outcome leads to: the device's, if it verifies against
/// `pubkey` over `covered`.
pub open spec fn bound_signature(
    outcome: Result<Seq<u8>, ErrorView>,
    pubkey: Seq<u8>,
    covered: Seq<u8>,
) -> Result<Seq<u8>, ErrorView> {
    match outcome {
        Ok(bytes) => if signature_verifies(bytes, pubkey, covered) {
            Ok(bytes)
        } else {
            Err(unverified())
        },
        Err(e) => Err(e),
    }
}

/// The mathematical value of a signing's result.
pub open spec fn result_view(r: Result<Signature, SignerError>) -> Result<Seq<u8>, ErrorView> {
    match r {
        Ok(signature) => Ok(signature@),
        Err(e) => Err(e@),
    }
}

impl SignatureCheck {
    /// Accept the device's reply as a signature, or reject it.
    ///
    /// Never hands back a signature that does not verify against the signer's
    /// cached key over the bytes the device was given. This is what catches a
    /// corrupted transport, and a device that was swapped for another.
    pub fn finish(&self, outcome: SigningOutcome) -> (r: Result<Signature, SignerError>)
        ensures
            result_view(r) == bound_signature(
                outcome_view(outcome),
                self.pubkey@,
                self.covered@,
            ),
            r matches Ok(signature) ==> signature_verifies(
                signature@,
                self.pubkey@,
                self.covered@,
            ),
            r matches Ok(signature) ==> signature@ != unsigned(),
            r is Ok <==> (outcome matches Ok(Ok(bytes)) && signature_verifies(
                bytes@,
                self.pubkey@,
                self.covered@,
            )),
            r matches Ok(signature) ==> (outcome matches Ok(Ok(bytes)) && signature@ == bytes@),
            outcome matches Ok(Err(e)) ==> (r matches Err(err) && err@ == e@),
    {
        let bytes: [u8; 64] = match outcome {
            Ok(Ok(bytes)) => bytes,
            Ok(Err(e)) => return Err(e),
            Err(text) => return Err(SignerError::Other(join(TASK_FAILED, text.as_str()))),
        };
        proof {
            crate::keys::signature_holds_its_bytes(bytes);
        }
        let signature = Signature::from(bytes);
        match verify_or_reject(&signature, &self.pubkey, self.covered.as_slice()) {
            Ok(_) => Ok(signature),
            Err(e) => Err(e),
        }
    }

    /// Accept the device's reply as [`SignatureCheck::finish`] does and attach it
    /// to `tx`, in place. A reply that is rejected leaves `tx` alone; one that is
    /// accepted completes `tx` exactly if every other required signer has signed.
    pub fn finish_transaction(&self, tx: &mut VersionedTransaction, outcome: SigningOutcome) -> (r:
        Result<Signature, SignerError>)
        ensures
            result_view(r) == (match bound_signature(
                outcome_view(outcome),
                self.pubkey@,
                self.covered@,
            ) {
                Ok(bytes) => if old(tx)@.required_signers.contains(self.pubkey@) {
                    Ok(bytes)
                } else {
                    Err(not_a_signer())
                },
                Err(e) => Err(e),
            }),
            r matches Ok(signature) ==> signature_verifies(
                signature@,
                self.pubkey@,
                self.covered@,
            ),
            r matches Ok(signature) ==> exists|i: int| #[trigger]
                first_index(old(tx)@.required_signers, self.pubkey@, i) && final(tx)@
                    == with_signature(old(tx)@, i, signature@) && (fully_signed(final(tx)@)
                    <==> others_signed(old(tx)@, i)),
            r is Ok && old(tx)@.required_signers.len() == 1 ==> fully_signed(final(tx)@),
            r is Err ==> *final(tx) == *old(tx),
    {
        let signature: Signature = match self.finish(outcome) {
            Ok(signature) => signature,
            Err(e) => return Err(e),
        };
        let ghost before = tx@;
        match add_signature_to_transaction(tx, &self.pubkey, signature) {
            Ok(_) => {
                proof {
                    let i = choose|i: int| #[trigger]
                        first_index(before.required_signers, self.pubkey@, i) && tx@
                            == with_signature(before, i, signature@);
                    the_last_signature_completes(before, i, signature@);
                }
                Ok(signature)
            },
            Err(e) => Err(e),
        }
    }
}

/// Trait for signing Solana transactions
///
/// All signer implementations implement this trait to provide a unified
/// interface for transaction signing.
pub trait SolanaSigner: Send + Sync {
    /// The bytes of this signer's public key.
    spec fn key(&self) -> Seq<u8>;

    /// How this signer signs an arbitrary message.
    spec fn message_plan(&self, message: Seq<u8>) -> Result<SigningView, ErrorView>;

    /// How this signer signs a serialized transaction message.
    spec fn transaction_plan(&self, message: Seq<u8>) -> Result<SigningView, ErrorView>;

    /// Whether this signer signs a transaction message in another way than an
    /// arbitrary one. Such a signer overrides
    /// [`sign_transaction_message`](Self::sign_transaction_message); any other
    /// keeps the default.
    spec fn signs_transactions_apart(&self) -> bool;

    /// The command that tells whether this signer can be used.
    spec fn availability_command(&self) -> CommandView;

    /// Get the public key of this signer
    fn pubkey(&self) -> (key: Pubkey)
        ensures
            key@ == self.key(),
    ;

    /// Sign a Solana transaction
    ///
    /// The reply is attached to `tx` by [`SignatureCheck::finish_transaction`].
    fn sign_transaction(&self, tx: &VersionedTransaction, health: &mut ActorHealth) -> (r: Result<
        SigningRequest,
        SignerError,
    >)
        ensures
            signing_view(r) == gated(self.transaction_plan(tx@.message), *old(health)),
            *final(health) == gated_health(self.transaction_plan(tx@.message), *old(health)),
    ;

    /// Sign an arbitrary message
    fn sign_message(&self, message: &[u8], health: &mut ActorHealth) -> (r: Result<
        SigningRequest,
        SignerError,
    >)
        ensures
            signing_view(r) == gated(self.message_plan(message@), *old(health)),
            *final(health) == gated_health(self.message_plan(message@), *old(health)),
    ;

    /// Sign a pre-serialized transaction *message* (legacy or versioned).
    ///
    /// This is distinct from [`sign_message`](Self::sign_message): it signs the
    /// bytes *as a transaction*, not as an arbitrary/off-chain message. For a
    /// software key the two are identical, so the default implementation
    /// delegates to `sign_message`. A hardware wallet cannot raw-sign arbitrary
    /// bytes — it must route a transaction through its transaction-parsing APDU —
    /// so hardware backends override this method.
    fn sign_transaction_message(&self, message: &[u8], health: &mut ActorHealth) -> (r: Result<
        SigningRequest,
        SignerError,
    >)
        ensures
            !self.signs_transactions_apart() ==> signing_view(r) == gated(
                self.message_plan(message@),
                *old(health),
            ) && *final(health) == gated_health(self.message_plan(message@), *old(health)),
            ({
                ||| signing_view(r) == gated(self.transaction_plan(message@), *old(health))
                    && *final(health) == gated_health(
                    self.transaction_plan(message@),
                    *old(health),
                )
                ||| signing_view(r) == gated(self.message_plan(message@), *old(health))
                    && *final(health) == gated_health(self.message_plan(message@), *old(health))
            }),
        default_ensures
            signing_view(r) == gated(self.message_plan(message@), *old(health)),
            *final(health) == gated_health(self.message_plan(message@), *old(health)),
    {
        self.sign_message(message, health)
    }

    /// Check if the signer is available and healthy
    fn is_available(&self, health: &mut ActorHealth) -> (probe: Probe)
        ensures
            probe@ == probe_start(self.availability_command(), *old(health)),
            *final(health) == old(health).after_issued(),
    ;
}

/// Who may go ahead: a plan that cannot be carried out fails as it is and looks at
/// nothing; any other is issued, unchanged, under a ticket behind everything that is
/// outstanding, unless a command that was given up on has not been passed by the
/// count.
pub proof fn a_sound_plan_is_issued_unless_the_thread_is_stuck<T>(
    plan: T,
    e: ErrorView,
    health: ActorHealth,
)
    ensures
        gated(Err::<T, ErrorView>(e), health) == Err::<Issued<T>, ErrorView>(e),
        gated_health(Err::<T, ErrorView>(e), health) == health,
        health.abandoned_at < u64::MAX && health.completed <= health.abandoned_at ==> {
            &&& gated(Ok::<T, ErrorView>(plan), health) == Err::<Issued<T>, ErrorView>(
                ErrorView {
                    kind: ErrorKind::NotAvailable,
                    detail:
                        "the Ledger device thread is still blocked on an earlier command that timed out. Dismiss any prompt left on the device screen, or unplug and replug it, then retry."@,
                },
            )
            &&& gated_health(Ok::<T, ErrorView>(plan), health) == health
        },
        health.abandoned_at == u64::MAX || health.completed > health.abandoned_at ==> {
            &&& gated(Ok::<T, ErrorView>(plan), health) matches Ok(issued) && issued.plan == plan
                && (health.completed + health.outstanding < u64::MAX ==> issued.ticket
                == health.completed + health.outstanding + 1)
            &&& gated_health(Ok::<T, ErrorView>(plan), health).abandoned_at == u64::MAX
            &&& gated_health(Ok::<T, ErrorView>(plan), health).completed == health.completed
            &&& health.outstanding < u64::MAX ==> gated_health(
                Ok::<T, ErrorView>(plan),
                health,
            ).outstanding == health.outstanding + 1
        },
{
}

/// A probe asks the device thread exactly what it was to ask, for ten seconds at
/// most, unless the thread is stuck; then it is answered `false` on the spot.
pub proof fn a_probe_asks_unless_the_thread_is_stuck(command: CommandView, health: ActorHealth)
    ensures
        health.abandoned_at < u64::MAX && health.completed <= health.abandoned_at ==> probe_start(
            command,
            health,
        ) == ProbeView::Answered(false),
        health.abandoned_at == u64::MAX || health.completed > health.abandoned_at ==> (probe_start(
            command,
            health,
        ) matches ProbeView::Ask(issued) && issued.plan.command == command && issued.plan.timeout
            == Timeout::seconds(10) && (health.completed + health.outstanding < u64::MAX
            ==> issued.ticket == health.completed + health.outstanding + 1)),
{
}

/// A signature comes of a signing exactly if the device gave one that verifies
/// against the key over the bytes, and then it is the device's, byte for byte.
/// Otherwise the error is the device's own, that of the failed task, or that of the
/// failed verification.
pub proof fn only_a_verified_reply_is_a_signature(
    bytes: [u8; 64],
    e: SignerError,
    text: String,
    pubkey: Seq<u8>,
    covered: Seq<u8>,
)
    ensures
        signature_verifies(bytes@, pubkey, covered) ==> bound_signature(
            outcome_view(Ok(Ok(bytes))),
            pubkey,
            covered,
        ) == Ok::<Seq<u8>, ErrorView>(bytes@),
        !signature_verifies(bytes@, pubkey, covered) ==> bound_signature(
            outcome_view(Ok(Ok(bytes))),
            pubkey,
            covered,
        ) == Err::<Seq<u8>, ErrorView>(
            ErrorView {
                kind: ErrorKind::SigningFailed,
                detail: "the signature does not verify against the signer's public key"@,
            },
        ),
        bound_signature(outcome_view(Ok(Err(e))), pubkey, covered) == Err::<Seq<u8>, ErrorView>(
            e@,
        ),
        bound_signature(outcome_view(Err(text)), pubkey, covered) == Err::<Seq<u8>, ErrorView>(
            ErrorView {
                kind: ErrorKind::Other,
                detail: "Ledger signing task failed: "@ + text@,
            },
        ),
{
}

/// A signing request is its request and its check, and a result is what it carries.
pub proof fn a_signing_request_is_all_of_its_fields(
    signing: SigningRequest,
    signature: Signature,
    e: SignerError,
)
    ensures
        signing@.plan.request.command == signing.request.command@,
        signing@.plan.request.timeout == signing.request.timeout,
        signing@.plan.pubkey == signing.check.pubkey@,
        signing@.plan.covered == signing.check.covered@,
        signing@.ticket == signing.request.ticket,
        signing_view(Ok(signing)) == Ok::<Issued<SigningView>, ErrorView>(signing@),
        signing_view(Err(e)) == Err::<Issued<SigningView>, ErrorView>(e@),
        result_view(Ok(signature)) == Ok::<Seq<u8>, ErrorView>(signature@),
        result_view(Err(e)) == Err::<Seq<u8>, ErrorView>(e@),
{
}

} // verus!
