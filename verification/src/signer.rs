//! The Ledger signer itself.

use vstd::prelude::*;
use vstd::utf8::valid_utf8;

use crate::actor::{begin, no_session, turn, SessionView, StepView};
use crate::command::{key_view, CommandView, DeviceCommand, ReplyView};
use crate::derivation::{check_path, invalid_path, path_fault, DEFAULT_DERIVATION_PATH};
use crate::envelope::{
    envelope, envelope_is_not_the_payload, envelope_layout, ledger_offchain_envelope, refusal,
    signable,
};
use crate::error::{ErrorKind, ErrorView, SignerError};
use crate::health::{still_blocked, ActorHealth};
use crate::keys::{pubkey_is_32_bytes, Pubkey};
use crate::request::{
    probe_on, request_on, DeviceRequest, Issued, Probe, ProbeView, RequestView,
};
use crate::text::opt_view;
use crate::timeout::{
    default_signing_timeout, fast_command_timeout, Timeout, DEFAULT_SIGNING_TIMEOUT,
    FAST_COMMAND_TIMEOUT,
};
use crate::traits::{
    gated, gated_health, probe_start, signing_view, SignatureCheck, SigningRequest, SigningView,
    SolanaSigner,
};
use crate::transaction::VersionedTransaction;

verus! {

/// How to open a [`LedgerSigner`].
///
/// Prefer this over [`LedgerSigner::connect`] when you need to control the
/// signing timeout or suppress the dashboard auto-launch. `Default` reproduces
/// `connect(None, false, None)` exactly.
#[derive(Debug, Clone)]
pub struct LedgerConfig {
    /// BIP-44 path; `None` uses [`DEFAULT_DERIVATION_PATH`].
    pub derivation_path: Option<String>,
    /// Display the derived address on the device for the user to verify. This
    /// requires a button press, so it waits on [`Self::signing_timeout`].
    pub confirm_pubkey_on_device: bool,
    /// Select one device by OS HID path when several Ledgers are attached.
    pub host_device_path: Option<String>,
    /// How long to wait on a command that needs a human.
    pub signing_timeout: Timeout,
    /// Launch the Solana app from the BOLOS dashboard when a connect fails
    /// because the app is not running. Defaults to `true`.
    ///
    /// **This writes APDUs to the device without asking the host user**, and on
    /// most firmware the device then shows its own confirmation prompt. That is
    /// the right default for an interactive CLI. Set it to `false` for unattended
    /// or server-side use; connect then fails with the underlying error instead.
    /// A decline on the device is always surfaced either way.
    pub auto_open_app: bool,
}

/// The mathematical value of a [`LedgerConfig`].
#[verifier::ext_equal]
pub struct ConfigView {
    pub path: Option<Seq<char>>,
    pub confirm: bool,
    pub host: Option<Seq<char>>,
    pub signing_timeout: Timeout,
    pub auto_open: bool,
}

impl View for LedgerConfig {
    type V = ConfigView;

    open spec fn view(&self) -> ConfigView {
        ConfigView {
            path: opt_view(self.derivation_path),
            confirm: self.confirm_pubkey_on_device,
            host: opt_view(self.host_device_path),
            signing_timeout: self.signing_timeout,
            auto_open: self.auto_open_app,
        }
    }
}

impl Default for LedgerConfig {
    fn default() -> (config: LedgerConfig)
        ensures
            config@ == plain_config(None, false, None),
    {
        LedgerConfig {
            derivation_path: None,
            confirm_pubkey_on_device: false,
            host_device_path: None,
            signing_timeout: default_signing_timeout(),
            auto_open_app: true,
        }
    }
}

/// The configuration that leaves everything but its arguments at the default.
pub open spec fn plain_config(
    path: Option<Seq<char>>,
    confirm: bool,
    host: Option<Seq<char>>,
) -> ConfigView {
    ConfigView {
        path,
        confirm,
        host,
        signing_timeout: Timeout::seconds(DEFAULT_SIGNING_TIMEOUT),
        auto_open: true,
    }
}

impl ConfigView {
    /// The derivation path to use.
    pub open spec fn chosen_path(self) -> Seq<char> {
        match self.path {
            Some(path) => path,
            None => DEFAULT_DERIVATION_PATH@,
        }
    }

    /// How long to wait for the connect. It can reach the user in two ways, an
    /// on-device address confirmation and the dashboard auto-launch; either one
    /// means waiting on a human rather than on the wire.
    pub open spec fn connect_timeout(self) -> Timeout {
        if self.confirm || self.auto_open {
            self.signing_timeout
        } else {
            Timeout::seconds(FAST_COMMAND_TIMEOUT)
        }
    }

    /// How to connect with this configuration.
    pub open spec fn connect_plan(self) -> Result<ConnectView, ErrorView> {
        match path_fault(self.chosen_path()) {
            Some(text) => Err(invalid_path(text)),
            None => Ok(
                ConnectView {
                    request: RequestView {
                        command: CommandView::Connect {
                            path: self.chosen_path(),
                            confirm: self.confirm,
                            host: self.host,
                            auto_open: self.auto_open,
                        },
                        timeout: self.connect_timeout(),
                    },
                    path: self.chosen_path(),
                    signing_timeout: self.signing_timeout,
                },
            ),
        }
    }
}

/// A signer that only lacks its pubkey.
pub struct PendingSigner {
    path_str: String,
    signing_timeout: Timeout,
}

/// The mathematical value of a [`PendingSigner`].
#[verifier::ext_equal]
pub struct PendingView {
    pub path: Seq<char>,
    pub signing_timeout: Timeout,
}

impl View for PendingSigner {
    type V = PendingView;

    closed spec fn view(&self) -> PendingView {
        PendingView { path: self.path_str@, signing_timeout: self.signing_timeout }
    }
}

/// A connect to carry out, and the signer that its reply completes.
pub struct ConnectRequest {
    pub request: DeviceRequest,
    pub pending: PendingSigner,
}

/// What a connect asks for, and the signer that its reply completes.
#[verifier::ext_equal]
pub struct ConnectView {
    pub request: RequestView,
    pub path: Seq<char>,
    pub signing_timeout: Timeout,
}

impl View for ConnectRequest {
    type V = Issued<ConnectView>;

    open spec fn view(&self) -> Issued<ConnectView> {
        Issued {
            plan: ConnectView {
                request: self.request@.plan,
                path: self.pending@.path,
                signing_timeout: self.pending@.signing_timeout,
            },
            ticket: self.request@.ticket,
        }
    }
}

/// The mathematical value of the start of a connect.
pub open spec fn connect_view(r: Result<ConnectRequest, SignerError>) -> Result<
    Issued<ConnectView>,
    ErrorView,
> {
    match r {
        Ok(request) => Ok(request@),
        Err(e) => Err(e@),
    }
}

/// A [`SolanaSigner`] backed by a Ledger hardware wallet.
///
/// Cheap to create and drop: it holds no thread and no device handle, only the
/// cached pubkey and the derivation path to use.
pub struct LedgerSigner {
    pubkey: Pubkey,
    path_str: String,
    /// Timeout for the device commands that wait on a button press.
    signing_timeout: Timeout,
}

/// The mathematical value of a [`LedgerSigner`].
#[verifier::ext_equal]
pub struct SignerView {
    pub pubkey: Seq<u8>,
    pub path: Seq<char>,
    pub signing_timeout: Timeout,
}

impl View for LedgerSigner {
    type V = SignerView;

    closed spec fn view(&self) -> SignerView {
        SignerView {
            pubkey: self.pubkey@,
            path: self.path_str@,
            signing_timeout: self.signing_timeout,
        }
    }
}

impl PendingSigner {
    /// The path was validated before the device was troubled.
    #[verifier::type_invariant]
    spec fn path_is_valid(self) -> bool {
        path_fault(self.path_str@) is None
    }

    /// Complete the signer with the pubkey that the connect read. From now on
    /// every signature is held against this key.
    pub fn finish(self, reply: Result<[u8; 32], SignerError>) -> (r: Result<
        LedgerSigner,
        SignerError,
    >)
        ensures
            key_view(reply) matches Ok(key) ==> (r matches Ok(signer) && signer@ == SignerView {
                pubkey: key,
                path: self@.path,
                signing_timeout: self@.signing_timeout,
            }),
            key_view(reply) matches Err(e) ==> (r matches Err(err) && err@ == e),
            r matches Ok(signer) ==> path_fault(signer@.path) is None,
    {
        match reply {
            Ok(bytes) => {
                proof {
                    use_type_invariant(&self);
                    crate::keys::pubkey_holds_its_bytes(bytes);
                }
                Ok(
                    LedgerSigner {
                        pubkey: Pubkey::from(bytes),
                        path_str: self.path_str,
                        signing_timeout: self.signing_timeout,
                    },
                )
            },
            Err(e) => Err(e),
        }
    }
}

fn owned(text: Option<&str>) -> (r: Option<String>)
    ensures
        opt_view(r) == str_view(text),
{
    match text {
        Some(s) => Some(s.to_owned()),
        None => None,
    }
}

/// The mathematical value of an optional text.
pub open spec fn str_view(text: Option<&str>) -> Option<Seq<char>> {
    match text {
        Some(s) => Some(s@),
        None => None,
    }
}

impl LedgerSigner {
    /// The path was validated when this signer connected.
    #[verifier::type_invariant]
    spec fn path_is_valid(self) -> bool {
        path_fault(self.path_str@) is None
    }

    /// Connect to a Ledger device and cache the public key at `derivation_path`
    /// (defaults to [`DEFAULT_DERIVATION_PATH`]).
    ///
    /// Set `confirm_pubkey_on_device` to display the derived address on the
    /// device screen for the user to verify — use this when *registering* an
    /// account, not on every signing connection.
    ///
    /// `host_device_path` selects a specific device by its OS HID path when more
    /// than one Ledger is connected. Pass `None` to use the sole connected
    /// device.
    pub fn connect(
        derivation_path: Option<&str>,
        confirm_pubkey_on_device: bool,
        host_device_path: Option<&str>,
        health: &mut ActorHealth,
    ) -> (r: Result<ConnectRequest, SignerError>)
        ensures
            ({
                let plan = plain_config(
                    str_view(derivation_path),
                    confirm_pubkey_on_device,
                    str_view(host_device_path),
                ).connect_plan();
                &&& connect_view(r) == gated(plan, *old(health))
                &&& *final(health) == gated_health(plan, *old(health))
            }),
            derivation_path is None && !old(health).wedged() ==> r is Ok,
            r matches Ok(connect) ==> (connect.request.command matches DeviceCommand::Connect {
                path_str,
                confirm_pubkey_on_device: confirm,
                host_device_path: host,
                auto_open_app,
            } && {
                &&& path_str@ == (if derivation_path is Some {
                    derivation_path->0@
                } else {
                    "m/44'/501'/0'"@
                })
                &&& confirm == confirm_pubkey_on_device
                &&& host is Some <==> host_device_path is Some
                &&& host is Some ==> host->0@ == host_device_path->0@
                &&& auto_open_app
            }),
    {
        let config = LedgerConfig {
            derivation_path: owned(derivation_path),
            confirm_pubkey_on_device,
            host_device_path: owned(host_device_path),
            ..LedgerConfig::default()
        };
        assert(config@ =~= plain_config(
            str_view(derivation_path),
            confirm_pubkey_on_device,
            str_view(host_device_path),
        ));
        Self::connect_with(config, health)
    }

    /// Connect using an explicit [`LedgerConfig`].
    ///
    /// The path is validated before the device is troubled, so a typo is a clear
    /// config error rather than an obscure APDU failure.
    pub fn connect_with(config: LedgerConfig, health: &mut ActorHealth) -> (r: Result<
        ConnectRequest,
        SignerError,
    >)
        ensures
            connect_view(r) == gated(config@.connect_plan(), *old(health)),
            *final(health) == gated_health(config@.connect_plan(), *old(health)),
            config.derivation_path is None && !old(health).wedged() ==> r is Ok,
            r matches Ok(connect) ==> (connect.request.command matches DeviceCommand::Connect {
                path_str,
                confirm_pubkey_on_device,
                host_device_path,
                auto_open_app,
            } && {
                &&& path_str@ == (if config.derivation_path is Some {
                    config.derivation_path->0@
                } else {
                    "m/44'/501'/0'"@
                })
                &&& confirm_pubkey_on_device == config.confirm_pubkey_on_device
                &&& host_device_path is Some <==> config.host_device_path is Some
                &&& host_device_path is Some ==> host_device_path->0@
                    == config.host_device_path->0@
                &&& auto_open_app == config.auto_open_app
                &&& connect.pending@.path == path_str@
                &&& connect.pending@.signing_timeout == config.signing_timeout
            }),
    {
        let path_str: String = match config.derivation_path {
            Some(path) => path,
            None => DEFAULT_DERIVATION_PATH.to_owned(),
        };
        match check_path(path_str.as_str()) {
            Ok(_) => {},
            Err(e) => return Err(e),
        }
        let timeout: Timeout = if config.confirm_pubkey_on_device || config.auto_open_app {
            config.signing_timeout
        } else {
            fast_command_timeout()
        };
        let command = DeviceCommand::Connect {
            path_str: path_str.clone(),
            confirm_pubkey_on_device: config.confirm_pubkey_on_device,
            host_device_path: config.host_device_path,
            auto_open_app: config.auto_open_app,
        };
        match request_on(health, timeout, command) {
            Ok(request) => Ok(
                ConnectRequest {
                    request,
                    pending: PendingSigner { path_str, signing_timeout: config.signing_timeout },
                },
            ),
            Err(e) => Err(e),
        }
    }

    /// The timeout this signer applies to commands that wait on a button press.
    pub fn signing_timeout(&self) -> (timeout: Timeout)
        ensures
            timeout == self@.signing_timeout,
    {
        self.signing_timeout
    }

    /// Is a Ledger attached, whether or not it is usable right now?
    ///
    /// Answers without requiring the device to be unlocked or the Solana app to
    /// be open, so a caller can tell "no hardware" apart from "hardware present
    /// but not ready". A device thread that is stuck on an earlier command cannot
    /// answer this either, and is not waited for.
    pub fn is_attached(health: &mut ActorHealth) -> (probe: Probe)
        ensures
            probe@ == probe_start(CommandView::IsAttached, *old(health)),
            *final(health) == old(health).after_issued(),
    {
        probe_on(health, DeviceCommand::IsAttached)
    }
}

/// A copy of `bytes`.
fn copied(bytes: &[u8]) -> (copy: Vec<u8>)
    ensures
        copy@ == bytes@,
{
    let mut copy: Vec<u8> = Vec::with_capacity(bytes.len());
    copy.extend_from_slice(bytes);
    assert(copy@ =~= bytes@);
    copy
}

impl SolanaSigner for LedgerSigner {
    open spec fn key(&self) -> Seq<u8> {
        self@.pubkey
    }

    /// A message is signed as a Solana **off-chain message**: the device signs
    /// the envelope around it, and that is what the signature covers.
    open spec fn message_plan(&self, message: Seq<u8>) -> Result<SigningView, ErrorView> {
        if signable(message) {
            let wrapped = envelope(self@.pubkey, message);
            Ok(
                SigningView {
                    request: RequestView {
                        command: CommandView::SignOffchainMessage {
                            path: self@.path,
                            message: wrapped,
                        },
                        timeout: self@.signing_timeout,
                    },
                    pubkey: self@.pubkey,
                    covered: wrapped,
                },
            )
        } else {
            Err(refusal(message))
        }
    }

    /// A transaction message goes to the device as it is, and the signature
    /// covers exactly those bytes.
    open spec fn transaction_plan(&self, message: Seq<u8>) -> Result<SigningView, ErrorView> {
        Ok(
            SigningView {
                request: RequestView {
                    command: CommandView::SignTransactionMessage { path: self@.path, message },
                    timeout: self@.signing_timeout,
                },
                pubkey: self@.pubkey,
                covered: message,
            },
        )
    }

    /// A Ledger cannot sign arbitrary bytes as they are.
    open spec fn signs_transactions_apart(&self) -> bool {
        true
    }

    open spec fn availability_command(&self) -> CommandView {
        CommandView::IsAvailable { path: self@.path }
    }

    fn pubkey(&self) -> (key: Pubkey) {
        self.pubkey
    }

    /// Sign `tx` on the device, in place.
    ///
    /// The serialized transaction *message* goes to the Solana app's
    /// transaction-parsing APDU, which is the only way a Ledger will sign a
    /// transaction.
    fn sign_transaction(&self, tx: &VersionedTransaction, health: &mut ActorHealth) -> (r: Result<
        SigningRequest,
        SignerError,
    >)
        ensures
            r matches Ok(signing) ==> path_fault(path_sent(signing@.plan.request.command)) is None,
    {
        self.sign_transaction_message(tx.message.as_slice(), health)
    }

    /// Sign `message` as a Solana **off-chain message**.
    ///
    /// A hardware wallet cannot raw-ed25519-sign arbitrary bytes: the signature
    /// covers the **envelope** around `message`, not `message` itself. Rebuild the
    /// same bytes with [`ledger_offchain_envelope`] to verify.
    fn sign_message(&self, message: &[u8], health: &mut ActorHealth) -> (r: Result<
        SigningRequest,
        SignerError,
    >)
        ensures
            !old(health).wedged() ==> (r is Ok <==> 0 < message@.len() <= 1130 && valid_utf8(
                message@,
            )),
            r matches Ok(signing) ==> (
            signing.request.command matches DeviceCommand::SignOffchainMessage {
                path_str,
                message: sent,
            } && {
                &&& path_str@ == self@.path
                &&& sent@ == envelope(self@.pubkey, message@)
                &&& signing.check.covered@ == sent@
                &&& signing.check.pubkey@ == self@.pubkey
            }),
            r matches Ok(signing) ==> path_fault(path_sent(signing@.plan.request.command)) is None,
    {
        proof {
            use_type_invariant(self);
        }
        let serialized: Vec<u8> = match ledger_offchain_envelope(&self.pubkey, message) {
            Ok(bytes) => bytes,
            Err(e) => return Err(e),
        };
        let covered = copied(serialized.as_slice());
        let command = DeviceCommand::SignOffchainMessage {
            path_str: self.path_str.clone(),
            message: serialized,
        };
        match request_on(health, self.signing_timeout, command) {
            Ok(request) => Ok(
                SigningRequest { request, check: SignatureCheck { pubkey: self.pubkey, covered } },
            ),
            Err(e) => Err(e),
        }
    }

    fn sign_transaction_message(&self, message: &[u8], health: &mut ActorHealth) -> (r: Result<
        SigningRequest,
        SignerError,
    >)
        ensures
            signing_view(r) == gated(self.transaction_plan(message@), *old(health)),
            *final(health) == gated_health(self.transaction_plan(message@), *old(health)),
            r is Ok <==> !old(health).wedged(),
            r matches Ok(signing) ==> (
            signing.request.command matches DeviceCommand::SignTransactionMessage {
                path_str,
                message: sent,
            } && {
                &&& path_str@ == self@.path
                &&& sent@ == message@
                &&& signing.check.covered@ == message@
                &&& signing.check.pubkey@ == self@.pubkey
            }),
            r matches Ok(signing) ==> path_fault(path_sent(signing@.plan.request.command)) is None,
    {
        proof {
            use_type_invariant(self);
        }
        let command = DeviceCommand::SignTransactionMessage {
            path_str: self.path_str.clone(),
            message: copied(message),
        };
        match request_on(health, self.signing_timeout, command) {
            Ok(request) => Ok(
                SigningRequest {
                    request,
                    check: SignatureCheck { pubkey: self.pubkey, covered: copied(message) },
                },
            ),
            Err(e) => Err(e),
        }
    }

    /// Liveness probe. Never waits on the user, and reports `false` rather than
    /// blocking when the device thread is wedged.
    fn is_available(&self, health: &mut ActorHealth) -> (probe: Probe)
        ensures
            probe@ matches ProbeView::Ask(request) ==> path_fault(path_sent(request.plan.command))
                is None,
    {
        proof {
            use_type_invariant(self);
        }
        probe_on(health, DeviceCommand::IsAvailable { path_str: self.path_str.clone() })
    }
}

/// The message bytes that a signing command hands to the device.
pub open spec fn bytes_sent(command: CommandView) -> Seq<u8> {
    match command {
        CommandView::SignTransactionMessage { message, .. } => message,
        CommandView::SignOffchainMessage { message, .. } => message,
        _ => seq![],
    }
}

/// The derivation path that a command hands to the device thread.
pub open spec fn path_sent(command: CommandView) -> Seq<char> {
    match command {
        CommandView::Connect { path, .. } => path,
        CommandView::SignTransactionMessage { path, .. } => path,
        CommandView::SignOffchainMessage { path, .. } => path,
        CommandView::IsAvailable { path } => path,
        CommandView::IsAttached => seq![],
    }
}

/// A signer's path is validated when it connects, so none of its later commands
/// meets a path error on the device thread: with a session each one reaches the
/// device, and without one it says to connect first.
pub proof fn a_validated_path_never_fails_again<W>(
    config: ConfigView,
    signer: LedgerSigner,
    message: Seq<u8>,
    session: Option<SessionView<W>>,
)
    requires
        config.connect_plan() matches Ok(plan) && plan.path == signer@.path,
    ensures
        path_fault(signer@.path) is None,
        signer.transaction_plan(message) matches Ok(plan) && begin(session, plan.request.command)
            == turn(
            session,
            if session is Some {
                StepView::SignTransaction { path: signer@.path, message }
            } else {
                StepView::Reply(ReplyView::Signed(Err(no_session())))
            },
        ),
        signer.message_plan(message) matches Ok(plan) ==> begin(session, plan.request.command)
            == turn(
            session,
            if session is Some {
                StepView::SignOffchain {
                    path: signer@.path,
                    message: envelope(signer.key(), message),
                }
            } else {
                StepView::Reply(ReplyView::Signed(Err(no_session())))
            },
        ),
        begin(session, signer.availability_command()) == turn(
            session,
            if session is Some {
                StepView::ProbeCached { path: signer@.path }
            } else {
                StepView::Reply(ReplyView::Probed(false))
            },
        ),
{
}

/// On both signing paths, what a reply is checked against is what was sent: the
/// bytes that the device was given, and the key that this signer cached.
pub proof fn what_is_checked_is_what_was_sent(signer: LedgerSigner, message: Seq<u8>)
    ensures
        signer.message_plan(message) matches Ok(plan) ==> plan.covered == bytes_sent(
            plan.request.command,
        ) && plan.pubkey == signer.key(),
        signer.transaction_plan(message) matches Ok(plan) ==> plan.covered == bytes_sent(
            plan.request.command,
        ) && plan.pubkey == signer.key(),
{
}

/// A transaction is signed as it is; a message never is, only the envelope
/// around it.
pub proof fn a_transaction_is_signed_raw_and_a_message_is_not(
    signer: LedgerSigner,
    message: Seq<u8>,
)
    ensures
        signer.transaction_plan(message) matches Ok(plan) && plan.covered == message
            && plan.request.command is SignTransactionMessage,
        signer.message_plan(message) matches Ok(plan) ==> plan.covered != message && plan.covered
            == envelope(signer.key(), message) && plan.request.command is SignOffchainMessage,
{
    pubkey_is_32_bytes(signer.pubkey);
    envelope_is_not_the_payload(signer.key(), message);
}

/// Every command of a signer is bounded: by the signing timeout where it waits on
/// a button press, by the fast one where it cannot involve the user.
pub proof fn every_wait_is_bounded(
    signer: LedgerSigner,
    config: ConfigView,
    message: Seq<u8>,
    health: ActorHealth,
)
    ensures
        signer.message_plan(message) matches Ok(plan) ==> plan.request.timeout
            == signer@.signing_timeout,
        signer.transaction_plan(message) matches Ok(plan) ==> plan.request.timeout
            == signer@.signing_timeout,
        probe_start(signer.availability_command(), health) matches ProbeView::Ask(request)
            ==> request.plan.timeout == Timeout::seconds(FAST_COMMAND_TIMEOUT),
        config.connect_plan() matches Ok(plan) ==> plan.request.timeout == (if config.confirm
            || config.auto_open {
            config.signing_timeout
        } else {
            Timeout::seconds(FAST_COMMAND_TIMEOUT)
        }),
{
}

/// While the device thread is wedged, nobody is made to wait: every signing and
/// every connect is refused and every probe is answered on the spot.
pub proof fn nobody_waits_behind_a_wedged_thread(
    signer: LedgerSigner,
    config: ConfigView,
    message: Seq<u8>,
    health: ActorHealth,
)
    requires
        health.wedged(),
    ensures
        gated(signer.message_plan(message), health) is Err,
        gated(signer.transaction_plan(message), health) == Err::<Issued<SigningView>, ErrorView>(
            still_blocked(),
        ),
        gated(config.connect_plan(), health) is Err,
        probe_start(signer.availability_command(), health) == ProbeView::Answered(false),
        probe_start(CommandView::IsAttached, health) == ProbeView::Answered(false),
{
}

/// A configuration is all of its fields, and a request to connect is its command,
/// its timeout, its ticket and the signer that it completes.
pub proof fn a_config_is_all_of_its_fields(
    config: LedgerConfig,
    connect: ConnectRequest,
    text: &str,
    e: SignerError,
)
    ensures
        config@.path == (match config.derivation_path {
            Some(path) => Some(path@),
            None => None,
        }),
        config@.confirm == config.confirm_pubkey_on_device,
        config@.host == (match config.host_device_path {
            Some(host) => Some(host@),
            None => None,
        }),
        config@.signing_timeout == config.signing_timeout,
        config@.auto_open == config.auto_open_app,
        connect@.plan.request.command == connect.request.command@,
        connect@.plan.request.timeout == connect.request.timeout,
        connect@.plan.path == connect.pending@.path,
        connect@.plan.signing_timeout == connect.pending@.signing_timeout,
        connect@.ticket == connect.request.ticket,
        connect_view(Ok(connect)) == Ok::<Issued<ConnectView>, ErrorView>(connect@),
        connect_view(Err(e)) == Err::<Issued<ConnectView>, ErrorView>(e@),
        str_view(Some(text)) == Some(text@),
        str_view(None) == None::<Seq<char>>,
{
}

/// What a connect asks of the device thread is what its configuration says, field
/// by field, at the path given or else the default one; and it waits for a human
/// exactly where a confirmation or a launch may involve one. A path that does not
/// parse is the only thing that stops it.
pub proof fn a_connect_asks_for_what_its_config_says(config: ConfigView)
    ensures
        ({
            let path = match config.path {
                Some(path) => path,
                None => "m/44'/501'/0'"@,
            };
            &&& path_fault(path) matches Some(text) ==> config.connect_plan() == Err::<
                ConnectView,
                ErrorView,
            >(
                ErrorView {
                    kind: ErrorKind::ConfigError,
                    detail: "invalid derivation path: "@ + text,
                },
            )
            &&& path_fault(path) is None ==> (config.connect_plan() matches Ok(plan) && {
                &&& plan.request.command == (CommandView::Connect {
                    path,
                    confirm: config.confirm,
                    host: config.host,
                    auto_open: config.auto_open,
                })
                &&& plan.path == path
                &&& plan.signing_timeout == config.signing_timeout
                &&& config.confirm ==> plan.request.timeout == config.signing_timeout
                &&& config.auto_open ==> plan.request.timeout == config.signing_timeout
                &&& !config.confirm && !config.auto_open ==> plan.request.timeout
                    == Timeout::seconds(10)
            })
        }),
{
}

/// The plain connect asks for exactly what its three arguments say: the device at
/// the host path given, the confirmation that was asked for, the path given or else
/// the default one. Beyond them it allows the launch, and waits five minutes.
pub proof fn a_plain_connect_asks_for_what_its_arguments_say(
    path: Option<Seq<char>>,
    confirm: bool,
    host: Option<Seq<char>>,
)
    ensures
        plain_config(path, confirm, host).connect_plan() matches Ok(plan) ==> {
            &&& plan.request.command == (CommandView::Connect {
                path: if path is Some {
                    path->0
                } else {
                    "m/44'/501'/0'"@
                },
                confirm,
                host,
                auto_open: true,
            })
            &&& plan.request.timeout == Timeout::seconds(300)
            &&& plan.signing_timeout == Timeout::seconds(300)
        },
        plain_config(path, confirm, host).path == path,
        plain_config(path, confirm, host).confirm == confirm,
        plain_config(path, confirm, host).host == host,
        plain_config(path, confirm, host).auto_open,
        plain_config(path, confirm, host).signing_timeout == Timeout::seconds(300),
{
}

/// A signer refuses no message that can be signed: any text of one to 1130 bytes is
/// planned, printable or not, and nothing else is. What is sent and what is checked
/// are the envelope that names this signer and carries the message.
pub proof fn every_signable_message_is_planned(signer: LedgerSigner, message: Seq<u8>)
    ensures
        signer.message_plan(message) is Ok <==> 0 < message.len() <= 1130 && valid_utf8(message),
        signer.message_plan(message) matches Ok(plan) ==> {
            &&& plan.request.command == (CommandView::SignOffchainMessage {
                path: signer@.path,
                message: plan.covered,
            })
            &&& plan.request.timeout == signer@.signing_timeout
            &&& plan.pubkey == signer@.pubkey
            &&& plan.covered.len() == 85 + message.len()
            &&& plan.covered.subrange(51, 83) == signer@.pubkey
            &&& plan.covered.skip(85) == message
            &&& plan.covered == envelope(signer@.pubkey, message)
        },
        signer.message_plan(message) matches Err(e) ==> e.kind is ConfigError && e == refusal(
            message,
        ),
{
    pubkey_is_32_bytes(signer.pubkey);
    if signable(message) {
        envelope_layout(signer.key(), message);
    }
}

/// A signer refuses no transaction: whatever its message, it is planned as it is,
/// for this signer's path and key; and a signer asks after its own path.
pub proof fn every_transaction_is_planned_as_it_is(signer: LedgerSigner, message: Seq<u8>)
    ensures
        signer.transaction_plan(message) matches Ok(plan) && {
            &&& plan.request.command == (CommandView::SignTransactionMessage {
                path: signer@.path,
                message,
            })
            &&& plan.request.timeout == signer@.signing_timeout
            &&& plan.pubkey == signer@.pubkey
            &&& plan.covered == message
        },
        signer.availability_command() == (CommandView::IsAvailable { path: signer@.path }),
        signer.key() == signer@.pubkey,
        signer.signs_transactions_apart(),
{
}

} // verus!
