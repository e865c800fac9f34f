//! The signer's behaviour, one promise at a time.

use std::sync::mpsc::{self, Receiver, RecvTimeoutError, Sender};
use std::time::{Duration, Instant};

use solana_ledger::actor::{DeviceActor, Step};
use solana_ledger::command::{DeviceCommand, DeviceReply};
use solana_ledger::derivation::{check_path, DEFAULT_DERIVATION_PATH};
use solana_ledger::envelope::{ledger_offchain_envelope, MAX_OFFCHAIN_PAYLOAD_LEN};
use solana_ledger::error::SignerError;
use solana_ledger::health::{
    check_actor_responsive, mark_completed, ActorHealth, NOT_ABANDONED,
};
use solana_ledger::keys::{signature_bytes, verify_or_reject, Pubkey, Signature};
use solana_ledger::request::{request_on, settle_request, Delivery, DeviceRequest};
use solana_ledger::selection::ScanOutcome;
use solana_ledger::signer::{LedgerConfig, LedgerSigner};
use solana_ledger::timeout::{default_signing_timeout, fast_command_timeout, Timeout};
use solana_ledger::traits::SolanaSigner;
use solana_ledger::transaction::VersionedTransaction;
use solana_ledger::wallet_error::{map_rw_err, WalletError, STATUS_USER_CANCEL};
use solana_keypair::Keypair;
use solana_signer::Signer;

type Envelope = (DeviceCommand, Sender<Result<[u8; 32], SignerError>>);

/// A device thread that accepts commands and never answers, which is what a
/// Ledger left on a confirm screen looks like from the host.
fn wedged_actor() -> (Sender<Envelope>, Receiver<Envelope>) {
    mpsc::channel()
}

fn connect_cmd() -> DeviceCommand {
    DeviceCommand::Connect {
        path_str: DEFAULT_DERIVATION_PATH.to_string(),
        confirm_pubkey_on_device: false,
        host_device_path: None,
        auto_open_app: false,
    }
}

/// Sends the command and really waits for its reply.
fn exchange(
    cmd_tx: &Sender<Envelope>,
    request: DeviceRequest,
) -> Delivery<Result<[u8; 32], SignerError>> {
    let timeout = Duration::new(request.timeout.as_secs(), request.timeout.subsec_nanos());
    let (reply_tx, reply_rx) = mpsc::channel();
    if cmd_tx.send((request.command, reply_tx)).is_err() {
        return Delivery::NotSent;
    }
    match reply_rx.recv_timeout(timeout) {
        Ok(reply) => Delivery::Replied(reply),
        Err(RecvTimeoutError::Timeout) => Delivery::TimedOut,
        Err(RecvTimeoutError::Disconnected) => Delivery::Disconnected,
    }
}

fn ask(
    health: &mut ActorHealth,
    cmd_tx: &Sender<Envelope>,
    timeout: Timeout,
) -> Result<[u8; 32], SignerError> {
    let request = request_on(health, timeout, connect_cmd())?;
    let ticket = request.ticket;
    let delivery = exchange(cmd_tx, request);
    settle_request(health, timeout, ticket, delivery)
}

#[test]
fn a_command_times_out_instead_of_blocking_forever() {
    let mut health = ActorHealth::new();
    // The receiver is held so `send` succeeds, but nothing ever serves it.
    let (tx, _rx) = wedged_actor();
    let start = Instant::now();
    let err = ask(&mut health, &tx, Timeout::from_millis(200)).unwrap_err();
    assert!(start.elapsed() < Duration::from_secs(5), "must not hang");
    assert!(matches!(err, SignerError::NotAvailable(_)));
    assert!(
        err.detail_string().contains("did not respond"),
        "got: {}",
        err.detail_string()
    );
}

#[test]
fn a_wedged_actor_fails_fast_instead_of_queueing_behind_it() {
    let mut health = ActorHealth::new();
    let (tx, _rx) = wedged_actor();
    // First caller gives up after its timeout.
    let _ = ask(&mut health, &tx, Timeout::from_millis(200));
    // The second must not wait its own full timeout.
    let start = Instant::now();
    let err = ask(&mut health, &tx, Timeout::from_secs(30)).unwrap_err();
    assert!(
        start.elapsed() < Duration::from_secs(1),
        "second call waited {:?}; it should have failed fast",
        start.elapsed()
    );
    assert!(
        err.detail_string().contains("still blocked"),
        "got: {}",
        err.detail_string()
    );
}

#[test]
fn the_actor_recovers_once_it_completes_a_command() {
    let mut health = ActorHealth::new();
    let (tx, _rx) = wedged_actor();
    let _ = ask(&mut health, &tx, Timeout::from_millis(200));
    assert!(check_actor_responsive(&mut health).is_err(), "should read as wedged");
    // The user finally pressed the button: the device thread finishes the stuck
    // command. Normal service must resume without anyone reconnecting.
    mark_completed(&mut health);
    assert!(check_actor_responsive(&mut health).is_ok(), "should have recovered");
    assert_eq!(
        health.abandoned_at,
        u64::MAX,
        "the wedge mark must be cleared, not merely stepped over"
    );
    assert_eq!(NOT_ABANDONED, u64::MAX);
}

#[test]
fn an_abandoned_reply_drops_the_cached_session() {
    let mut health = ActorHealth::new();
    // A caller that timed out has dropped its receiver. The device thread notices
    // when it finally answers, and must discard the session.
    let (reply_tx, reply_rx) = mpsc::channel::<bool>();
    drop(reply_rx);
    let mut actor = connected_actor(None);
    assert!(actor.cached_wallet().is_some());
    let before = health.completed;
    actor.respond(&mut health, reply_tx.send(true).is_ok());
    assert!(actor.cached_wallet().is_none(), "session must be dropped");
    assert_eq!(
        health.completed,
        before + 1,
        "completion must be counted even when the caller gave up"
    );
}

/// A device thread with a live session on wallet 7.
fn connected_actor(host: Option<&str>) -> DeviceActor<u32> {
    let mut actor = DeviceActor::new();
    let command = DeviceCommand::Connect {
        path_str: DEFAULT_DERIVATION_PATH.to_string(),
        confirm_pubkey_on_device: false,
        host_device_path: host.map(str::to_string),
        auto_open_app: false,
    };
    let Step::Scan { job, attempt } = actor.begin(command) else {
        panic!("a fresh connect enumerates");
    };
    let handle = solana_ledger::selection::LedgerHandle {
        wallet: 7u32,
        hid_path: host.map(str::to_string),
        pretty_path: "usb://ledger/x".to_string(),
    };
    let outcome = ScanOutcome::Found {
        count: 1,
        devices: vec![solana_ledger::selection::DetectedDevice::Ledger(handle)],
    };
    let Step::ReadOpened { job, attempt, wallet } = actor.scanned(job, attempt, outcome) else {
        panic!("the only Ledger is opened");
    };
    let step = actor.opened_read(job, attempt, wallet, Ok([1u8; 32]));
    assert!(matches!(step, Step::Reply(DeviceReply::Connected(Ok(k))) if k == [1u8; 32]));
    actor
}

#[test]
fn the_two_timeout_tiers_are_ordered_and_bounded() {
    assert!(fast_command_timeout() < default_signing_timeout());
    assert!(fast_command_timeout() >= Timeout::from_secs(5));
    assert!(default_signing_timeout() <= Timeout::from_secs(600));
    assert_eq!(
        LedgerConfig::default().signing_timeout,
        default_signing_timeout()
    );
}

#[test]
fn auto_open_app_defaults_on_and_is_overridable() {
    assert!(LedgerConfig::default().auto_open_app);
    let quiet = LedgerConfig {
        auto_open_app: false,
        ..LedgerConfig::default()
    };
    assert!(!quiet.auto_open_app);
}

/// Two distinct keys, standing in for two physically different Ledgers.
fn device_key(seed: u8) -> (Keypair, Pubkey) {
    let kp = solana_keypair::keypair_from_seed(&[seed; 32]).expect("valid seed");
    let pubkey = Pubkey::from(kp.pubkey().to_bytes());
    (kp, pubkey)
}

fn sign(device: &Keypair, message: &[u8]) -> Signature {
    Signature::from(signature_bytes(device.sign_message(message).as_ref()))
}

fn envelope_of(signer: &Pubkey, payload: &[u8]) -> Vec<u8> {
    ledger_offchain_envelope(signer, payload).ok().expect("payload is signable")
}

#[test]
fn a_swapped_device_is_caught_as_a_verification_failure() {
    let (device_a, pubkey_a) = device_key(1);
    let (device_b, pubkey_b) = device_key(2);
    assert_ne!(pubkey_a, pubkey_b);

    let envelope = envelope_of(&pubkey_a, b"transfer 1 SOL");
    // The swapped-in device signs the bytes we sent, with its own key.
    let from_b = sign(&device_b, &envelope);

    let err = verify_or_reject(&from_b, &pubkey_a, &envelope)
        .expect_err("a signature from a swapped device must never be attached");
    assert!(matches!(err, SignerError::SigningFailed(_)));

    // Control: the device we actually connected to is accepted.
    let from_a = sign(&device_a, &envelope);
    assert!(verify_or_reject(&from_a, &pubkey_a, &envelope).is_ok());
}

#[test]
fn a_corrupted_signature_is_rejected_on_the_offchain_path() {
    let (device, pubkey) = device_key(3);
    let envelope = envelope_of(&pubkey, b"hello");
    let good = sign(&device, &envelope);
    assert!(verify_or_reject(&good, &pubkey, &envelope).is_ok());

    let mut raw = signature_bytes(good.as_bytes());
    raw[0] ^= 0x01;
    let corrupted = Signature::from(raw);
    assert!(
        verify_or_reject(&corrupted, &pubkey, &envelope).is_err(),
        "a single flipped bit must fail verification"
    );
}

/// A transaction that only `device` has to sign.
fn test_transaction(device: &Keypair) -> VersionedTransaction {
    let message = solana_message::VersionedMessage::Legacy(solana_message::Message::new(
        &[],
        Some(&device.pubkey()),
    ));
    VersionedTransaction {
        message: message.serialize(),
        required_signers: vec![Pubkey::from(device.pubkey().to_bytes())],
        signatures: vec![Signature::from([0u8; 64])],
    }
}

#[test]
fn a_corrupted_signature_is_rejected_on_the_transaction_path() {
    let (device, pubkey) = device_key(4);
    let tx = test_transaction(&device);
    let message = tx.message;
    let good = sign(&device, &message);
    assert!(verify_or_reject(&good, &pubkey, &message).is_ok());

    let mut raw = signature_bytes(good.as_bytes());
    raw[63] ^= 0x80;
    let corrupted = Signature::from(raw);
    assert!(
        verify_or_reject(&corrupted, &pubkey, &message).is_err(),
        "a single flipped bit must fail verification"
    );
}

fn signer_for(pubkey: &Pubkey) -> LedgerSigner {
    let connect = LedgerSigner::connect_with(LedgerConfig::default(), &mut ActorHealth::new());
    let pending = connect.ok().expect("the default config is valid").pending;
    pending.finish(Ok(pubkey.to_bytes())).ok().expect("a pubkey completes the signer")
}

#[test]
fn both_signing_paths_verify_before_returning() {
    // The tests above prove the predicate rejects bad signatures. This one holds
    // both signing paths to it, from the request to the result.
    let (device, pubkey) = device_key(5);
    let (other, _) = device_key(6);
    let signer = signer_for(&pubkey);
    let mut health = ActorHealth::new();

    let signing = signer.sign_message(b"hello", &mut health).ok().expect("signable");
    let DeviceCommand::SignOffchainMessage { message, .. } = signing.request.command else {
        panic!("a message goes to the off-chain APDU");
    };
    let good = signature_bytes(sign(&device, &message).as_bytes());
    let bad = signature_bytes(sign(&other, &message).as_bytes());
    assert_eq!(signing.check.finish(Ok(Ok(good))).ok(), Some(Signature::from(good)));
    assert!(matches!(
        signing.check.finish(Ok(Ok(bad))),
        Err(SignerError::SigningFailed(_))
    ));

    let mut tx = test_transaction(&device);
    let signing = signer.sign_transaction(&tx, &mut health).ok().expect("not wedged");
    let DeviceCommand::SignTransactionMessage { message, .. } = signing.request.command else {
        panic!("a transaction goes to the transaction-parsing APDU");
    };
    assert_eq!(message, tx.message);
    let good = signature_bytes(sign(&device, &message).as_bytes());
    let bad = signature_bytes(sign(&other, &message).as_bytes());
    assert!(matches!(
        signing.check.finish_transaction(&mut tx, Ok(Ok(bad))),
        Err(SignerError::SigningFailed(_))
    ));
    assert_eq!(tx.signatures, vec![Signature::from([0u8; 64])], "nothing is attached");
    let signature = signing.check.finish_transaction(&mut tx, Ok(Ok(good))).ok();
    assert_eq!(signature, Some(Signature::from(good)));
    assert_eq!(tx.signatures, vec![Signature::from(good)]);
}

#[test]
fn default_derivation_path_is_solana_bip44() {
    let path = check_path(DEFAULT_DERIVATION_PATH);
    assert!(path.is_ok(), "default derivation path must parse");
}

#[test]
fn signature_bytes_roundtrips() {
    let raw = [7u8; 64];
    let sig = Signature::from(raw);
    assert_eq!(signature_bytes(sig.as_bytes()), raw);
}

#[test]
fn user_cancel_maps_to_user_rejected() {
    let err = map_rw_err(WalletError::UserCancel);
    assert!(matches!(err, SignerError::UserRejected(_)));
}

#[test]
fn no_device_maps_to_not_available() {
    let err = map_rw_err(WalletError::NoDeviceFound);
    assert!(matches!(err, SignerError::NotAvailable(_)));
}

#[test]
fn a_decline_on_the_device_maps_to_user_rejected() {
    let err = map_rw_err(WalletError::Ledger {
        status: STATUS_USER_CANCEL,
        text: "Ledger operation rejected by the user".to_string(),
    });
    assert!(matches!(err, SignerError::UserRejected(_)));
    let err = map_rw_err(WalletError::Ledger {
        status: 0x6700,
        text: "Solana app not open on Ledger device".to_string(),
    });
    assert!(matches!(err, SignerError::SigningFailed(_)));
    assert_eq!(
        err.detail_string(),
        "Ledger device error: Solana app not open on Ledger device"
    );
}

#[test]
fn offchain_envelope_matches_the_ledger_app_layout() {
    let signer = Pubkey::from([7u8; 32]);
    let payload = b"hello";
    let env = envelope_of(&signer, payload);

    assert_eq!(&env[0..16], b"\xffsolana offchain", "signing domain");
    assert_eq!(env[16], 0, "header version");
    assert_eq!(&env[17..49], &[0u8; 32], "application domain: not provided");
    assert_eq!(env[49], 0, "format 0 = RestrictedAscii for printable ASCII");
    assert_eq!(env[50], 1, "exactly one signer");
    assert_eq!(&env[51..83], &[7u8; 32], "the signer's pubkey");
    assert_eq!(&env[83..85], &5u16.to_le_bytes(), "length, little-endian");
    assert_eq!(&env[85..], payload, "message body");
    assert_eq!(env.len(), 85 + payload.len());
}

#[test]
fn offchain_envelope_picks_the_format_from_the_payload() {
    let signer = Pubkey::from([1u8; 32]);
    // Printable ASCII -> RestrictedAscii.
    let ascii = envelope_of(&signer, b"plain text");
    assert_eq!(ascii[49], 0);
    // Valid UTF-8 that is not printable ASCII -> LimitedUtf8.
    let utf8 = envelope_of(&signer, "café ☕".as_bytes());
    assert_eq!(utf8[49], 1);
    // Not UTF-8 at all: refused locally rather than at the device.
    let err = ledger_offchain_envelope(&signer, &[0xff, 0xfe]).unwrap_err();
    assert!(matches!(err, SignerError::ConfigError(_)));
}

#[test]
fn offchain_envelope_rejects_payloads_the_device_would_reject() {
    let signer = Pubkey::from([2u8; 32]);
    // The app rejects `header.length == 0`.
    assert!(ledger_offchain_envelope(&signer, b"").is_err());
    // At the limit it is accepted; one byte over it is not.
    let at_limit = vec![b'a'; MAX_OFFCHAIN_PAYLOAD_LEN];
    assert!(ledger_offchain_envelope(&signer, &at_limit).is_ok());
    let over = vec![b'a'; MAX_OFFCHAIN_PAYLOAD_LEN + 1];
    assert!(ledger_offchain_envelope(&signer, &over).is_err());
    // And the whole envelope still fits what remote-wallet will send.
    assert_eq!(envelope_of(&signer, &at_limit).len(), 1215);
}

#[test]
fn locked_device_maps_to_not_available_and_says_so() {
    let err = map_rw_err(WalletError::Protocol("Unknown error".to_string()));
    assert!(matches!(err, SignerError::NotAvailable(_)));
    assert!(
        err.detail_string().contains("locked"),
        "a locked device must be described as locked, got: {}",
        err.detail_string()
    );
}

#[test]
fn unclassified_protocol_error_also_names_the_busy_device() {
    let err = map_rw_err(WalletError::Protocol("Unknown error".to_string()));
    let detail = err.detail_string();
    assert!(
        detail.contains("another application"),
        "a busy device must be offered as a cause, got: {detail}"
    );
    assert!(
        detail.contains("Ledger Live"),
        "the remedy has to name the usual culprit, got: {detail}"
    );
}

#[test]
fn hid_error_points_at_a_busy_device_not_just_the_cable() {
    let err = map_rw_err(WalletError::Hid("device open failed".to_string()));
    assert!(matches!(err, SignerError::NotAvailable(_)));
    let detail = err.detail_string();
    assert!(
        detail.contains("another application"),
        "a held HID handle must be offered as a cause, got: {detail}"
    );
}

#[test]
fn connect_without_device_fails_cleanly() {
    // With no usable Ledger, connect returns an error cleanly and never hangs or
    // panics.
    let mut health = ActorHealth::new();
    let connect = match LedgerSigner::connect(None, false, None, &mut health) {
        Ok(connect) => connect,
        Err(_) => panic!("the default path is valid and nothing is wedged"),
    };
    let mut actor: DeviceActor<u32> = DeviceActor::new();
    let Step::Scan { job, attempt } = actor.begin(connect.request.command) else {
        panic!("a fresh connect enumerates");
    };
    let nothing = ScanOutcome::Found { count: 0, devices: vec![] };
    let Step::LaunchApp { job, error } = actor.scanned(job, attempt, nothing) else {
        panic!("auto-launch is on by default");
    };
    let unreachable_dashboard = Err(SignerError::NotAvailable("no dashboard".to_string()));
    let Step::Reply(DeviceReply::Connected(reply)) =
        actor.launched(job, error, unreachable_dashboard)
    else {
        panic!("the connect ends there");
    };
    let err = connect.pending.finish(reply).err().expect("no device, no signer");
    assert!(matches!(err, SignerError::NotAvailable(_)));
    assert_eq!(
        err.detail_string(),
        "no Ledger device found (plug in, unlock, and open the Solana app)"
    );
}
