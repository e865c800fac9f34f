//! From a signer's request to its signature.

use solana_keypair::Keypair;
use solana_ledger::command::DeviceCommand;
use solana_ledger::derivation::{accept_parsed, check_path, DEFAULT_DERIVATION_PATH};
use solana_ledger::envelope::ledger_offchain_envelope;
use solana_ledger::error::SignerError;
use solana_ledger::health::{mark_abandoned, mark_completed, ActorHealth, NOT_ABANDONED};
use solana_ledger::keys::{accept_verified, signature_bytes, verify_or_reject, Pubkey, Signature};
use solana_ledger::request::{
    probe_on, request_on, settle_probe, settle_request, Delivery, Probe,
};
use solana_ledger::signer::{ConnectRequest, LedgerConfig, LedgerSigner};
use solana_ledger::timeout::{default_signing_timeout, fast_command_timeout, Timeout};
use solana_ledger::traits::{SignatureCheck, SolanaSigner};
use solana_ledger::transaction::{
    add_signature_to_transaction, classify_signed_transaction, SignTransactionResult,
    VersionedTransaction,
};
use solana_signer::Signer;

fn keypair(seed: u8) -> (Keypair, Pubkey) {
    let kp = solana_keypair::keypair_from_seed(&[seed; 32]).expect("valid seed");
    let pubkey = Pubkey::from(kp.pubkey().to_bytes());
    (kp, pubkey)
}

fn raw_signature(kp: &Keypair, message: &[u8]) -> [u8; 64] {
    signature_bytes(kp.sign_message(message).as_ref())
}

fn connect_request(config: LedgerConfig) -> ConnectRequest {
    LedgerSigner::connect_with(config, &mut ActorHealth::new()).ok().expect("a valid config")
}

fn signer(pubkey: &Pubkey, signing_timeout: Timeout) -> LedgerSigner {
    let config = LedgerConfig { signing_timeout, ..LedgerConfig::default() };
    let connect = connect_request(config);
    connect.pending.finish(Ok(pubkey.to_bytes())).ok().expect("a pubkey completes the signer")
}

fn wedged() -> ActorHealth {
    let mut health = ActorHealth::new();
    mark_abandoned(&mut health);
    health
}

const STILL_BLOCKED: &str = "the Ledger device thread is still blocked on an earlier command that \
    timed out. Dismiss any prompt left on the device screen, or unplug and replug it, then retry.";

#[test]
fn an_invalid_path_is_a_config_error() {
    let mut health = wedged();
    let err = LedgerSigner::connect(Some("m/44'/501'/oops"), false, None, &mut health)
        .err()
        .expect("not a path");
    assert!(matches!(err, SignerError::ConfigError(_)), "refused before the thread is looked at");
    let why = solana_derivation_path::DerivationPath::from_absolute_path_str("m/44'/501'/oops")
        .unwrap_err();
    assert_eq!(err.detail_string(), format!("invalid derivation path: {why}"));
    assert_eq!(health, wedged());
    assert!(check_path("m/44'/501'/0'/0'").is_ok());
    assert!(check_path("").is_err());
    let err = accept_parsed(Err("why".to_string())).unwrap_err();
    assert_eq!(err.detail_string(), "invalid derivation path: why");
}

#[test]
fn connect_waits_on_a_human_only_where_one_is_involved() {
    let signing_timeout = Timeout::from_secs(42);
    for (confirm, auto_open, expected) in [
        (false, false, fast_command_timeout()),
        (true, false, signing_timeout),
        (false, true, signing_timeout),
        (true, true, signing_timeout),
    ] {
        let connect = connect_request(LedgerConfig {
            derivation_path: Some("m/44'/501'/3'".to_string()),
            confirm_pubkey_on_device: confirm,
            host_device_path: Some("/dev/hidraw3".to_string()),
            signing_timeout,
            auto_open_app: auto_open,
        });
        assert_eq!(connect.request.timeout, expected);
        let DeviceCommand::Connect {
            path_str,
            confirm_pubkey_on_device,
            host_device_path,
            auto_open_app,
        } = connect.request.command
        else {
            panic!("a connect");
        };
        assert_eq!(path_str, "m/44'/501'/3'");
        assert_eq!((confirm_pubkey_on_device, auto_open_app), (confirm, auto_open));
        assert_eq!(host_device_path.as_deref(), Some("/dev/hidraw3"));
        let signer = connect.pending.finish(Ok([1u8; 32])).ok().expect("a pubkey");
        assert_eq!(signer.signing_timeout(), signing_timeout);
    }
}

#[test]
fn the_default_config_is_the_plain_connect() {
    let mut health = ActorHealth::new();
    let plain = LedgerSigner::connect(None, false, None, &mut health).ok().expect("valid");
    let default = connect_request(LedgerConfig::default());
    assert_eq!(plain.request.timeout, default.request.timeout);
    assert_eq!(plain.request.timeout, default_signing_timeout());
    for request in [plain.request, default.request] {
        let DeviceCommand::Connect {
            path_str,
            confirm_pubkey_on_device,
            host_device_path,
            auto_open_app,
        } = request.command
        else {
            panic!("a connect");
        };
        assert_eq!(path_str, DEFAULT_DERIVATION_PATH);
        assert!(!confirm_pubkey_on_device);
        assert_eq!(host_device_path, None);
        assert!(auto_open_app);
    }
}

#[test]
fn a_failed_connect_gives_no_signer() {
    let connect = connect_request(LedgerConfig::default());
    let err = connect
        .pending
        .finish(Err(SignerError::UserRejected("no".to_string())))
        .err()
        .expect("no pubkey, no signer");
    assert!(matches!(err, SignerError::UserRejected(_)));
    assert_eq!(err.detail_string(), "no");
}

#[test]
fn a_connected_signer_has_what_it_was_connected_with() {
    let (_, pubkey) = keypair(1);
    let s = signer(&pubkey, Timeout::from_millis(1500));
    assert_eq!(s.pubkey(), pubkey);
    assert_eq!(s.signing_timeout(), Timeout::from_millis(1500));
}

#[test]
fn a_wedged_thread_refuses_signings_and_answers_probes() {
    let (_, pubkey) = keypair(1);
    let s = signer(&pubkey, Timeout::from_secs(9));
    let mut health = wedged();
    for r in [
        s.sign_message(b"hello", &mut health),
        s.sign_transaction_message(b"tx", &mut health),
    ] {
        let err = r.err().expect("refused");
        assert!(matches!(err, SignerError::NotAvailable(_)));
        assert_eq!(err.detail_string(), STILL_BLOCKED);
    }
    let err = LedgerSigner::connect(None, false, None, &mut health).err().expect("refused");
    assert_eq!(err.detail_string(), STILL_BLOCKED);
    assert!(matches!(s.is_available(&mut health), Probe::Answered(false)));
    assert!(matches!(LedgerSigner::is_attached(&mut health), Probe::Answered(false)));
    // A payload that can never be signed is told so even now.
    let err = s.sign_message(b"", &mut health).err().expect("refused");
    assert!(matches!(err, SignerError::ConfigError(_)));
    assert_eq!(health, wedged(), "looking changes nothing");
    // One finished command, and everything is served again.
    mark_completed(&mut health);
    assert!(s.sign_message(b"hello", &mut health).is_ok());
    assert_eq!(health.abandoned_at, NOT_ABANDONED);
}

#[test]
fn every_wait_of_a_signer_is_bounded() {
    let (_, pubkey) = keypair(1);
    let s = signer(&pubkey, Timeout::from_secs(9));
    let mut health = ActorHealth::new();
    let message = s.sign_message(b"hello", &mut health).ok().expect("signable");
    assert_eq!(message.request.timeout, Timeout::from_secs(9));
    let tx = s.sign_transaction_message(b"tx", &mut health).ok().expect("not wedged");
    assert_eq!(tx.request.timeout, Timeout::from_secs(9));
    let Probe::Ask(request) = s.is_available(&mut health) else {
        panic!("the thread is asked");
    };
    assert_eq!(request.timeout, fast_command_timeout());
    assert!(matches!(request.command, DeviceCommand::IsAvailable { path_str }
        if path_str == DEFAULT_DERIVATION_PATH));
    let Probe::Ask(request) = LedgerSigner::is_attached(&mut health) else {
        panic!("the thread is asked");
    };
    assert_eq!(request.timeout, fast_command_timeout());
    assert!(matches!(request.command, DeviceCommand::IsAttached));
}

#[test]
fn a_message_is_signed_in_its_envelope_and_a_transaction_raw() {
    let (kp, pubkey) = keypair(2);
    let s = signer(&pubkey, Timeout::from_secs(9));
    let mut health = ActorHealth::new();

    let signing = s.sign_message(b"hello", &mut health).ok().expect("signable");
    let envelope = ledger_offchain_envelope(&pubkey, b"hello").ok().expect("signable");
    let DeviceCommand::SignOffchainMessage { path_str, message } = signing.request.command else {
        panic!("the off-chain APDU");
    };
    assert_eq!(path_str, DEFAULT_DERIVATION_PATH);
    assert_eq!(message, envelope);
    assert_eq!(signing.check.covered, envelope);
    assert_eq!(signing.check.pubkey, pubkey);
    let signature =
        signing.check.finish(Ok(Ok(raw_signature(&kp, &envelope)))).ok().expect("verifies");
    assert!(verify_or_reject(&signature, &pubkey, &envelope).is_ok());
    assert!(verify_or_reject(&signature, &pubkey, b"hello").is_err());
    // A signature of the bare payload is not accepted in its place.
    assert!(signing.check.finish(Ok(Ok(raw_signature(&kp, b"hello")))).is_err());

    let signing = s.sign_transaction_message(b"tx", &mut health).ok().expect("not wedged");
    let DeviceCommand::SignTransactionMessage { path_str, message } = signing.request.command
    else {
        panic!("the transaction APDU");
    };
    assert_eq!(path_str, DEFAULT_DERIVATION_PATH);
    assert_eq!(message, b"tx");
    assert_eq!(signing.check.covered, b"tx");
}

#[test]
fn a_signing_that_fails_says_why() {
    let (kp, pubkey) = keypair(3);
    let check = SignatureCheck { pubkey, covered: b"bytes".to_vec() };
    let err = check.finish(Err("task 7 panicked".to_string())).unwrap_err();
    assert!(matches!(err, SignerError::Other(_)));
    assert_eq!(err.detail_string(), "Ledger signing task failed: task 7 panicked");
    let err = check.finish(Ok(Err(SignerError::UserRejected("no".to_string())))).unwrap_err();
    assert!(matches!(err, SignerError::UserRejected(_)));
    assert_eq!(err.detail_string(), "no");
    let err = check.finish(Ok(Ok(raw_signature(&kp, b"other")))).unwrap_err();
    assert!(matches!(err, SignerError::SigningFailed(_)));
    assert_eq!(
        err.detail_string(),
        "the signature does not verify against the signer's public key"
    );
    assert!(accept_verified(true).is_ok());
    assert!(accept_verified(false).is_err());
}

fn two_signer_transaction(a: &Pubkey, b: &Pubkey) -> VersionedTransaction {
    VersionedTransaction {
        message: b"message".to_vec(),
        required_signers: vec![*a, *b],
        signatures: vec![],
    }
}

#[test]
fn a_transaction_is_partial_until_the_last_signature() {
    let (kp_a, a) = keypair(4);
    let (kp_b, b) = keypair(5);
    let blank = Signature::from([0u8; 64]);
    let mut tx = two_signer_transaction(&a, &b);
    let mut health = ActorHealth::new();

    let sign = |tx: &mut VersionedTransaction, kp: &Keypair, key: &Pubkey, health: &mut ActorHealth| {
        let s = signer(key, Timeout::from_secs(9));
        let signing = s.sign_transaction(tx, health).ok().expect("not wedged");
        let raw = raw_signature(kp, &tx.message);
        signing.check.finish_transaction(tx, Ok(Ok(raw))).ok().expect("a required signer")
    };

    let from_b = sign(&mut tx, &kp_b, &b, &mut health);
    assert_eq!(tx.signatures, vec![blank, from_b]);
    let partial = classify_signed_transaction(&tx, ("encoded".to_string(), from_b));
    assert!(matches!(partial, SignTransactionResult::Partial(_)));
    assert_eq!(partial.into_signed_transaction(), ("encoded".to_string(), from_b));

    let from_a = sign(&mut tx, &kp_a, &a, &mut health);
    assert_eq!(tx.signatures, vec![from_a, from_b]);
    let complete = classify_signed_transaction(&tx, ("done".to_string(), from_a));
    assert!(matches!(complete, SignTransactionResult::Complete(_)));
    assert_eq!(complete.into_signed_transaction(), ("done".to_string(), from_a));
    assert_eq!(tx.message, b"message");
    assert_eq!(tx.required_signers, vec![a, b]);
}

#[test]
fn a_transaction_short_of_slots_is_partial() {
    let (_, a) = keypair(4);
    let (_, b) = keypair(5);
    let tx = two_signer_transaction(&a, &b);
    let r = classify_signed_transaction(&tx, (String::new(), Signature::from([1u8; 64])));
    assert!(matches!(r, SignTransactionResult::Partial(_)));
}

#[test]
fn a_key_that_need_not_sign_is_refused() {
    let (_, a) = keypair(4);
    let (_, b) = keypair(5);
    let (kp_c, c) = keypair(6);
    let mut tx = two_signer_transaction(&a, &b);
    let err = add_signature_to_transaction(&mut tx, &c, Signature::from([1u8; 64])).unwrap_err();
    assert!(matches!(err, SignerError::SigningFailed(_)));
    assert_eq!(
        err.detail_string(),
        "signer is not among the transaction's required signers"
    );
    let check = SignatureCheck { pubkey: c, covered: tx.message.clone() };
    let raw = raw_signature(&kp_c, b"message");
    assert!(check.finish_transaction(&mut tx, Ok(Ok(raw))).is_err());
    assert!(tx.signatures.is_empty(), "nothing is attached");
}

#[test]
fn each_end_of_a_request_has_its_own_error() {
    let timeout = Timeout::from_millis(12_345);
    let mut health = ActorHealth::new();
    let err = settle_request::<u8>(&mut health, timeout, 1, Delivery::NotSent).unwrap_err();
    assert_eq!(err.detail_string(), "Ledger device thread is not running");
    let err = settle_request::<u8>(&mut health, timeout, 1, Delivery::Disconnected).unwrap_err();
    assert_eq!(err.detail_string(), "Ledger device thread stopped");
    let declined = Err(SignerError::UserRejected("no".to_string()));
    let err = settle_request::<u8>(&mut health, timeout, 1, Delivery::Replied(declined)).unwrap_err();
    assert_eq!(err.detail_string(), "no");
    assert_eq!(settle_request(&mut health, timeout, 1, Delivery::Replied(Ok(5u8))).ok(), Some(5));
    assert_eq!(health, ActorHealth::new(), "only giving up leaves a mark");
    let err = settle_request::<u8>(&mut health, timeout, 1, Delivery::TimedOut).unwrap_err();
    assert!(matches!(err, SignerError::NotAvailable(_)));
    assert_eq!(
        err.detail_string(),
        "Ledger did not respond within 12s. If a confirmation is waiting on the device screen, \
         answer it and retry; otherwise unplug and replug the device."
    );
    assert_eq!(health.abandoned_at, 0);
    let err = settle_request::<u8>(
        &mut health,
        Timeout::from_secs(u64::MAX),
        1,
        Delivery::TimedOut,
    )
    .unwrap_err();
    assert!(err.detail_string().contains(" 18446744073709551615s."));
}

#[test]
fn a_probe_without_a_reply_is_a_no() {
    let mut health = ActorHealth::new();
    let Probe::Ask(request) = probe_on(&mut health, DeviceCommand::IsAttached) else {
        panic!("the thread is asked");
    };
    assert_eq!(request.ticket, 1);
    let issued = health;
    assert_eq!(issued.outstanding, 1);
    assert!(settle_probe(&mut health, 1, Delivery::Replied(true)));
    assert!(!settle_probe(&mut health, 1, Delivery::Replied(false)));
    assert!(!settle_probe(&mut health, 1, Delivery::Disconnected));
    assert_eq!(health, issued);
    assert!(!settle_probe(&mut health, 1, Delivery::NotSent));
    assert_eq!(health, ActorHealth::new(), "a command that was never sent is not outstanding");
    assert!(!settle_probe(&mut health, 1, Delivery::TimedOut));
    assert_eq!(health, wedged());
    assert!(matches!(probe_on(&mut health, DeviceCommand::IsAttached), Probe::Answered(false)));
}

#[test]
fn a_mark_at_the_end_of_the_count_reads_as_no_mark() {
    let mut health = ActorHealth { completed: u64::MAX, abandoned_at: NOT_ABANDONED, outstanding: 0 };
    mark_abandoned(&mut health);
    let r = request_on(&mut health, fast_command_timeout(), DeviceCommand::IsAttached);
    assert!(r.is_ok());
}

#[test]
fn a_payload_is_refused_for_what_is_looked_at_first() {
    let key = Pubkey::from([1u8; 32]);
    let text = |payload: &[u8]| {
        let err = ledger_offchain_envelope(&key, payload).unwrap_err();
        assert!(matches!(err, SignerError::ConfigError(_)));
        err.detail_string()
    };
    assert_eq!(text(b""), "off-chain message payload is empty; a Ledger will not sign it");
    assert_eq!(
        text(&[0xff; 1131]),
        "off-chain message payload is 1131 bytes; a Ledger accepts at most 1130"
    );
    assert_eq!(
        text(&[0xff]),
        "off-chain message payload is not valid UTF-8; a Ledger will not sign it"
    );
    // An encoded surrogate and an overlong encoding are not UTF-8 either.
    assert!(text(&[0xed, 0xa0, 0x80]).contains("UTF-8"));
    assert!(text(&[0xc0, 0x80]).contains("UTF-8"));
}

#[test]
fn the_format_byte_turns_at_the_edges_of_printable_ascii() {
    let key = Pubkey::from([1u8; 32]);
    for (byte, format) in [(0x1f, 1), (0x20, 0), (0x7e, 0), (0x7f, 1)] {
        let envelope = ledger_offchain_envelope(&key, &[b'a', byte]).ok().expect("signable");
        assert_eq!(envelope[49], format, "byte {byte:#x}");
    }
}

#[test]
fn different_requests_give_different_envelopes() {
    let a = Pubkey::from([1u8; 32]);
    let b = Pubkey::from([2u8; 32]);
    let wrap = |key: &Pubkey, payload: &[u8]| ledger_offchain_envelope(key, payload).ok();
    assert_ne!(wrap(&a, b"hello"), wrap(&b, b"hello"));
    assert_ne!(wrap(&a, b"hello"), wrap(&a, b"hello "));
    let long = vec![b'x'; 300];
    let envelope = wrap(&a, &long).expect("signable");
    assert_eq!(&envelope[83..85], &[44, 1], "length, little-endian");
    assert_ne!(envelope, long);
}

#[test]
fn a_timeout_keeps_its_parts() {
    let t = Timeout::from_millis(1_234);
    assert_eq!((t.as_secs(), t.subsec_nanos()), (1, 234_000_000));
    assert_eq!(Timeout::new(1, 234_000_000), Some(t));
    assert_eq!(Timeout::new(0, 1_000_000_000), None);
    assert_eq!(Timeout::from_secs(3), Timeout::from_millis(3_000));
    assert_eq!(fast_command_timeout().as_secs(), 10);
    assert_eq!(default_signing_timeout().as_secs(), 300);
}

/// Issues a command and gives back its ticket.
fn issue(health: &mut ActorHealth) -> Option<u64> {
    request_on(health, fast_command_timeout(), DeviceCommand::IsAttached).ok().map(|r| r.ticket)
}

fn give_up(health: &mut ActorHealth, ticket: u64) {
    let r = settle_request::<u8>(health, fast_command_timeout(), ticket, Delivery::TimedOut);
    assert!(r.is_err());
}

#[test]
fn a_command_done_as_its_caller_gives_up_blocks_nobody() {
    // The device thread finishes first, and only then the caller settles.
    let mut health = ActorHealth::new();
    let ticket = issue(&mut health).expect("not wedged");
    mark_completed(&mut health);
    let done = health;
    give_up(&mut health, ticket);
    assert_eq!(health, done, "nothing is stuck, so nothing is marked");
    assert_eq!(issue(&mut health), Some(2));

    // The other order: refused in between, served again after it.
    let mut health = ActorHealth::new();
    let ticket = issue(&mut health).expect("not wedged");
    give_up(&mut health, ticket);
    assert_eq!(issue(&mut health), None);
    mark_completed(&mut health);
    assert_eq!(issue(&mut health), Some(2));
}

#[test]
fn a_command_of_someone_else_does_not_count_as_ones_own() {
    let mut health = ActorHealth::new();
    let first = issue(&mut health).expect("not wedged");
    let second = issue(&mut health).expect("not wedged");
    assert_eq!((first, second), (1, 2));
    mark_completed(&mut health);
    // The second is still being served when its caller gives up.
    give_up(&mut health, second);
    assert_eq!(issue(&mut health), None);
    // The caller of the first gives up late, and that changes nothing.
    give_up(&mut health, first);
    mark_completed(&mut health);
    assert_eq!(issue(&mut health), Some(3));
}

#[test]
fn an_all_zero_signature_never_verifies() {
    let zero = Signature::from([0u8; 64]);
    let (_, key) = keypair(8);
    // Whatever the key, one of small order among them.
    for pubkey in [key, Pubkey::from([0u8; 32]), Pubkey::from([2u8; 32])] {
        for message in [b"".as_slice(), b"message"] {
            assert!(verify_or_reject(&zero, &pubkey, message).is_err());
        }
    }
}

#[test]
fn a_sole_required_signer_completes_the_transaction() {
    let (kp, key) = keypair(9);
    let mut tx = VersionedTransaction {
        message: b"message".to_vec(),
        required_signers: vec![key],
        signatures: vec![],
    };
    let s = signer(&key, Timeout::from_secs(9));
    let signing = s.sign_transaction(&tx, &mut ActorHealth::new()).ok().expect("not wedged");
    let zero = signing.check.finish_transaction(&mut tx, Ok(Ok([0u8; 64])));
    assert!(matches!(zero, Err(SignerError::SigningFailed(_))));
    let raw = raw_signature(&kp, b"message");
    let signature = signing.check.finish_transaction(&mut tx, Ok(Ok(raw))).ok().expect("verifies");
    let r = classify_signed_transaction(&tx, (String::new(), signature));
    assert!(matches!(r, SignTransactionResult::Complete(_)));
}
