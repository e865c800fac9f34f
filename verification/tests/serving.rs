//! The device thread, driven step by step against a scripted device.

use solana_ledger::actor::{
    Attempt, ConnectJob, DeviceActor, Step, RECONNECT_ATTEMPTS, RECONNECT_PAUSE_MILLIS,
};
use solana_ledger::command::{DeviceCommand, DeviceReply};
use solana_ledger::derivation::DEFAULT_DERIVATION_PATH;
use solana_ledger::error::SignerError;
use solana_ledger::health::{mark_abandoned, ActorHealth, NOT_ABANDONED};
use solana_ledger::selection::{
    any_ledger_attached, choose_wallet, select_ledger, DetectedDevice, LedgerHandle, ScanOutcome,
    LEDGER_VID,
};
use solana_ledger::wallet_error::{map_rw_err, WalletError, STATUS_USER_CANCEL};

fn ledger(wallet: u32, path: Option<&str>) -> LedgerHandle<u32> {
    LedgerHandle {
        wallet,
        hid_path: path.map(str::to_string),
        pretty_path: format!("usb://ledger/{wallet}"),
    }
}

fn found(ledgers: Vec<LedgerHandle<u32>>) -> ScanOutcome<u32> {
    ScanOutcome::Found {
        count: ledgers.len(),
        devices: ledgers.into_iter().map(DetectedDevice::Ledger).collect(),
    }
}

fn connect_to(host: Option<&str>, confirm: bool, auto_open: bool) -> DeviceCommand {
    DeviceCommand::Connect {
        path_str: DEFAULT_DERIVATION_PATH.to_string(),
        confirm_pubkey_on_device: confirm,
        host_device_path: host.map(str::to_string),
        auto_open_app: auto_open,
    }
}

fn sign_tx(path: &str) -> DeviceCommand {
    DeviceCommand::SignTransactionMessage { path_str: path.to_string(), message: vec![1, 2, 3] }
}

fn sign_offchain(path: &str) -> DeviceCommand {
    DeviceCommand::SignOffchainMessage { path_str: path.to_string(), message: vec![4, 5] }
}

fn is_available(path: &str) -> DeviceCommand {
    DeviceCommand::IsAvailable { path_str: path.to_string() }
}

fn scan_of(step: Step<u32>) -> (ConnectJob, Attempt) {
    match step {
        Step::Scan { job, attempt } => (job, attempt),
        _ => panic!("expected a scan"),
    }
}

fn connect_error(step: Step<u32>) -> SignerError {
    match step {
        Step::Reply(DeviceReply::Connected(Err(e))) => e,
        _ => panic!("expected a failed connect"),
    }
}

fn connect_key(step: Step<u32>) -> [u8; 32] {
    match step {
        Step::Reply(DeviceReply::Connected(Ok(key))) => key,
        _ => panic!("expected a successful connect"),
    }
}

fn signing_error(step: Step<u32>) -> SignerError {
    match step {
        Step::Reply(DeviceReply::Signed(Err(e))) => e,
        _ => panic!("expected a failed signing"),
    }
}

fn probe_answer(step: Step<u32>) -> bool {
    match step {
        Step::Reply(DeviceReply::Probed(b)) => b,
        _ => panic!("expected the answer to a probe"),
    }
}

/// A device thread with a session on `wallet`, opened for `host`.
fn connected(wallet: u32, host: Option<&str>) -> DeviceActor<u32> {
    let mut actor = DeviceActor::new();
    let (job, attempt) = scan_of(actor.begin(connect_to(host, false, false)));
    assert_eq!(attempt, Attempt::First);
    let step = actor.scanned(job, attempt, found(vec![ledger(wallet, host)]));
    let Step::ReadOpened { job, attempt, wallet } = step else {
        panic!("the Ledger is opened");
    };
    assert!(actor.cached_wallet().is_none(), "not a session before its pubkey is read");
    assert_eq!(connect_key(actor.opened_read(job, attempt, wallet, Ok([9u8; 32]))), [9u8; 32]);
    actor
}

#[test]
fn a_live_session_is_reused_without_enumerating() {
    let mut actor = connected(7, Some("/dev/hidraw0"));
    let step = actor.begin(connect_to(Some("/dev/hidraw0"), false, true));
    let Step::ReadCached(job) = step else {
        panic!("the cached wallet is asked");
    };
    assert_eq!(job.path_str, DEFAULT_DERIVATION_PATH);
    assert_eq!(connect_key(actor.cached_read(job, Ok([3u8; 32]))), [3u8; 32]);
    assert_eq!(actor.cached_wallet(), Some(&7));
}

#[test]
fn another_host_path_is_not_served_by_the_cached_session() {
    for host in [Some("/dev/hidraw1"), None] {
        let mut actor = connected(7, Some("/dev/hidraw0"));
        let (job, attempt) = scan_of(actor.begin(connect_to(host, false, true)));
        assert_eq!(attempt, Attempt::First);
        assert_eq!(job.host_device_path.as_deref(), host);
        assert!(actor.cached_wallet().is_none());
    }
}

#[test]
fn a_confirmation_on_screen_always_reaches_the_device() {
    let mut actor = connected(7, None);
    let (job, _) = scan_of(actor.begin(connect_to(None, true, false)));
    assert!(job.confirm_pubkey_on_device);
    assert!(actor.cached_wallet().is_none());
}

#[test]
fn a_stale_session_is_rebuilt() {
    let mut actor = connected(7, None);
    let Step::ReadCached(job) = actor.begin(connect_to(None, false, false)) else {
        panic!("the cached wallet is asked");
    };
    let (job, attempt) = scan_of(actor.cached_read(job, Err(WalletError::NoDeviceFound)));
    assert!(actor.cached_wallet().is_none());
    let Step::ReadOpened { job, attempt, wallet } =
        actor.scanned(job, attempt, found(vec![ledger(8, None)]))
    else {
        panic!("the Ledger is opened");
    };
    assert_eq!(connect_key(actor.opened_read(job, attempt, wallet, Ok([2u8; 32]))), [2u8; 32]);
    assert_eq!(actor.cached_wallet(), Some(&8));
}

#[test]
fn a_bad_path_never_troubles_the_device_nor_the_session() {
    let mut actor = connected(7, None);
    let command = DeviceCommand::Connect {
        path_str: "44'/501'".to_string(),
        confirm_pubkey_on_device: true,
        host_device_path: None,
        auto_open_app: true,
    };
    let err = connect_error(actor.begin(command));
    assert!(matches!(err, SignerError::ConfigError(_)));
    assert!(err.detail_string().starts_with("invalid derivation path: "));
    assert_eq!(actor.cached_wallet(), Some(&7));

    assert!(matches!(signing_error(actor.begin(sign_tx("m/x"))), SignerError::ConfigError(_)));
    assert!(matches!(
        signing_error(actor.begin(sign_offchain("m/x"))),
        SignerError::ConfigError(_)
    ));
    assert!(!probe_answer(actor.begin(is_available("m/x"))));
    assert_eq!(actor.cached_wallet(), Some(&7));
}

#[test]
fn without_permission_nothing_is_launched() {
    let mut actor = DeviceActor::new();
    let (job, attempt) = scan_of(actor.begin(connect_to(None, false, false)));
    let err = connect_error(actor.scanned(job, attempt, found(vec![])));
    assert!(matches!(err, SignerError::NotAvailable(_)));
    assert_eq!(
        err.detail_string(),
        "no Ledger device found (plug in, unlock, and open the Solana app)"
    );
}

fn launch_step(actor: &mut DeviceActor<u32>) -> (ConnectJob, SignerError) {
    let (job, attempt) = scan_of(actor.begin(connect_to(None, false, true)));
    let Step::ReadOpened { job, attempt, wallet } =
        actor.scanned(job, attempt, found(vec![ledger(5, None)]))
    else {
        panic!("the Ledger is opened");
    };
    let closed = WalletError::Ledger {
        status: 0x6700,
        text: "Solana app not open on Ledger device".to_string(),
    };
    match actor.opened_read(job, attempt, wallet, Err(closed)) {
        Step::LaunchApp { job, error } => (job, error),
        _ => panic!("a launch is tried"),
    }
}

#[test]
fn a_declined_launch_is_a_decline() {
    let mut actor = DeviceActor::new();
    let (job, error) = launch_step(&mut actor);
    let declined = Err(SignerError::UserRejected("launch declined".to_string()));
    let err = connect_error(actor.launched(job, error, declined));
    assert!(matches!(err, SignerError::UserRejected(_)));
    assert_eq!(err.detail_string(), "launch declined");
}

fn decline() -> WalletError {
    WalletError::Ledger { status: STATUS_USER_CANCEL, text: "no".to_string() }
}

#[test]
fn a_declined_confirmation_is_surfaced_whether_or_not_the_app_may_be_launched() {
    for auto_open in [false, true] {
        let mut actor = DeviceActor::new();
        let (job, attempt) = scan_of(actor.begin(connect_to(None, true, auto_open)));
        let Step::ReadOpened { job, attempt, wallet } =
            actor.scanned(job, attempt, found(vec![ledger(5, None)]))
        else {
            panic!("the Ledger is opened");
        };
        let err = connect_error(actor.opened_read(job, attempt, wallet, Err(decline())));
        assert!(matches!(err, SignerError::UserRejected(_)));
        assert_eq!(err.detail_string(), "request rejected on Ledger device");
        assert!(actor.cached_wallet().is_none());
    }
}

#[test]
fn a_decline_during_a_retry_ends_the_retries() {
    let mut actor = DeviceActor::new();
    let (job, error) = launch_step(&mut actor);
    let Step::Pause { job, left } = actor.launched(job, error, Ok(true)) else {
        panic!("wait for the device to come back");
    };
    let (job, attempt) = scan_of(actor.paused(job, left));
    let Step::ReadOpened { job, attempt, wallet } =
        actor.scanned(job, attempt, found(vec![ledger(5, None)]))
    else {
        panic!("the Ledger is opened");
    };
    let err = connect_error(actor.opened_read(job, attempt, wallet, Err(decline())));
    assert!(matches!(err, SignerError::UserRejected(_)));
    assert!(actor.cached_wallet().is_none());
}

#[test]
fn a_queue_is_served_in_order() {
    let mut health = ActorHealth::new();
    mark_abandoned(&mut health);
    let mut actor: DeviceActor<u32> = DeviceActor::new();
    let mut replies = vec![];
    for (command, delivered) in [
        (sign_tx(DEFAULT_DERIVATION_PATH), true),
        (is_available(DEFAULT_DERIVATION_PATH), false),
        (sign_offchain(DEFAULT_DERIVATION_PATH), true),
    ] {
        let Step::Reply(reply) = actor.begin(command) else {
            panic!("nothing is connected");
        };
        replies.push(matches!(reply, DeviceReply::Signed(_)));
        actor.respond(&mut health, delivered);
    }
    assert_eq!(replies, vec![true, false, true]);
    assert_eq!(health, ActorHealth { completed: 3, abandoned_at: 0, outstanding: 0 });
}

#[test]
fn an_unreachable_dashboard_keeps_the_connect_error() {
    let mut actor = DeviceActor::new();
    let (job, error) = launch_step(&mut actor);
    let unreachable = Err(SignerError::NotAvailable("dashboard".to_string()));
    let err = connect_error(actor.launched(job, error, unreachable));
    assert!(matches!(err, SignerError::SigningFailed(_)));
    assert_eq!(
        err.detail_string(),
        "Ledger device error: Solana app not open on Ledger device"
    );
    assert!(actor.cached_wallet().is_none());
}

#[test]
fn a_launch_is_followed_by_twenty_retries() {
    assert_eq!((RECONNECT_ATTEMPTS, RECONNECT_PAUSE_MILLIS), (20, 250));
    // `launched` retries whether or not the app really had to be launched.
    for launched in [true, false] {
        let mut actor = DeviceActor::new();
        let (job, error) = launch_step(&mut actor);
        let mut step = actor.launched(job, error, Ok(launched));
        let mut scans = 0;
        let err = loop {
            step = match step {
                Step::Pause { job, left } => {
                    assert_eq!(usize::from(left), 20 - scans);
                    actor.paused(job, left)
                }
                Step::Scan { job, attempt } => {
                    scans += 1;
                    // The last failure is the one reported.
                    let outcome = if scans < 20 {
                        ScanOutcome::EnumerationFailed(WalletError::NoDeviceFound)
                    } else {
                        ScanOutcome::SubsystemUnavailable("bus gone".to_string())
                    };
                    actor.scanned(job, attempt, outcome)
                }
                other => break connect_error(other),
            };
        };
        assert_eq!(scans, 20);
        assert_eq!(err.detail_string(), "Ledger HID subsystem unavailable: bus gone");
        assert!(actor.cached_wallet().is_none());
    }
}

#[test]
fn the_first_retry_that_succeeds_ends_the_connect() {
    let mut actor = DeviceActor::new();
    let (job, error) = launch_step(&mut actor);
    let Step::Pause { job, left } = actor.launched(job, error, Ok(true)) else {
        panic!("wait for the device to come back");
    };
    let (job, attempt) = scan_of(actor.paused(job, left));
    assert_eq!(attempt, Attempt::Retry { left: 19 });
    let Step::Pause { job, left } = actor.scanned(job, attempt, found(vec![])) else {
        panic!("wait again");
    };
    assert_eq!(left, 19);
    let (job, attempt) = scan_of(actor.paused(job, left));
    let Step::ReadOpened { job, attempt, wallet } =
        actor.scanned(job, attempt, found(vec![ledger(6, None)]))
    else {
        panic!("the Ledger is opened");
    };
    assert_eq!(connect_key(actor.opened_read(job, attempt, wallet, Ok([4u8; 32]))), [4u8; 32]);
    assert_eq!(actor.cached_wallet(), Some(&6));
}

#[test]
fn a_failed_signing_drops_the_session_and_a_good_one_keeps_it() {
    let mut actor = connected(7, None);
    let Step::SignTransaction { path_str, message } = actor.begin(sign_tx(DEFAULT_DERIVATION_PATH))
    else {
        panic!("the device is asked");
    };
    assert_eq!(path_str, DEFAULT_DERIVATION_PATH);
    assert_eq!(message, vec![1, 2, 3]);
    let step = actor.signed(Ok([8u8; 64]));
    assert!(matches!(step, Step::Reply(DeviceReply::Signed(Ok(s))) if s == [8u8; 64]));
    assert_eq!(actor.cached_wallet(), Some(&7));

    let Step::SignOffchain { message, .. } = actor.begin(sign_offchain(DEFAULT_DERIVATION_PATH))
    else {
        panic!("the device is asked");
    };
    assert_eq!(message, vec![4, 5]);
    let declined = WalletError::Ledger { status: STATUS_USER_CANCEL, text: "no".to_string() };
    let err = signing_error(actor.signed(Err(declined)));
    assert!(matches!(err, SignerError::UserRejected(_)));
    assert_eq!(err.detail_string(), "request rejected on Ledger device");
    assert!(actor.cached_wallet().is_none());
}

#[test]
fn without_a_session_nothing_is_signed_or_probed() {
    let mut actor: DeviceActor<u32> = DeviceActor::new();
    for command in [sign_tx(DEFAULT_DERIVATION_PATH), sign_offchain(DEFAULT_DERIVATION_PATH)] {
        let err = signing_error(actor.begin(command));
        assert!(matches!(err, SignerError::NotAvailable(_)));
        assert_eq!(err.detail_string(), "no Ledger session; connect first");
    }
    assert!(!probe_answer(actor.begin(is_available(DEFAULT_DERIVATION_PATH))));
}

#[test]
fn a_probe_that_fails_drops_the_session() {
    let mut actor = connected(7, None);
    let Step::ProbeCached { .. } = actor.begin(is_available(DEFAULT_DERIVATION_PATH)) else {
        panic!("the device is asked");
    };
    assert!(probe_answer(actor.probed(Ok([9u8; 32]))));
    assert_eq!(actor.cached_wallet(), Some(&7));
    assert!(!probe_answer(actor.probed(Err(WalletError::Protocol("x".to_string())))));
    assert!(actor.cached_wallet().is_none());
}

#[test]
fn looking_at_the_bus_keeps_the_session() {
    let mut actor = connected(7, None);
    assert!(matches!(actor.begin(DeviceCommand::IsAttached), Step::ListVendors));
    assert!(probe_answer(actor.listed(Some(vec![0x046d, LEDGER_VID]))));
    assert!(!probe_answer(actor.listed(Some(vec![0x046d]))));
    assert!(!probe_answer(actor.listed(None)));
    assert_eq!(actor.cached_wallet(), Some(&7));
    assert_eq!(LEDGER_VID, 0x2c97);
    assert!(!any_ledger_attached(Some(vec![])));
}

#[test]
fn a_delivered_reply_keeps_the_session_and_counts() {
    let mut health = ActorHealth::new();
    mark_abandoned(&mut health);
    let mut actor = connected(7, None);
    actor.respond(&mut health, true);
    assert_eq!(actor.cached_wallet(), Some(&7));
    assert_eq!(health, ActorHealth { completed: 1, abandoned_at: 0, outstanding: 0 });
}

#[test]
fn the_completion_count_wraps() {
    let mut health = ActorHealth { completed: u64::MAX, abandoned_at: NOT_ABANDONED, outstanding: 0 };
    let mut actor: DeviceActor<u32> = DeviceActor::new();
    actor.respond(&mut health, true);
    assert_eq!(health.completed, 0);
}

fn detail(r: Result<u32, SignerError>) -> String {
    let e = r.unwrap_err();
    assert!(matches!(e, SignerError::NotAvailable(_)));
    e.detail_string()
}

#[test]
fn several_ledgers_are_listed_not_guessed() {
    let ledgers = vec![ledger(1, Some("/dev/a")), ledger(2, None), ledger(3, Some("/dev/c"))];
    assert_eq!(
        detail(select_ledger(ledgers, &None)),
        "multiple Ledger devices connected; pass host_device_path to select one:\n  \
         /dev/a (usb://ledger/1)\n  <unknown path> (usb://ledger/2)\n  /dev/c (usb://ledger/3)"
    );
}

#[test]
fn a_host_path_selects_the_first_ledger_at_it() {
    let all = || vec![ledger(1, Some("/dev/a")), ledger(2, Some("/dev/b")), ledger(3, Some("/dev/b"))];
    let b = Some("/dev/b".to_string());
    assert_eq!(select_ledger(all(), &b).ok(), Some(2));
    let z = Some("/dev/z".to_string());
    assert_eq!(detail(select_ledger(all(), &z)), "no Ledger device at host path `/dev/z`");
    assert_eq!(detail(select_ledger(vec![], &z)), "no Ledger device at host path `/dev/z`");
}

#[test]
fn only_ledgers_are_considered() {
    let outcome = ScanOutcome::Found {
        count: 3,
        devices: vec![
            DetectedDevice::Other,
            DetectedDevice::Ledger(ledger(4, None)),
            DetectedDevice::Other,
        ],
    };
    assert_eq!(choose_wallet(outcome, &None).ok(), Some(4));
    let outcome = ScanOutcome::Found { count: 1, devices: vec![DetectedDevice::Other] };
    assert_eq!(detail(choose_wallet(outcome, &None)), "no Ledger device found");
}

#[test]
fn a_scan_that_fails_is_reported() {
    let outcome = ScanOutcome::SubsystemUnavailable("hidapi error: none".to_string());
    assert_eq!(
        detail(choose_wallet(outcome, &None)),
        "Ledger HID subsystem unavailable: hidapi error: none"
    );
    let outcome = ScanOutcome::EnumerationFailed(WalletError::UserCancel);
    assert!(matches!(choose_wallet::<u32>(outcome, &None), Err(SignerError::UserRejected(_))));
}

#[test]
fn any_other_wallet_error_is_a_device_error() {
    let err = map_rw_err(WalletError::Unclassified("device type mismatch".to_string()));
    assert!(matches!(err, SignerError::SigningFailed(_)));
    assert_eq!(err.detail_string(), "Ledger device error: device type mismatch");
}

#[test]
fn a_lost_session_is_back_only_with_a_connect() {
    let mut health = ActorHealth::new();
    let mut actor = connected(7, None);
    let Step::SignTransaction { .. } = actor.begin(sign_tx(DEFAULT_DERIVATION_PATH)) else {
        panic!("the device is asked");
    };
    signing_error(actor.signed(Err(WalletError::Hid("gone".to_string()))));
    actor.respond(&mut health, true);
    // Nothing but a connect brings it back.
    for _ in 0..3 {
        assert!(!probe_answer(actor.begin(is_available(DEFAULT_DERIVATION_PATH))));
        actor.respond(&mut health, true);
        let err = signing_error(actor.begin(sign_tx(DEFAULT_DERIVATION_PATH)));
        assert_eq!(err.detail_string(), "no Ledger session; connect first");
        actor.respond(&mut health, true);
        assert!(matches!(actor.begin(DeviceCommand::IsAttached), Step::ListVendors));
        assert!(probe_answer(actor.listed(Some(vec![LEDGER_VID]))));
        actor.respond(&mut health, true);
    }
    let (job, attempt) = scan_of(actor.begin(connect_to(None, false, false)));
    let Step::ReadOpened { job, attempt, wallet } =
        actor.scanned(job, attempt, found(vec![ledger(8, None)]))
    else {
        panic!("the Ledger is opened");
    };
    assert_eq!(connect_key(actor.opened_read(job, attempt, wallet, Ok([2u8; 32]))), [2u8; 32]);
    actor.respond(&mut health, true);
    assert!(matches!(
        actor.begin(sign_tx(DEFAULT_DERIVATION_PATH)),
        Step::SignTransaction { .. }
    ));
}
