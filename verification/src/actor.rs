//! The device thread's decisions.
//!
//! The thread that owns the device serves one command at a time, and holds at
//! most one open session, which it reuses across commands. What it does next is
//! decided here: each function takes what the last exchange with the device came
//! to and names the next one, until it names the reply. The exchanges themselves
//! happen outside.

use vstd::prelude::*;

use crate::command::{CommandView, DeviceCommand, DeviceReply, ReplyView};
use crate::derivation::{check_path, invalid_path, path_fault};
use crate::error::{failure, ErrorKind, ErrorView, SignerError};
use crate::health::{mark_completed, ActorHealth};
use crate::selection::{any_ledger_attached, choose_wallet, scan_result, ScanOutcome, LEDGER_VID};
use crate::text::{opt_view, same_text};
use crate::wallet_error::{map_rw_err, wallet_failure, WalletError};

verus! {

/// How many times a connect is retried once the Solana app has been launched.
pub const RECONNECT_ATTEMPTS: u8 = 20;

/// How long to wait before each of those retries: launching an app makes the
/// device leave the bus and come back.
pub const RECONNECT_PAUSE_MILLIS: u64 = 250;

pub const NO_SESSION: &'static str = "no Ledger session; connect first";

/// A live device session, cached on the device thread between commands.
pub struct Session<W> {
    pub wallet: W,
    /// The host path this session was opened against, so a connect asking for a
    /// *different* device re-establishes instead of silently using this one.
    pub host_device_path: Option<String>,
}

/// The mathematical value of a [`Session`].
#[verifier::ext_equal]
pub struct SessionView<W> {
    pub wallet: W,
    pub host: Option<Seq<char>>,
}

/// The mathematical value of a cached session.
pub open spec fn cached<W>(session: Option<Session<W>>) -> Option<SessionView<W>> {
    match session {
        Some(s) => Some(SessionView { wallet: s.wallet, host: opt_view(s.host_device_path) }),
        None => None,
    }
}

/// What a connect is to achieve.
pub struct ConnectJob {
    pub path_str: String,
    pub confirm_pubkey_on_device: bool,
    pub host_device_path: Option<String>,
    pub auto_open_app: bool,
}

/// The mathematical value of a [`ConnectJob`].
#[verifier::ext_equal]
pub struct JobView {
    pub path: Seq<char>,
    pub confirm: bool,
    pub host: Option<Seq<char>>,
    pub auto_open: bool,
}

impl View for ConnectJob {
    type V = JobView;

    open spec fn view(&self) -> JobView {
        JobView {
            path: self.path_str@,
            confirm: self.confirm_pubkey_on_device,
            host: opt_view(self.host_device_path),
            auto_open: self.auto_open_app,
        }
    }
}

/// Which attempt at a session this is.
#[derive(Clone, Copy, Debug, PartialEq, Eq)]
pub enum Attempt {
    /// The first, before any launch.
    First,
    /// One of those after a launch, with so many more to go.
    Retry { left: u8 },
}

/// The next exchange.
pub enum Step<W> {
    /// Read the pubkey from the cached wallet, without confirmation.
    ReadCached(ConnectJob),
    /// Enumerate the wallets on this host.
    Scan { job: ConnectJob, attempt: Attempt },
    /// Read the pubkey from this newly opened wallet.
    ReadOpened { job: ConnectJob, attempt: Attempt, wallet: W },
    /// Launch the Solana app from the dashboard; a session could not be opened,
    /// for the reason given.
    LaunchApp { job: ConnectJob, error: SignerError },
    /// Wait [`RECONNECT_PAUSE_MILLIS`]; so many attempts are still to come.
    Pause { job: ConnectJob, left: u8 },
    /// Have the cached wallet sign a transaction message.
    SignTransaction { path_str: String, message: Vec<u8> },
    /// Have the cached wallet sign an off-chain message.
    SignOffchain { path_str: String, message: Vec<u8> },
    /// Read the pubkey from the cached wallet, without confirmation, to learn
    /// whether it answers.
    ProbeCached { path_str: String },
    /// List the vendor ids of the HID devices on this host.
    ListVendors,
    /// Answer the caller. The command is served.
    Reply(DeviceReply),
}

/// The mathematical value of a [`Step`].
#[verifier::ext_equal]
pub enum StepView<W> {
    ReadCached(JobView),
    Scan(JobView, Attempt),
    ReadOpened(JobView, Attempt, W),
    LaunchApp(JobView, ErrorView),
    Pause(JobView, u8),
    SignTransaction { path: Seq<char>, message: Seq<u8> },
    SignOffchain { path: Seq<char>, message: Seq<u8> },
    ProbeCached { path: Seq<char> },
    ListVendors,
    Reply(ReplyView),
}

impl<W> View for Step<W> {
    type V = StepView<W>;

    open spec fn view(&self) -> StepView<W> {
        match self {
            Step::ReadCached(job) => StepView::ReadCached(job@),
            Step::Scan { job, attempt } => StepView::Scan(job@, *attempt),
            Step::ReadOpened { job, attempt, wallet } => StepView::ReadOpened(
                job@,
                *attempt,
                *wallet,
            ),
            Step::LaunchApp { job, error } => StepView::LaunchApp(job@, error@),
            Step::Pause { job, left } => StepView::Pause(job@, *left),
            Step::SignTransaction { path_str, message } => StepView::SignTransaction {
                path: path_str@,
                message: message@,
            },
            Step::SignOffchain { path_str, message } => StepView::SignOffchain {
                path: path_str@,
                message: message@,
            },
            Step::ProbeCached { path_str } => StepView::ProbeCached { path: path_str@ },
            Step::ListVendors => StepView::ListVendors,
            Step::Reply(reply) => StepView::Reply(reply@),
        }
    }
}

/// A device thread between two exchanges: the session it keeps, and what comes
/// next.
#[verifier::ext_equal]
pub struct Turn<W> {
    pub session: Option<SessionView<W>>,
    pub step: StepView<W>,
}

/// Keep `session` and go on with `step`.
pub open spec fn turn<W>(session: Option<SessionView<W>>, step: StepView<W>) -> Turn<W> {
    Turn { session, step }
}

/// Keep `session` and report that the connect failed.
pub open spec fn not_connected<W>(session: Option<SessionView<W>>, e: ErrorView) -> Turn<W> {
    turn(session, StepView::Reply(ReplyView::Connected(Err(e))))
}

/// The error for a command that needs a session when there is none.
pub open spec fn no_session() -> ErrorView {
    failure(ErrorKind::NotAvailable, NO_SESSION@)
}

/// The mathematical value of what a wallet answered to a pubkey read.
pub open spec fn read_view(r: Result<[u8; 32], WalletError>) -> Result<Seq<u8>, ErrorView> {
    match r {
        Ok(bytes) => Ok(bytes@),
        Err(e) => Err(wallet_failure(e)),
    }
}

/// The mathematical value of what a wallet answered to a signing request.
pub open spec fn signed_view(r: Result<[u8; 64], WalletError>) -> Result<Seq<u8>, ErrorView> {
    match r {
        Ok(bytes) => Ok(bytes@),
        Err(e) => Err(wallet_failure(e)),
    }
}

/// The mathematical value of what came of launching the app.
pub open spec fn launch_view(r: Result<bool, SignerError>) -> Result<bool, ErrorView> {
    match r {
        Ok(launched) => Ok(launched),
        Err(e) => Err(e@),
    }
}

/// Why a command that runs on the cached session cannot run, if it cannot: its
/// path does not parse, or there is no session.
pub open spec fn session_fault<W>(session: Option<SessionView<W>>, path: Seq<char>) -> Option<
    ErrorView,
> {
    match path_fault(path) {
        Some(text) => Some(invalid_path(text)),
        None => if session is None {
            Some(no_session())
        } else {
            None
        },
    }
}

/// The cached session serves a connect when it is to the same device *and* the
/// caller does not need an on-screen confirmation, which by definition has to
/// reach the device.
pub open spec fn reusable<W>(session: Option<SessionView<W>>, job: JobView) -> bool {
    session matches Some(s) && s.host == job.host && !job.confirm
}

/// The first turn of a connect.
pub open spec fn begin_connect<W>(session: Option<SessionView<W>>, job: JobView) -> Turn<W> {
    match path_fault(job.path) {
        Some(text) => not_connected(session, invalid_path(text)),
        None => if reusable(session, job) {
            turn(session, StepView::ReadCached(job))
        } else {
            turn(None, StepView::Scan(job, Attempt::First))
        },
    }
}

/// The first turn of a command.
pub open spec fn begin<W>(session: Option<SessionView<W>>, command: CommandView) -> Turn<W> {
    match command {
        CommandView::Connect { path, confirm, host, auto_open } => begin_connect(
            session,
            JobView { path, confirm, host, auto_open },
        ),
        CommandView::SignTransactionMessage { path, message } => match session_fault(
            session,
            path,
        ) {
            Some(e) => turn(session, StepView::Reply(ReplyView::Signed(Err(e)))),
            None => turn(session, StepView::SignTransaction { path, message }),
        },
        CommandView::SignOffchainMessage { path, message } => match session_fault(session, path) {
            Some(e) => turn(session, StepView::Reply(ReplyView::Signed(Err(e)))),
            None => turn(session, StepView::SignOffchain { path, message }),
        },
        CommandView::IsAvailable { path } => match session_fault(session, path) {
            Some(_) => turn(session, StepView::Reply(ReplyView::Probed(false))),
            None => turn(session, StepView::ProbeCached { path }),
        },
        CommandView::IsAttached => turn(session, StepView::ListVendors),
    }
}

/// The turn after the cached wallet was read: a handle that does not answer is
/// stale and is rebuilt from scratch.
pub open spec fn after_cached<W>(
    session: Option<SessionView<W>>,
    job: JobView,
    read: Result<Seq<u8>, ErrorView>,
) -> Turn<W> {
    match read {
        Ok(key) => turn(session, StepView::Reply(ReplyView::Connected(Ok(key)))),
        Err(_) => turn(None, StepView::Scan(job, Attempt::First)),
    }
}

/// The turn after an attempt at a session failed with `e`. A decline on the
/// device is a real user decision and ends the connect. Any other first failure
/// may only mean that the Solana app is not running; a later one, that the device
/// is not back on the bus yet.
pub open spec fn after_failure<W>(
    session: Option<SessionView<W>>,
    job: JobView,
    attempt: Attempt,
    e: ErrorView,
) -> Turn<W> {
    if e.kind is UserRejected {
        not_connected(session, e)
    } else {
        match attempt {
            Attempt::First => if job.auto_open {
                turn(session, StepView::LaunchApp(job, e))
            } else {
                not_connected(session, e)
            },
            Attempt::Retry { left } => if left > 0 {
                turn(session, StepView::Pause(job, left))
            } else {
                not_connected(session, e)
            },
        }
    }
}

/// The turn after enumerating.
pub open spec fn after_scan<W>(
    session: Option<SessionView<W>>,
    job: JobView,
    attempt: Attempt,
    outcome: ScanOutcome<W>,
) -> Turn<W> {
    match scan_result(outcome, job.host) {
        Ok(wallet) => turn(session, StepView::ReadOpened(job, attempt, wallet)),
        Err(e) => after_failure(session, job, attempt, e),
    }
}

/// The turn after a newly opened wallet was read: only now is it a session.
pub open spec fn after_opened<W>(
    session: Option<SessionView<W>>,
    job: JobView,
    attempt: Attempt,
    wallet: W,
    read: Result<Seq<u8>, ErrorView>,
) -> Turn<W> {
    match read {
        Ok(key) => turn(
            Some(SessionView { wallet, host: job.host }),
            StepView::Reply(ReplyView::Connected(Ok(key))),
        ),
        Err(e) => after_failure(session, job, attempt, e),
    }
}

/// The turn after trying to launch the app. Declining the launch prompt is a
/// real user decision and is surfaced; any other failure keeps the error that
/// led here.
pub open spec fn after_launch<W>(
    session: Option<SessionView<W>>,
    job: JobView,
    e: ErrorView,
    launch: Result<bool, ErrorView>,
) -> Turn<W> {
    match launch {
        Ok(_) => turn(session, StepView::Pause(job, RECONNECT_ATTEMPTS)),
        Err(why) => if why.kind is UserRejected {
            not_connected(session, why)
        } else {
            not_connected(session, e)
        },
    }
}

/// The turn after a pause: the next attempt.
pub open spec fn after_pause<W>(
    session: Option<SessionView<W>>,
    job: JobView,
    left: u8,
) -> Turn<W> {
    turn(
        session,
        StepView::Scan(
            job,
            Attempt::Retry {
                left: if left > 0 {
                    (left - 1) as u8
                } else {
                    0
                },
            },
        ),
    )
}

/// The turn after the device was asked to sign. A device that erred is not
/// trusted with another command.
pub open spec fn after_signing<W>(
    session: Option<SessionView<W>>,
    signed: Result<Seq<u8>, ErrorView>,
) -> Turn<W> {
    turn(
        if signed is Ok {
            session
        } else {
            None
        },
        StepView::Reply(ReplyView::Signed(signed)),
    )
}

/// The turn after the cached wallet was probed.
pub open spec fn after_probe<W>(
    session: Option<SessionView<W>>,
    read: Result<Seq<u8>, ErrorView>,
) -> Turn<W> {
    turn(
        if read is Ok {
            session
        } else {
            None
        },
        StepView::Reply(ReplyView::Probed(read is Ok)),
    )
}

/// The turn after the bus was listed.
pub open spec fn after_listing<W>(
    session: Option<SessionView<W>>,
    vendor_ids: Option<Seq<u16>>,
) -> Turn<W> {
    turn(
        session,
        StepView::Reply(
            ReplyView::Probed(vendor_ids matches Some(ids) && ids.contains(LEDGER_VID)),
        ),
    )
}

/// The session kept once a reply was handed over, or could not be: a reply that
/// nobody took belongs to a caller that gave up, and its command may have left
/// the device mid-exchange.
pub open spec fn after_reply<W>(session: Option<SessionView<W>>, delivered: bool) -> Option<
    SessionView<W>,
> {
    if delivered {
        session
    } else {
        None
    }
}

/// The mathematical value of a listing of the bus.
pub open spec fn vendors_view(vendor_ids: Option<Vec<u16>>) -> Option<Seq<u16>> {
    match vendor_ids {
        Some(ids) => Some(ids@),
        None => None,
    }
}

/// The device thread's memory: the session it keeps between commands.
pub struct DeviceActor<W> {
    session: Option<Session<W>>,
}

impl<W> View for DeviceActor<W> {
    type V = Option<SessionView<W>>;

    closed spec fn view(&self) -> Option<SessionView<W>> {
        cached(self.session)
    }
}

/// Whether a command may run on the cached session.
fn with_session<W>(session: &Option<Session<W>>, path_str: &str) -> (r: Result<(), SignerError>)
    ensures
        session_fault(cached(*session), path_str@) == (match r {
            Ok(_) => None,
            Err(e) => Some(e@),
        }),
{
    match check_path(path_str) {
        Ok(_) => {},
        Err(e) => return Err(e),
    }
    match session {
        Some(_) => Ok(()),
        None => Err(SignerError::NotAvailable(NO_SESSION.to_owned())),
    }
}

fn retry_or_give_up<W>(job: ConnectJob, attempt: Attempt, error: SignerError) -> (step: Step<W>)
    ensures
        forall|session: Option<SessionView<W>>| #[trigger]
            turn(session, step@) == after_failure(session, job@, attempt, error@),
{
    if let SignerError::UserRejected(why) = error {
        return Step::Reply(DeviceReply::Connected(Err(SignerError::UserRejected(why))));
    }
    match attempt {
        Attempt::First => if job.auto_open_app {
            Step::LaunchApp { job, error }
        } else {
            Step::Reply(DeviceReply::Connected(Err(error)))
        },
        Attempt::Retry { left } => if left > 0 {
            Step::Pause { job, left }
        } else {
            Step::Reply(DeviceReply::Connected(Err(error)))
        },
    }
}

impl<W> DeviceActor<W> {
    /// A device thread with no session.
    pub fn new() -> (actor: DeviceActor<W>)
        ensures
            actor@ is None,
    {
        DeviceActor { session: None }
    }

    /// The wallet of the cached session.
    pub fn cached_wallet(&self) -> (wallet: Option<&W>)
        ensures
            wallet == (match self@ {
                Some(s) => Some(&s.wallet),
                None => None,
            }),
    {
        match &self.session {
            Some(s) => Some(&s.wallet),
            None => None,
        }
    }

    fn begin_connect(&mut self, job: ConnectJob) -> (step: Step<W>)
        ensures
            turn(final(self)@, step@) == begin_connect(old(self)@, job@),
    {
        match check_path(job.path_str.as_str()) {
            Ok(_) => {},
            Err(e) => return Step::Reply(DeviceReply::Connected(Err(e))),
        }
        let reuse = match &self.session {
            Some(s) => same_text(&s.host_device_path, &job.host_device_path)
                && !job.confirm_pubkey_on_device,
            None => false,
        };
        if reuse {
            Step::ReadCached(job)
        } else {
            self.session = None;
            Step::Scan { job, attempt: Attempt::First }
        }
    }

    /// Take up a command.
    pub fn begin(&mut self, command: DeviceCommand) -> (step: Step<W>)
        ensures
            turn(final(self)@, step@) == begin(old(self)@, command@),
            command matches DeviceCommand::Connect {
                path_str,
                confirm_pubkey_on_device,
                host_device_path,
                auto_open_app,
            } ==> (confirm_pubkey_on_device && path_fault(path_str@) is None ==> final(self)@
                is None && (step matches Step::Scan { job, attempt } && attempt is First
                && job.confirm_pubkey_on_device && job.path_str@ == path_str@
                && job.auto_open_app == auto_open_app)),
    {
        match command {
            DeviceCommand::Connect {
                path_str,
                confirm_pubkey_on_device,
                host_device_path,
                auto_open_app,
            } => self.begin_connect(
                ConnectJob { path_str, confirm_pubkey_on_device, host_device_path, auto_open_app },
            ),
            DeviceCommand::SignTransactionMessage { path_str, message } => {
                match with_session(&self.session, path_str.as_str()) {
                    Ok(_) => Step::SignTransaction { path_str, message },
                    Err(e) => Step::Reply(DeviceReply::Signed(Err(e))),
                }
            },
            DeviceCommand::SignOffchainMessage { path_str, message } => {
                match with_session(&self.session, path_str.as_str()) {
                    Ok(_) => Step::SignOffchain { path_str, message },
                    Err(e) => Step::Reply(DeviceReply::Signed(Err(e))),
                }
            },
            DeviceCommand::IsAvailable { path_str } => {
                match with_session(&self.session, path_str.as_str()) {
                    Ok(_) => Step::ProbeCached { path_str },
                    Err(_) => Step::Reply(DeviceReply::Probed(false)),
                }
            },
            DeviceCommand::IsAttached => Step::ListVendors,
        }
    }

    /// Go on after [`Step::ReadCached`].
    pub fn cached_read(&mut self, job: ConnectJob, read: Result<[u8; 32], WalletError>) -> (step:
        Step<W>)
        ensures
            turn(final(self)@, step@) == after_cached(old(self)@, job@, read_view(read)),
    {
        match read {
            Ok(key) => Step::Reply(DeviceReply::Connected(Ok(key))),
            Err(_) => {
                self.session = None;
                Step::Scan { job, attempt: Attempt::First }
            },
        }
    }

    /// Go on after [`Step::Scan`].
    pub fn scanned(&mut self, job: ConnectJob, attempt: Attempt, outcome: ScanOutcome<W>) -> (step:
        Step<W>)
        ensures
            turn(final(self)@, step@) == after_scan(old(self)@, job@, attempt, outcome),
    {
        match choose_wallet(outcome, &job.host_device_path) {
            Ok(wallet) => Step::ReadOpened { job, attempt, wallet },
            Err(e) => retry_or_give_up(job, attempt, e),
        }
    }

    /// Go on after [`Step::ReadOpened`].
    pub fn opened_read(
        &mut self,
        job: ConnectJob,
        attempt: Attempt,
        wallet: W,
        read: Result<[u8; 32], WalletError>,
    ) -> (step: Step<W>)
        ensures
            turn(final(self)@, step@) == after_opened(
                old(self)@,
                job@,
                attempt,
                wallet,
                read_view(read),
            ),
    {
        match read {
            Ok(key) => {
                self.session = Some(Session { wallet, host_device_path: job.host_device_path });
                Step::Reply(DeviceReply::Connected(Ok(key)))
            },
            Err(e) => retry_or_give_up(job, attempt, map_rw_err(e)),
        }
    }

    /// Go on after [`Step::LaunchApp`].
    pub fn launched(
        &mut self,
        job: ConnectJob,
        error: SignerError,
        launch: Result<bool, SignerError>,
    ) -> (step: Step<W>)
        ensures
            turn(final(self)@, step@) == after_launch(
                old(self)@,
                job@,
                error@,
                launch_view(launch),
            ),
    {
        match launch {
            Ok(_) => Step::Pause { job, left: RECONNECT_ATTEMPTS },
            Err(SignerError::UserRejected(why)) => Step::Reply(
                DeviceReply::Connected(Err(SignerError::UserRejected(why))),
            ),
            Err(_) => Step::Reply(DeviceReply::Connected(Err(error))),
        }
    }

    /// Go on after [`Step::Pause`].
    pub fn paused(&mut self, job: ConnectJob, left: u8) -> (step: Step<W>)
        ensures
            turn(final(self)@, step@) == after_pause(old(self)@, job@, left),
    {
        Step::Scan { job, attempt: Attempt::Retry { left: left.saturating_sub(1) } }
    }

    /// Go on after [`Step::SignTransaction`] or [`Step::SignOffchain`].
    pub fn signed(&mut self, signed: Result<[u8; 64], WalletError>) -> (step: Step<W>)
        ensures
            turn(final(self)@, step@) == after_signing(old(self)@, signed_view(signed)),
    {
        match signed {
            Ok(signature) => Step::Reply(DeviceReply::Signed(Ok(signature))),
            Err(e) => {
                self.session = None;
                Step::Reply(DeviceReply::Signed(Err(map_rw_err(e))))
            },
        }
    }

    /// Go on after [`Step::ProbeCached`].
    pub fn probed(&mut self, read: Result<[u8; 32], WalletError>) -> (step: Step<W>)
        ensures
            turn(final(self)@, step@) == after_probe(old(self)@, read_view(read)),
    {
        match read {
            Ok(_) => Step::Reply(DeviceReply::Probed(true)),
            Err(_) => {
                self.session = None;
                Step::Reply(DeviceReply::Probed(false))
            },
        }
    }

    /// Go on after [`Step::ListVendors`].
    pub fn listed(&mut self, vendor_ids: Option<Vec<u16>>) -> (step: Step<W>)
        ensures
            turn(final(self)@, step@) == after_listing(old(self)@, vendors_view(vendor_ids)),
    {
        Step::Reply(DeviceReply::Probed(any_ledger_attached(vendor_ids)))
    }

    /// Close a command once its reply was handed over, or could not be.
    ///
    /// The completion counts either way.
    pub fn respond(&mut self, health: &mut ActorHealth, delivered: bool)
        ensures
            final(self)@ == after_reply(old(self)@, delivered),
            *final(health) == old(health).after_completed(),
    {
        if !delivered {
            self.session = None;
        }
        mark_completed(health);
    }
}

/// Nothing is lost between what the thread holds and what is said of it: a session,
/// a job, an answer and a turn are all of their fields.
pub proof fn what_the_thread_holds_is_kept<W>(
    s: Session<W>,
    job: ConnectJob,
    session: Option<SessionView<W>>,
    step: StepView<W>,
)
    ensures
        cached(Some(s)) matches Some(v) && v.wallet == s.wallet && v.host == (
        match s.host_device_path {
            Some(host) => Some(host@),
            None => None,
        }),
        cached(None::<Session<W>>) is None,
        job@.path == job.path_str@,
        job@.confirm == job.confirm_pubkey_on_device,
        job@.auto_open == job.auto_open_app,
        job@.host == (match job.host_device_path {
            Some(host) => Some(host@),
            None => None,
        }),
        turn(session, step).session == session,
        turn(session, step).step == step,
{
}

/// Nothing is lost between a step and what is said of it.
pub proof fn a_step_is_all_of_its_fields<W>(
    job: ConnectJob,
    attempt: Attempt,
    wallet: W,
    error: SignerError,
    left: u8,
    path_str: String,
    message: Vec<u8>,
    reply: DeviceReply,
)
    ensures
        Step::<W>::ReadCached(job)@ == StepView::<W>::ReadCached(job@),
        (Step::<W>::Scan { job, attempt })@ == StepView::<W>::Scan(job@, attempt),
        (Step::ReadOpened { job, attempt, wallet })@ == StepView::ReadOpened(
            job@,
            attempt,
            wallet,
        ),
        (Step::<W>::LaunchApp { job, error })@ == StepView::<W>::LaunchApp(job@, error@),
        (Step::<W>::Pause { job, left })@ == StepView::<W>::Pause(job@, left),
        (Step::<W>::SignTransaction { path_str, message })@ == (StepView::<W>::SignTransaction {
            path: path_str@,
            message: message@,
        }),
        (Step::<W>::SignOffchain { path_str, message })@ == (StepView::<W>::SignOffchain {
            path: path_str@,
            message: message@,
        }),
        (Step::<W>::ProbeCached { path_str })@ == (StepView::<W>::ProbeCached { path: path_str@ }),
        Step::<W>::ListVendors@ == StepView::<W>::ListVendors,
        Step::<W>::Reply(reply)@ == StepView::<W>::Reply(reply@),
{
}

/// What the device answered is taken as it is: bytes as bytes, an error as the
/// report of that error, a listing as the ids on it.
pub proof fn an_answer_is_taken_as_it_is(
    key: [u8; 32],
    signature: [u8; 64],
    e: WalletError,
    launched: bool,
    why: SignerError,
    ids: Vec<u16>,
)
    ensures
        read_view(Ok(key)) == Ok::<Seq<u8>, ErrorView>(key@),
        read_view(Err(e)) == Err::<Seq<u8>, ErrorView>(wallet_failure(e)),
        signed_view(Ok(signature)) == Ok::<Seq<u8>, ErrorView>(signature@),
        signed_view(Err(e)) == Err::<Seq<u8>, ErrorView>(wallet_failure(e)),
        launch_view(Ok(launched)) == Ok::<bool, ErrorView>(launched),
        launch_view(Err(why)) == Err::<bool, ErrorView>(why@),
        vendors_view(Some(ids)) == Some(ids@),
        vendors_view(None) == None::<Seq<u16>>,
{
}

/// How a connect begins, in terms of what was asked.
///
/// A path that does not parse is refused and touches nothing. Otherwise the cached
/// wallet is asked exactly if it was opened for the same host path and no
/// confirmation on the screen is wanted; in every other case, and always where one
/// is wanted, the session is dropped and the bus enumerated. Either way the job that
/// is carried on is the one that was asked for, field by field.
pub proof fn a_connect_begins_as_asked<W>(
    session: Option<SessionView<W>>,
    path: Seq<char>,
    confirm: bool,
    host: Option<Seq<char>>,
    auto_open: bool,
)
    ensures
        ({
            let t = begin(session, CommandView::Connect { path, confirm, host, auto_open });
            let job = JobView { path, confirm, host, auto_open };
            &&& path_fault(path) matches Some(text) ==> t.session == session && t.step
                == StepView::<W>::Reply(
                ReplyView::Connected(
                    Err(
                        ErrorView {
                            kind: ErrorKind::ConfigError,
                            detail: "invalid derivation path: "@ + text,
                        },
                    ),
                ),
            )
            &&& path_fault(path) is None && confirm ==> t.session is None && t.step
                == StepView::<W>::Scan(job, Attempt::First)
            &&& path_fault(path) is None && session is None ==> t.session is None && t.step
                == StepView::<W>::Scan(job, Attempt::First)
            &&& path_fault(path) is None && session is Some && session->0.host != host
                ==> t.session is None && t.step == StepView::<W>::Scan(job, Attempt::First)
            &&& path_fault(path) is None && session is Some && session->0.host == host && !confirm
                ==> t.session == session && t.step == StepView::<W>::ReadCached(job)
        }),
{
}

/// How a signing or a liveness probe begins: the session is left alone, and the
/// device is reached with exactly what was asked if there is one; without one, or
/// with a path that does not parse, it is answered on the spot.
pub proof fn a_command_on_the_session_begins_as_asked<W>(
    session: Option<SessionView<W>>,
    path: Seq<char>,
    message: Seq<u8>,
)
    ensures
        ({
            let tx = begin(session, CommandView::SignTransactionMessage { path, message });
            let off = begin(session, CommandView::SignOffchainMessage { path, message });
            let probe = begin(session, CommandView::IsAvailable { path });
            let why = match path_fault(path) {
                Some(text) => ErrorView {
                    kind: ErrorKind::ConfigError,
                    detail: "invalid derivation path: "@ + text,
                },
                None => ErrorView {
                    kind: ErrorKind::NotAvailable,
                    detail: "no Ledger session; connect first"@,
                },
            };
            &&& tx.session == session && off.session == session && probe.session == session
            &&& path_fault(path) is None && session is Some ==> {
                &&& tx.step == (StepView::<W>::SignTransaction { path, message })
                &&& off.step == (StepView::<W>::SignOffchain { path, message })
                &&& probe.step == (StepView::<W>::ProbeCached { path })
            }
            &&& path_fault(path) is Some || session is None ==> {
                &&& tx.step == StepView::<W>::Reply(ReplyView::Signed(Err(why)))
                &&& off.step == StepView::<W>::Reply(ReplyView::Signed(Err(why)))
                &&& probe.step == StepView::<W>::Reply(ReplyView::Probed(false))
            }
        }),
        begin(session, CommandView::IsAttached).session == session,
        begin(session, CommandView::IsAttached).step == StepView::<W>::ListVendors,
{
}

/// `t` is what a failed attempt at a session leads to: a decline ends the connect at
/// once; so does a first failure where nothing may be launched, and the last of the
/// retries; otherwise the app is launched, or the next retry waited for. The job and
/// the session are carried on as they are.
pub open spec fn goes_on_after_failure<W>(
    t: Turn<W>,
    session: Option<SessionView<W>>,
    job: JobView,
    attempt: Attempt,
    e: ErrorView,
) -> bool {
    &&& t.session == session
    &&& e.kind is UserRejected ==> t.step == StepView::<W>::Reply(ReplyView::Connected(Err(e)))
    &&& !(e.kind is UserRejected) ==> match attempt {
        Attempt::First => {
            &&& job.auto_open ==> t.step == StepView::<W>::LaunchApp(job, e)
            &&& !job.auto_open ==> t.step == StepView::<W>::Reply(ReplyView::Connected(Err(e)))
        },
        Attempt::Retry { left } => {
            &&& left > 0 ==> t.step == StepView::<W>::Pause(job, left)
            &&& left == 0 ==> t.step == StepView::<W>::Reply(ReplyView::Connected(Err(e)))
        },
    }
}

/// How a connect goes on, in terms of what the last exchange came to.
///
/// A cached wallet that answers gives the key and stays; one that does not is
/// dropped, and the bus enumerated for the same job. A scan that leads to a wallet
/// has its key read; a key that is read makes a session for the host path asked for.
/// Every failure goes on as [`goes_on_after_failure`] says.
pub proof fn a_connect_goes_on_as_asked<W>(
    session: Option<SessionView<W>>,
    job: JobView,
    attempt: Attempt,
    outcome: ScanOutcome<W>,
    wallet: W,
    key: Seq<u8>,
    e: ErrorView,
)
    ensures
        after_cached(session, job, Ok(key)).session == session,
        after_cached(session, job, Ok(key)).step == StepView::<W>::Reply(
            ReplyView::Connected(Ok(key)),
        ),
        after_cached(session, job, Err(e)).session is None,
        after_cached(session, job, Err(e)).step == StepView::<W>::Scan(job, Attempt::First),
        scan_result(outcome, job.host) matches Ok(chosen) ==> after_scan(
            session,
            job,
            attempt,
            outcome,
        ).session == session && after_scan(session, job, attempt, outcome).step
            == StepView::ReadOpened(job, attempt, chosen),
        scan_result(outcome, job.host) matches Err(why) ==> goes_on_after_failure(
            after_scan(session, job, attempt, outcome),
            session,
            job,
            attempt,
            why,
        ),
        after_opened(session, job, attempt, wallet, Ok(key)).session == Some(
            SessionView { wallet, host: job.host },
        ),
        after_opened(session, job, attempt, wallet, Ok(key)).step == StepView::<W>::Reply(
            ReplyView::Connected(Ok(key)),
        ),
        goes_on_after_failure(
            after_opened(session, job, attempt, wallet, Err(e)),
            session,
            job,
            attempt,
            e,
        ),
{
}

/// What a launch leads to: where it succeeds, whether or not the app had to be
/// started, up to twenty retries of the same job; where the user declined it, that
/// decline; and where it failed otherwise, the error that led to it. A pause uses up
/// one retry.
pub proof fn a_launch_goes_on_as_asked<W>(
    session: Option<SessionView<W>>,
    job: JobView,
    e: ErrorView,
    why: ErrorView,
    launched: bool,
    left: u8,
)
    ensures
        after_launch(session, job, e, Ok(launched)).session == session,
        after_launch(session, job, e, Ok(launched)).step == StepView::<W>::Pause(job, 20),
        after_launch(session, job, e, Err(why)).session == session,
        why.kind is UserRejected ==> after_launch(session, job, e, Err(why)).step
            == StepView::<W>::Reply(ReplyView::Connected(Err(why))),
        !(why.kind is UserRejected) ==> after_launch(session, job, e, Err(why)).step
            == StepView::<W>::Reply(ReplyView::Connected(Err(e))),
        after_pause(session, job, left).session == session,
        left > 0 ==> after_pause(session, job, left).step == StepView::<W>::Scan(
            job,
            Attempt::Retry { left: (left - 1) as u8 },
        ),
        left == 0 ==> after_pause(session, job, left).step == StepView::<W>::Scan(
            job,
            Attempt::Retry { left: 0 },
        ),
{
}

/// What a signing, a probe or a look at the bus leads to: the device's own answer,
/// with the session kept exactly where the device did answer; and a reply that
/// nobody took costs the session.
pub proof fn an_answer_is_passed_on<W>(
    session: Option<SessionView<W>>,
    bytes: Seq<u8>,
    e: ErrorView,
    ids: Seq<u16>,
)
    ensures
        after_signing(session, Ok(bytes)).session == session,
        after_signing(session, Ok(bytes)).step == StepView::<W>::Reply(
            ReplyView::Signed(Ok(bytes)),
        ),
        after_signing(session, Err(e)).session is None,
        after_signing(session, Err(e)).step == StepView::<W>::Reply(ReplyView::Signed(Err(e))),
        after_probe(session, Ok(bytes)).session == session,
        after_probe(session, Ok(bytes)).step == StepView::<W>::Reply(ReplyView::Probed(true)),
        after_probe(session, Err(e)).session is None,
        after_probe(session, Err(e)).step == StepView::<W>::Reply(ReplyView::Probed(false)),
        after_listing(session, Some(ids)).session == session,
        after_listing(session, Some(ids)).step == StepView::<W>::Reply(
            ReplyView::Probed(ids.contains(0x2c97)),
        ),
        after_listing(session, None).session == session,
        after_listing(session, None).step == StepView::<W>::Reply(ReplyView::Probed(false)),
        after_reply(session, true) == session,
        after_reply(session, false) is None,
{
}

} // verus!
