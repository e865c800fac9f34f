//! What serving a command comes to, whatever the device does.
//!
//! [`crate::actor`] decides one exchange at a time. Here the exchanges are
//! strung together: given everything that the world outside would answer, a
//! command has one outcome, and these are the properties of it that callers
//! rely on.

use vstd::prelude::*;

use crate::actor::{
    after_cached, after_failure, after_launch, after_listing, after_opened, after_pause,
    after_probe, after_reply, after_scan, after_signing, begin, begin_connect, no_session, reusable,
    session_fault, turn, Attempt, JobView, SessionView, StepView, Turn, RECONNECT_ATTEMPTS,
};
use crate::command::{answers, CommandView, ReplyView};
use crate::derivation::{invalid_path, path_fault};
use crate::error::ErrorView;
use crate::health::ActorHealth;
use crate::selection::{scan_result, ScanOutcome, LEDGER_VID};

verus! {

/// What the world outside answers to each exchange. The argument tells the
/// exchanges of one command apart: it is the number of exchanges that the
/// command can still need, so it falls with every one.
#[verifier::reject_recursive_types(W)]
pub struct World<W> {
    pub cached: spec_fn(nat) -> Result<Seq<u8>, ErrorView>,
    pub scan: spec_fn(nat) -> ScanOutcome<W>,
    pub opened: spec_fn(nat) -> Result<Seq<u8>, ErrorView>,
    pub launch: spec_fn(nat) -> Result<bool, ErrorView>,
    pub signed: spec_fn(nat) -> Result<Seq<u8>, ErrorView>,
    pub vendors: spec_fn(nat) -> Option<Seq<u16>>,
}

/// How many exchanges the device thread can still need before it replies.
pub open spec fn exchanges_left<W>(step: StepView<W>) -> nat {
    match step {
        StepView::ReadCached(_) => 3 * RECONNECT_ATTEMPTS as nat + 4,
        StepView::Scan(_, Attempt::First) => 3 * RECONNECT_ATTEMPTS as nat + 3,
        StepView::ReadOpened(_, Attempt::First, _) => 3 * RECONNECT_ATTEMPTS as nat + 2,
        StepView::LaunchApp(_, _) => 3 * RECONNECT_ATTEMPTS as nat + 1,
        StepView::Pause(_, left) => if left > 0 {
            3 * left as nat
        } else {
            3
        },
        StepView::Scan(_, Attempt::Retry { left }) => 3 * left as nat + 2,
        StepView::ReadOpened(_, Attempt::Retry { left }, _) => 3 * left as nat + 1,
        StepView::SignTransaction { .. } => 1,
        StepView::SignOffchain { .. } => 1,
        StepView::ProbeCached { .. } => 1,
        StepView::ListVendors => 1,
        StepView::Reply(_) => 0,
    }
}

/// The session kept and the reply given once a command is served.
#[verifier::ext_equal]
pub struct Served<W> {
    pub session: Option<SessionView<W>>,
    pub reply: ReplyView,
}

/// The outcome of going on from `t` until the reply.
pub open spec fn serve<W>(t: Turn<W>, world: World<W>) -> Served<W>
    decreases exchanges_left(t.step),
{
    let n = exchanges_left(t.step);
    match t.step {
        StepView::ReadCached(job) => serve(
            after_cached(t.session, job, (world.cached)(n)),
            world,
        ),
        StepView::Scan(job, attempt) => serve(
            after_scan(t.session, job, attempt, (world.scan)(n)),
            world,
        ),
        StepView::ReadOpened(job, attempt, wallet) => serve(
            after_opened(t.session, job, attempt, wallet, (world.opened)(n)),
            world,
        ),
        StepView::LaunchApp(job, e) => serve(
            after_launch(t.session, job, e, (world.launch)(n)),
            world,
        ),
        StepView::Pause(job, left) => serve(after_pause(t.session, job, left), world),
        StepView::SignTransaction { path, message } => serve(
            after_signing(t.session, (world.signed)(n)),
            world,
        ),
        StepView::SignOffchain { path, message } => serve(
            after_signing(t.session, (world.signed)(n)),
            world,
        ),
        StepView::ProbeCached { path } => serve(after_probe(t.session, (world.cached)(n)), world),
        StepView::ListVendors => serve(after_listing(t.session, (world.vendors)(n)), world),
        StepView::Reply(reply) => Served { session: t.session, reply },
    }
}

/// The outcome of serving `command` with `session` cached.
pub open spec fn served<W>(
    session: Option<SessionView<W>>,
    command: CommandView,
    world: World<W>,
) -> Served<W> {
    serve(begin(session, command), world)
}

/// A step on the way to a connect's reply.
pub open spec fn connecting<W>(step: StepView<W>, job: JobView) -> bool {
    match step {
        StepView::ReadCached(j) => j == job,
        StepView::Scan(j, _) => j == job,
        StepView::ReadOpened(j, _, _) => j == job,
        StepView::LaunchApp(j, _) => j == job,
        StepView::Pause(j, _) => j == job,
        StepView::Reply(ReplyView::Connected(_)) => true,
        _ => false,
    }
}

/// What a turn on the way to a connect's reply keeps of the session: only the
/// one that it is about to reuse.
pub open spec fn connect_invariant<W>(t: Turn<W>, job: JobView) -> bool {
    &&& connecting(t.step, job)
    &&& match t.step {
        StepView::ReadCached(_) => reusable(t.session, job),
        StepView::Reply(ReplyView::Connected(Ok(_))) => t.session matches Some(s) && s.host
            == job.host,
        _ => t.session is None,
    }
}

proof fn connect_ends_well<W>(t: Turn<W>, job: JobView, world: World<W>)
    requires
        connect_invariant(t, job),
    ensures
        serve(t, world).reply matches ReplyView::Connected(r) && match r {
            Ok(_) => serve(t, world).session matches Some(s) && s.host == job.host,
            Err(_) => serve(t, world).session is None,
        },
    decreases exchanges_left(t.step),
{
    let n = exchanges_left(t.step);
    match t.step {
        StepView::ReadCached(j) => {
            connect_ends_well(after_cached(t.session, j, (world.cached)(n)), job, world);
        },
        StepView::Scan(j, attempt) => {
            connect_ends_well(after_scan(t.session, j, attempt, (world.scan)(n)), job, world);
        },
        StepView::ReadOpened(j, attempt, wallet) => {
            connect_ends_well(
                after_opened(t.session, j, attempt, wallet, (world.opened)(n)),
                job,
                world,
            );
        },
        StepView::LaunchApp(j, e) => {
            connect_ends_well(after_launch(t.session, j, e, (world.launch)(n)), job, world);
        },
        StepView::Pause(j, left) => {
            connect_ends_well(after_pause(t.session, j, left), job, world);
        },
        _ => {},
    }
}

/// The command that asks for `job`.
pub open spec fn connect_command(job: JobView) -> CommandView {
    CommandView::Connect {
        path: job.path,
        confirm: job.confirm,
        host: job.host,
        auto_open: job.auto_open,
    }
}

/// A connect that succeeds leaves a session on the device it asked for, and one
/// that fails leaves none. Only a path that does not parse leaves the session
/// alone, because the device is never troubled with it.
pub proof fn a_connect_leaves_its_own_session_or_none<W>(
    session: Option<SessionView<W>>,
    job: JobView,
    world: World<W>,
)
    ensures
        path_fault(job.path) is None ==> (served(
            session,
            connect_command(job),
            world,
        ).reply matches ReplyView::Connected(r) && match r {
            Ok(_) => served(session, connect_command(job), world).session matches Some(s)
                && s.host == job.host,
            Err(_) => served(session, connect_command(job), world).session is None,
        }),
        path_fault(job.path) matches Some(text) ==> served(session, connect_command(job), world)
            == (Served::<W> {
            session,
            reply: ReplyView::Connected(Err(invalid_path(text))),
        }),
{
    if path_fault(job.path) is None {
        connect_ends_well(begin_connect(session, job), job, world);
    }
}

/// A connect that asks for another device than the cached one, or for an
/// on-screen confirmation, is served as if nothing were cached.
pub proof fn an_unusable_session_is_never_used<W>(
    session: Option<SessionView<W>>,
    job: JobView,
    world: World<W>,
)
    requires
        path_fault(job.path) is None,
        !reusable(session, job),
    ensures
        served(session, connect_command(job), world) == served(None, connect_command(job), world),
{
}

/// A cached session that answers is reused: nothing is enumerated, the session
/// stays, and the key is the one that its wallet gave.
pub proof fn a_live_session_is_reused<W>(
    session: Option<SessionView<W>>,
    job: JobView,
    world: World<W>,
)
    requires
        path_fault(job.path) is None,
        reusable(session, job),
        (world.cached)(3 * RECONNECT_ATTEMPTS as nat + 4) is Ok,
    ensures
        served(session, connect_command(job), world) == (Served::<W> {
            session,
            reply: ReplyView::Connected((world.cached)(3 * RECONNECT_ATTEMPTS as nat + 4)),
        }),
{
    let t = begin_connect(session, job);
    let next = after_cached(session, job, (world.cached)(exchanges_left(t.step)));
    assert(serve(t, world) == serve(next, world));
    assert(serve(next, world).session == session);
}

/// A cached session that does not answer makes no difference: the connect goes
/// on as if nothing were cached.
pub proof fn a_stale_session_is_rebuilt<W>(
    session: Option<SessionView<W>>,
    job: JobView,
    world: World<W>,
)
    requires
        path_fault(job.path) is None,
        reusable(session, job),
        (world.cached)(3 * RECONNECT_ATTEMPTS as nat + 4) is Err,
    ensures
        served(session, connect_command(job), world) == served(None, connect_command(job), world),
{
    let t = begin_connect(session, job);
    let next = after_cached(session, job, (world.cached)(exchanges_left(t.step)));
    assert(serve(t, world) == serve(next, world));
    assert(next == begin_connect::<W>(None, job));
}

/// What one attempt at a session comes to: enumerate, choose, read the pubkey.
pub open spec fn attempted<W>(job: JobView, attempt: Attempt, world: World<W>) -> Result<
    (W, Seq<u8>),
    ErrorView,
> {
    let n = exchanges_left(StepView::<W>::Scan(job, attempt));
    match scan_result((world.scan)(n), job.host) {
        Ok(wallet) => match (world.opened)((n - 1) as nat) {
            Ok(key) => Ok((wallet, key)),
            Err(e) => Err(e),
        },
        Err(e) => Err(e),
    }
}

/// The outcome of a connect whose attempts came to `r`.
pub open spec fn connected<W>(job: JobView, r: Result<(W, Seq<u8>), ErrorView>) -> Served<W> {
    match r {
        Ok((wallet, key)) => Served {
            session: Some(SessionView { wallet, host: job.host }),
            reply: ReplyView::Connected(Ok(key)),
        },
        Err(e) => Served { session: None, reply: ReplyView::Connected(Err(e)) },
    }
}

/// An attempt that the user declined on the device.
pub open spec fn declined<W>(r: Result<(W, Seq<u8>), ErrorView>) -> bool {
    r matches Err(e) && e.kind is UserRejected
}

/// What up to `left` attempts come to, one after the other: the first success or
/// the first decline, or else the last failure.
pub open spec fn retried<W>(job: JobView, left: nat, world: World<W>) -> Result<
    (W, Seq<u8>),
    ErrorView,
>
    decreases left,
{
    let r = attempted(job, Attempt::Retry { left: (left - 1) as u8 }, world);
    if r is Ok || declined(r) || left <= 1 {
        r
    } else {
        retried(job, (left - 1) as nat, world)
    }
}

/// What a connect that has to open a session comes to: one attempt; where that
/// fails, was not declined and launching the app is allowed, a launch; and where
/// that succeeds, the retries.
pub open spec fn opened<W>(job: JobView, world: World<W>) -> Result<(W, Seq<u8>), ErrorView> {
    match attempted(job, Attempt::First, world) {
        Ok(r) => Ok(r),
        Err(e) => if e.kind is UserRejected || !job.auto_open {
            Err(e)
        } else {
            match (world.launch)(3 * RECONNECT_ATTEMPTS as nat + 1) {
                Ok(_) => retried(job, RECONNECT_ATTEMPTS as nat, world),
                Err(why) => if why.kind is UserRejected {
                    Err(why)
                } else {
                    Err(e)
                },
            }
        },
    }
}

proof fn attempt_then_failure<W>(job: JobView, attempt: Attempt, world: World<W>)
    ensures
        serve(turn(None, StepView::Scan(job, attempt)), world) == (match attempted(
            job,
            attempt,
            world,
        ) {
            Ok(r) => connected(job, Ok::<(W, Seq<u8>), ErrorView>(r)),
            Err(e) => serve(after_failure(None, job, attempt, e), world),
        }),
{
    reveal_with_fuel(serve, 3);
    let t = turn(None, StepView::Scan(job, attempt));
    let n = exchanges_left(t.step);
    let next = after_scan(None, job, attempt, (world.scan)(n));
    assert(serve(t, world) == serve(next, world));
    match scan_result((world.scan)(n), job.host) {
        Ok(wallet) => {
            assert(exchanges_left(next.step) == n - 1);
            let last = after_opened(None, job, attempt, wallet, (world.opened)((n - 1) as nat));
            assert(serve(next, world) == serve(last, world));
        },
        Err(e) => {},
    }
}

proof fn retries_run<W>(job: JobView, left: u8, world: World<W>)
    requires
        left > 0,
    ensures
        serve(turn(None, StepView::Pause(job, left)), world) == connected(
            job,
            retried(job, left as nat, world),
        ),
    decreases left,
{
    let t = turn(None, StepView::Pause(job, left));
    let attempt = Attempt::Retry { left: (left - 1) as u8 };
    assert(serve(t, world) == serve(turn(None, StepView::Scan(job, attempt)), world));
    attempt_then_failure(job, attempt, world);
    if left > 1 {
        retries_run(job, (left - 1) as u8, world);
    }
}

/// How a connect that cannot reuse a session runs, from beginning to end: as
/// [`opened`] describes it.
pub proof fn a_fresh_connect_runs_as_described<W>(
    session: Option<SessionView<W>>,
    job: JobView,
    world: World<W>,
)
    requires
        path_fault(job.path) is None,
        !reusable(session, job),
    ensures
        served(session, connect_command(job), world) == connected(job, opened(job, world)),
{
    attempt_then_failure(job, Attempt::First, world);
    match attempted(job, Attempt::First, world) {
        Ok(_) => {},
        Err(e) => {
            if job.auto_open && !(e.kind is UserRejected) {
                let n = 3 * RECONNECT_ATTEMPTS as nat + 1;
                let t = turn::<W>(None, StepView::LaunchApp(job, e));
                let next = after_launch::<W>(None, job, e, (world.launch)(n));
                assert(serve(t, world) == serve(next, world));
                if (world.launch)(n) is Ok {
                    retries_run(job, RECONNECT_ATTEMPTS, world);
                }
            }
        },
    }
}

/// Without permission to launch the app, a connect is one attempt: nothing is
/// written to the dashboard and the error is the one that the attempt gave.
pub proof fn no_launch_without_permission<W>(job: JobView, world: World<W>)
    requires
        !job.auto_open,
    ensures
        opened(job, world) == attempted(job, Attempt::First, world),
{
}

/// Declining the launch prompt on the device is surfaced as a decline; a launch
/// that fails in any other way keeps the connect's own error.
pub proof fn a_declined_launch_is_surfaced<W>(job: JobView, world: World<W>, why: ErrorView)
    requires
        job.auto_open,
        attempted(job, Attempt::First, world) is Err,
        !declined(attempted(job, Attempt::First, world)),
        (world.launch)(3 * RECONNECT_ATTEMPTS as nat + 1) == Err::<bool, ErrorView>(why),
    ensures
        why.kind is UserRejected ==> opened(job, world) == Err::<(W, Seq<u8>), ErrorView>(why),
        !(why.kind is UserRejected) ==> opened(job, world) == attempted(
            job,
            Attempt::First,
            world,
        ),
{
}

/// A decline on the device is always surfaced, whether or not the app may be
/// launched: a connect whose first attempt is declined ends with that decline,
/// and leaves no session.
pub proof fn a_declined_attempt_is_surfaced<W>(
    session: Option<SessionView<W>>,
    job: JobView,
    world: World<W>,
    e: ErrorView,
)
    requires
        attempted(job, Attempt::First, world) == Err::<(W, Seq<u8>), ErrorView>(e),
        e.kind is UserRejected,
    ensures
        opened(job, world) == Err::<(W, Seq<u8>), ErrorView>(e),
        path_fault(job.path) is None && !reusable(session, job) ==> served(
            session,
            connect_command(job),
            world,
        ) == (Served::<W> { session: None, reply: ReplyView::Connected(Err(e)) }),
{
    if path_fault(job.path) is None && !reusable(session, job) {
        a_fresh_connect_runs_as_described(session, job, world);
    }
}

/// The retry with `k` more to go is reached: every one before it failed, and none
/// of those was declined.
pub open spec fn reached<W>(job: JobView, left: u8, k: u8, world: World<W>) -> bool {
    &&& k < left
    &&& forall|j: u8|
        k < j < left ==> (#[trigger] attempted(job, Attempt::Retry { left: j }, world)) is Err
            && !declined(attempted(job, Attempt::Retry { left: j }, world))
}

/// A decline during a retry ends the retries with that decline: nothing is tried
/// again behind the user's back.
pub proof fn a_declined_retry_is_surfaced<W>(job: JobView, left: u8, k: u8, world: World<W>)
    requires
        reached(job, left, k, world),
        declined(attempted(job, Attempt::Retry { left: k }, world)),
    ensures
        retried(job, left as nat, world) == attempted(job, Attempt::Retry { left: k }, world),
    decreases left,
{
    let last = (left - 1) as u8;
    if k != last {
        assert(attempted(job, Attempt::Retry { left: last }, world) is Err);
        a_declined_retry_is_surfaced(job, last, k, world);
    }
}

/// Once the app is launched, a connect succeeds exactly if one of the retries
/// that it reaches does.
pub proof fn retries_succeed_if_one_does<W>(job: JobView, left: u8, world: World<W>)
    requires
        left > 0,
    ensures
        retried(job, left as nat, world) is Ok <==> exists|k: u8|
            reached(job, left, k, world) && (#[trigger] attempted(
                job,
                Attempt::Retry { left: k },
                world,
            )) is Ok,
    decreases left,
{
    let last = (left - 1) as u8;
    let r = attempted(job, Attempt::Retry { left: last }, world);
    assert(reached(job, left, last, world));
    if left > 1 && r is Err && !declined(r) {
        retries_succeed_if_one_does(job, last, world);
        assert forall|k: u8| k < last implies #[trigger] reached(job, last, k, world) == reached(
            job,
            left,
            k,
            world,
        ) by {
            if reached(job, last, k, world) {
                assert forall|j: u8| k < j < left implies (#[trigger] attempted(
                    job,
                    Attempt::Retry { left: j },
                    world,
                )) is Err && !declined(attempted(job, Attempt::Retry { left: j }, world)) by {
                    if j != last {
                        assert(j < last);
                    }
                }
            }
        }
        if retried(job, last as nat, world) is Ok {
            let k = choose|k: u8|
                reached(job, last, k, world) && (#[trigger] attempted(
                    job,
                    Attempt::Retry { left: k },
                    world,
                )) is Ok;
            assert(reached(job, left, k, world));
        }
    }
    if exists|k: u8|
        reached(job, left, k, world) && (#[trigger] attempted(
            job,
            Attempt::Retry { left: k },
            world,
        )) is Ok {
        let k = choose|k: u8|
            reached(job, left, k, world) && (#[trigger] attempted(
                job,
                Attempt::Retry { left: k },
                world,
            )) is Ok;
        if k != last {
            assert(k < last);
            assert(r is Err && !declined(r));
            assert(reached(job, last, k, world));
        }
    }
}

/// A signing command with a session hands the device's answer back, and keeps
/// the session only if the device did sign.
pub proof fn a_failed_signing_drops_the_session<W>(
    session: Option<SessionView<W>>,
    path: Seq<char>,
    message: Seq<u8>,
    world: World<W>,
)
    requires
        session_fault(session, path) is None,
    ensures
        served(session, CommandView::SignTransactionMessage { path, message }, world) == (Served::<W> {
            session: if (world.signed)(1) is Ok {
                session
            } else {
                None
            },
            reply: ReplyView::Signed((world.signed)(1)),
        }),
        served(session, CommandView::SignOffchainMessage { path, message }, world) == served(
            session,
            CommandView::SignTransactionMessage { path, message },
            world,
        ),
{
    reveal_with_fuel(serve, 2);
}

/// Without a session nothing is signed and nothing is probed: the device is not
/// reached, and a signing says to connect first.
pub proof fn no_session_no_signature<W>(path: Seq<char>, message: Seq<u8>, world: World<W>)
    requires
        path_fault(path) is None,
    ensures
        served::<W>(None, CommandView::SignTransactionMessage { path, message }, world) == (Served::<W> {
            session: None,
            reply: ReplyView::Signed(Err(no_session())),
        }),
        served::<W>(None, CommandView::SignOffchainMessage { path, message }, world) == (Served::<W> {
            session: None,
            reply: ReplyView::Signed(Err(no_session())),
        }),
        served::<W>(None, CommandView::IsAvailable { path }, world) == (Served::<W> {
            session: None,
            reply: ReplyView::Probed(false),
        }),
{
}

/// A probe that the device does not answer drops the session, so the next
/// connect re-establishes it.
pub proof fn a_failed_probe_drops_the_session<W>(
    session: Option<SessionView<W>>,
    path: Seq<char>,
    world: World<W>,
)
    requires
        session_fault(session, path) is None,
    ensures
        served(session, CommandView::IsAvailable { path }, world) == (Served::<W> {
            session: if (world.cached)(1) is Ok {
                session
            } else {
                None
            },
            reply: ReplyView::Probed((world.cached)(1) is Ok),
        }),
{
    reveal_with_fuel(serve, 2);
}

/// Asking whether a Ledger is attached leaves the session alone, and the answer
/// is whether one is listed on the bus.
pub proof fn looking_at_the_bus_keeps_the_session<W>(
    session: Option<SessionView<W>>,
    world: World<W>,
)
    ensures
        served(session, CommandView::IsAttached, world) == (Served::<W> {
            session,
            reply: ReplyView::Probed(
                (world.vendors)(1) matches Some(ids) && ids.contains(LEDGER_VID),
            ),
        }),
{
    reveal_with_fuel(serve, 2);
}

/// A reply that nobody took leaves nothing to reuse: whatever was cached, the
/// next connect is served as by a device thread that has just started, and the
/// next signing says to connect first.
pub proof fn an_abandoned_reply_leaves_nothing_to_reuse<W>(
    session: Option<SessionView<W>>,
    command: CommandView,
    world: World<W>,
)
    ensures
        served(after_reply(session, false), command, world) == served(None, command, world),
        after_reply(session, true) == session,
{
}

/// Every command is answered, with the kind of reply it asks for, after at most
/// 64 exchanges.
pub proof fn every_command_is_answered<W>(
    session: Option<SessionView<W>>,
    command: CommandView,
    world: World<W>,
)
    ensures
        answers(served(session, command, world).reply, command),
        exchanges_left(begin(session, command).step) <= 64,
{
    reveal_with_fuel(serve, 2);
    if let CommandView::Connect { path, confirm, host, auto_open } = command {
        let job = JobView { path, confirm, host, auto_open };
        a_connect_leaves_its_own_session_or_none(session, job, world);
    }
}

/// A command in the queue of the device thread: what is asked, what the world
/// outside answers while it is served, and whether its caller still takes the
/// reply.
#[verifier::reject_recursive_types(W)]
pub struct Queued<W> {
    pub command: CommandView,
    pub world: World<W>,
    pub delivered: bool,
}

/// The device thread and what is known of it, with the replies that it has given.
#[verifier::ext_equal]
pub struct ThreadView<W> {
    pub session: Option<SessionView<W>>,
    pub health: ActorHealth,
    pub replies: Seq<ReplyView>,
}

/// The device thread once it has served one more command.
pub open spec fn serve_next<W>(thread: ThreadView<W>, next: Queued<W>) -> ThreadView<W> {
    let done = served(thread.session, next.command, next.world);
    ThreadView {
        session: after_reply(done.session, next.delivered),
        health: thread.health.after_completed(),
        replies: thread.replies.push(done.reply),
    }
}

/// The device thread once it has served `queue`, one command at a time and in the
/// order in which they were sent.
pub open spec fn serve_all<W>(
    session: Option<SessionView<W>>,
    health: ActorHealth,
    queue: Seq<Queued<W>>,
) -> ThreadView<W>
    decreases queue.len(),
{
    if queue.len() == 0 {
        ThreadView { session, health, replies: seq![] }
    } else {
        serve_next(serve_all(session, health, queue.drop_last()), queue.last())
    }
}

/// Every command in the queue gets exactly one reply, in the order in which they
/// were sent, of the kind it asks for; and each counts as one finished command,
/// whether it succeeded, failed, or its caller had gone. Serving marks nothing as
/// abandoned.
pub proof fn a_queue_is_served_in_order<W>(
    session: Option<SessionView<W>>,
    health: ActorHealth,
    queue: Seq<Queued<W>>,
)
    ensures
        serve_all(session, health, queue).replies.len() == queue.len(),
        forall|i: int|
            0 <= i < queue.len() ==> answers(
                #[trigger] serve_all(session, health, queue).replies[i],
                queue[i].command,
            ),
        health.completed + queue.len() <= u64::MAX ==> serve_all(
            session,
            health,
            queue,
        ).health.completed == health.completed + queue.len(),
        serve_all(session, health, queue).health.abandoned_at == health.abandoned_at,
    decreases queue.len(),
{
    if queue.len() > 0 {
        let rest = queue.drop_last();
        a_queue_is_served_in_order(session, health, rest);
        let before = serve_all(session, health, rest);
        let next = queue.last();
        every_command_is_answered(before.session, next.command, next.world);
        assert forall|i: int| 0 <= i < queue.len() implies answers(
            #[trigger] serve_all(session, health, queue).replies[i],
            queue[i].command,
        ) by {
            if i < rest.len() {
                assert(answers(before.replies[i], rest[i].command));
            }
        }
    }
}

/// What a command is answered depends on nothing that was sent after it: its reply
/// is what serving it comes to with the session that the commands before it left.
pub proof fn a_reply_depends_on_what_came_before<W>(
    session: Option<SessionView<W>>,
    health: ActorHealth,
    queue: Seq<Queued<W>>,
    i: int,
)
    requires
        0 <= i < queue.len(),
    ensures
        serve_all(session, health, queue).replies.len() == queue.len(),
        serve_all(session, health, queue).replies[i] == served(
            serve_all(session, health, queue.take(i)).session,
            queue[i].command,
            queue[i].world,
        ).reply,
    decreases queue.len(),
{
    let rest = queue.drop_last();
    if rest.len() > 0 {
        let j = if i < rest.len() {
            i
        } else {
            0
        };
        a_reply_depends_on_what_came_before(session, health, rest, j);
    }
    if i < rest.len() {
        assert(rest.take(i) =~= queue.take(i));
    } else {
        assert(queue.take(i) =~= rest);
    }
}

/// Serving `next` with `session` cached costs the session: the device erred while
/// it was served, or nobody took the reply.
pub open spec fn costs_the_session<W>(session: Option<SessionView<W>>, next: Queued<W>) -> bool {
    let reply = served(session, next.command, next.world).reply;
    ||| !next.delivered
    ||| match next.command {
        CommandView::Connect { path, .. } => path_fault(path) is None && reply
            matches ReplyView::Connected(Err(_)),
        CommandView::SignTransactionMessage { path, .. } => session_fault(session, path) is None
            && reply matches ReplyView::Signed(Err(_)),
        CommandView::SignOffchainMessage { path, .. } => session_fault(session, path) is None
            && reply matches ReplyView::Signed(Err(_)),
        CommandView::IsAvailable { path } => session_fault(session, path) is None && reply
            == ReplyView::Probed(false),
        CommandView::IsAttached => false,
    }
}

/// `next`, answered with `reply`, is a connect that succeeded, and its caller took
/// the key.
pub open spec fn connects<W>(next: Queued<W>, reply: ReplyView) -> bool {
    next.delivered && reply matches ReplyView::Connected(Ok(_))
}

/// What a command is answered that needs a session when there is none.
pub open spec fn sessionless_reply(command: CommandView) -> Option<ReplyView> {
    match command {
        CommandView::SignTransactionMessage { path, .. } => if path_fault(path) is None {
            Some(ReplyView::Signed(Err(no_session())))
        } else {
            None
        },
        CommandView::SignOffchainMessage { path, .. } => if path_fault(path) is None {
            Some(ReplyView::Signed(Err(no_session())))
        } else {
            None
        },
        CommandView::IsAvailable { .. } => Some(ReplyView::Probed(false)),
        _ => None,
    }
}

proof fn a_cost_is_paid<W>(session: Option<SessionView<W>>, next: Queued<W>)
    requires
        costs_the_session(session, next),
    ensures
        after_reply(served(session, next.command, next.world).session, next.delivered) is None,
{
    reveal_with_fuel(serve, 2);
    if let CommandView::Connect { path, confirm, host, auto_open } = next.command {
        let job = JobView { path, confirm, host, auto_open };
        a_connect_leaves_its_own_session_or_none(session, job, next.world);
    }
}

proof fn nothing_comes_of_nothing<W>(next: Queued<W>)
    ensures
        ({
            let done = served(None, next.command, next.world);
            &&& connects(next, done.reply) || after_reply(done.session, next.delivered) is None
            &&& sessionless_reply(next.command) matches Some(reply) ==> done.reply == reply
        }),
{
    reveal_with_fuel(serve, 2);
    if let CommandView::Connect { path, confirm, host, auto_open } = next.command {
        let job = JobView { path, confirm, host, auto_open };
        a_connect_leaves_its_own_session_or_none(None, job, next.world);
    }
}

/// Once the device has erred, or a reply was not taken, there is no session until a
/// connect succeeds: whatever else is asked in between, nothing is signed and every
/// liveness probe is answered `false`.
pub proof fn no_session_until_a_connect_succeeds<W>(
    session: Option<SessionView<W>>,
    health: ActorHealth,
    queue: Seq<Queued<W>>,
    lost: int,
)
    requires
        0 <= lost < queue.len(),
        costs_the_session(serve_all(session, health, queue.take(lost)).session, queue[lost]),
        forall|j: int|
            lost < j < queue.len() ==> !connects(
                #[trigger] queue[j],
                serve_all(session, health, queue).replies[j],
            ),
    ensures
        serve_all(session, health, queue).session is None,
        forall|j: int|
            lost < j < queue.len() ==> (sessionless_reply((#[trigger] queue[j]).command)
                matches Some(reply) ==> serve_all(session, health, queue).replies[j] == reply),
    decreases queue.len(),
{
    let rest = queue.drop_last();
    let next = queue.last();
    let before = serve_all(session, health, rest);
    let all = serve_all(session, health, queue);
    a_queue_is_served_in_order(session, health, rest);
    if lost == rest.len() {
        assert(queue.take(lost) =~= rest);
        a_cost_is_paid(before.session, next);
    } else {
        assert(rest.take(lost) =~= queue.take(lost));
        assert forall|j: int| lost < j < rest.len() implies !connects(
            #[trigger] rest[j],
            before.replies[j],
        ) by {
            assert(rest[j] == queue[j]);
            assert(all.replies[j] == before.replies[j]);
        }
        no_session_until_a_connect_succeeds(session, health, rest, lost);
        nothing_comes_of_nothing(next);
        assert(queue[queue.len() - 1] == next);
        assert forall|j: int| lost < j < queue.len() implies (sessionless_reply(
            (#[trigger] queue[j]).command,
        ) matches Some(reply) ==> all.replies[j] == reply) by {
            if j < rest.len() {
                assert(rest[j] == queue[j]);
                assert(all.replies[j] == before.replies[j]);
            }
        }
    }
}

proof fn retries_owe_nothing_to_the_cache<W>(
    job: JobView,
    left: nat,
    world1: World<W>,
    world2: World<W>,
)
    requires
        world1.scan == world2.scan,
        world1.opened == world2.opened,
    ensures
        retried(job, left, world1) == retried(job, left, world2),
    decreases left,
{
    if left > 1 {
        retries_owe_nothing_to_the_cache(job, (left - 1) as nat, world1, world2);
    }
}

/// A connect that wants a confirmation on the screen owes nothing to the cache: two
/// worlds that differ only in what a cached wallet would answer, and two device
/// threads that differ only in what they have cached, serve it alike.
pub proof fn a_confirmation_owes_nothing_to_the_cache<W>(
    session1: Option<SessionView<W>>,
    session2: Option<SessionView<W>>,
    path: Seq<char>,
    host: Option<Seq<char>>,
    auto_open: bool,
    world1: World<W>,
    world2: World<W>,
)
    requires
        path_fault(path) is None,
        world1.scan == world2.scan,
        world1.opened == world2.opened,
        world1.launch == world2.launch,
    ensures
        served(session1, CommandView::Connect { path, confirm: true, host, auto_open }, world1)
            == served(
            session2,
            CommandView::Connect { path, confirm: true, host, auto_open },
            world2,
        ),
{
    let job = JobView { path, confirm: true, host, auto_open };
    a_fresh_connect_runs_as_described(session1, job, world1);
    a_fresh_connect_runs_as_described(session2, job, world2);
    retries_owe_nothing_to_the_cache(job, RECONNECT_ATTEMPTS as nat, world1, world2);
}

/// `wallet` is one that a scan of `world` led to for `host`, and `key` one that was
/// read from a newly opened wallet.
pub open spec fn newly_opened<W>(
    world: World<W>,
    host: Option<Seq<char>>,
    wallet: W,
    key: Seq<u8>,
) -> bool {
    &&& exists|n: nat| scan_result(#[trigger] (world.scan)(n), host) == Ok::<W, ErrorView>(wallet)
    &&& exists|n: nat| #[trigger] (world.opened)(n) == Ok::<Seq<u8>, ErrorView>(key)
}

proof fn an_attempt_opens_anew<W>(job: JobView, attempt: Attempt, world: World<W>)
    ensures
        attempted(job, attempt, world) matches Ok((wallet, key)) ==> newly_opened(
            world,
            job.host,
            wallet,
            key,
        ),
{
    if attempted(job, attempt, world) is Ok {
        let n = exchanges_left(StepView::<W>::Scan(job, attempt));
        assert(scan_result((world.scan)(n), job.host) is Ok);
        assert((world.opened)((n - 1) as nat) is Ok);
    }
}

proof fn a_retry_opens_anew<W>(job: JobView, left: nat, world: World<W>)
    ensures
        retried(job, left, world) matches Ok((wallet, key)) ==> newly_opened(
            world,
            job.host,
            wallet,
            key,
        ),
    decreases left,
{
    an_attempt_opens_anew(job, Attempt::Retry { left: (left - 1) as u8 }, world);
    if left > 1 {
        a_retry_opens_anew(job, (left - 1) as nat, world);
    }
}

/// A key that a confirmed connect replies with was read from a wallet that was
/// opened for it, with the confirmation it asked for, and the session it leaves is
/// on a wallet that enumeration led to; whatever was cached before.
pub proof fn a_confirmed_key_comes_from_a_newly_opened_wallet<W>(
    session: Option<SessionView<W>>,
    path: Seq<char>,
    host: Option<Seq<char>>,
    auto_open: bool,
    world: World<W>,
)
    requires
        path_fault(path) is None,
    ensures
        ({
            let done = served(
                session,
                CommandView::Connect { path, confirm: true, host, auto_open },
                world,
            );
            done.reply matches ReplyView::Connected(Ok(key)) ==> (done.session matches Some(s)
                && s.host == host && newly_opened(world, host, s.wallet, key))
        }),
{
    let job = JobView { path, confirm: true, host, auto_open };
    a_fresh_connect_runs_as_described(session, job, world);
    an_attempt_opens_anew(job, Attempt::First, world);
    a_retry_opens_anew(job, RECONNECT_ATTEMPTS as nat, world);
}

/// A session opened for another host path is no use to a connect, and none at all
/// is no different: both are served alike.
pub proof fn a_session_on_another_device_is_no_use<W>(
    session: SessionView<W>,
    path: Seq<char>,
    confirm: bool,
    host: Option<Seq<char>>,
    auto_open: bool,
    world: World<W>,
)
    requires
        path_fault(path) is None,
        session.host != host,
    ensures
        served(Some(session), CommandView::Connect { path, confirm, host, auto_open }, world)
            == served(None, CommandView::Connect { path, confirm, host, auto_open }, world),
{
}

} // verus!
