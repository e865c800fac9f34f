//! One exchange with the device thread, from the caller's side.
//!
//! The waiting itself happens outside: a caller asks whether it may send, sends,
//! waits, and hands back what became of it, with the ticket that it was given.

use vstd::prelude::*;

use crate::command::{CommandView, DeviceCommand};
use crate::error::{failure, ErrorKind, ErrorView, SignerError};
use crate::health::{
    check_actor_responsive, mark_given_up, mark_issued, mark_unsent, still_blocked, ActorHealth,
};
use crate::text::{decimal, decimal_string, join3};
use crate::timeout::{fast_command_timeout, Timeout, FAST_COMMAND_TIMEOUT};

verus! {

/// A command to send, and how long to wait for its reply.
///
/// Requests are sent in the order in which they were issued.
pub struct DeviceRequest {
    pub command: DeviceCommand,
    pub timeout: Timeout,
    /// The count of finished commands at which this one is done.
    pub ticket: u64,
}

/// What a request asks for.
#[verifier::ext_equal]
pub struct RequestView {
    pub command: CommandView,
    pub timeout: Timeout,
}

/// Something to carry out, with the ticket under which it was issued.
#[verifier::ext_equal]
pub struct Issued<T> {
    pub plan: T,
    pub ticket: u64,
}

impl View for DeviceRequest {
    type V = Issued<RequestView>;

    open spec fn view(&self) -> Issued<RequestView> {
        Issued {
            plan: RequestView { command: self.command@, timeout: self.timeout },
            ticket: self.ticket,
        }
    }
}

/// What became of a command that a caller sent and waited on.
pub enum Delivery<T> {
    /// The device thread was not there to take it.
    NotSent,
    /// The reply.
    Replied(T),
    /// No reply came in time.
    TimedOut,
    /// The device thread went away without replying.
    Disconnected,
}

/// A probe either has its answer already or has to ask the device thread.
pub enum Probe {
    Answered(bool),
    Ask(DeviceRequest),
}

/// The mathematical value of a [`Probe`].
#[verifier::ext_equal]
pub enum ProbeView {
    Answered(bool),
    Ask(Issued<RequestView>),
}

impl View for Probe {
    type V = ProbeView;

    open spec fn view(&self) -> ProbeView {
        match self {
            Probe::Answered(b) => ProbeView::Answered(*b),
            Probe::Ask(r) => ProbeView::Ask(r@),
        }
    }
}

pub const THREAD_NOT_RUNNING: &'static str = "Ledger device thread is not running";

pub const THREAD_STOPPED: &'static str = "Ledger device thread stopped";

pub const NO_RESPONSE_WITHIN: &'static str = "Ledger did not respond within ";

pub const ANSWER_AND_RETRY: &'static str =
    "s. If a confirmation is waiting on the device screen, answer it and retry; otherwise unplug and replug the device.";

/// The error for a reply that did not come within `timeout`.
pub open spec fn no_response(timeout: Timeout) -> ErrorView {
    failure(
        ErrorKind::NotAvailable,
        NO_RESPONSE_WITHIN@ + decimal(timeout.secs() as nat) + ANSWER_AND_RETRY@,
    )
}

/// The error with which a delivery ends a request, or `None` where the reply
/// itself decides.
pub open spec fn delivery_failure<T>(delivery: Delivery<T>, timeout: Timeout) -> Option<ErrorView> {
    match delivery {
        Delivery::NotSent => Some(failure(ErrorKind::NotAvailable, THREAD_NOT_RUNNING@)),
        Delivery::Replied(_) => None,
        Delivery::TimedOut => Some(no_response(timeout)),
        Delivery::Disconnected => Some(failure(ErrorKind::NotAvailable, THREAD_STOPPED@)),
    }
}

/// The health once the caller that holds `ticket` has learnt what became of its
/// command: only giving up on one that is not done leaves a mark, and one that
/// was never sent is no longer outstanding.
pub open spec fn after_delivery<T>(
    health: ActorHealth,
    ticket: u64,
    delivery: Delivery<T>,
) -> ActorHealth {
    match delivery {
        Delivery::NotSent => health.after_unsent(),
        Delivery::Replied(_) => health,
        Delivery::TimedOut => health.after_given_up(ticket),
        Delivery::Disconnected => health,
    }
}

/// Ask to send `command` and wait up to `timeout` for its reply.
///
/// Refused at once when the device thread is wedged: the command is then never
/// sent and its timeout never starts.
pub fn request_on(health: &mut ActorHealth, timeout: Timeout, command: DeviceCommand) -> (r: Result<
    DeviceRequest,
    SignerError,
>)
    ensures
        r is Ok <==> !old(health).wedged(),
        r matches Ok(request) ==> request.command == command && request.timeout == timeout
            && request.ticket == old(health).next_ticket(),
        r matches Err(e) ==> e@ == still_blocked(),
        *final(health) == old(health).after_issued(),
{
    match check_actor_responsive(health) {
        Ok(_) => {
            let ticket: u64 = mark_issued(health);
            Ok(DeviceRequest { command, timeout, ticket })
        },
        Err(e) => Err(e),
    }
}

/// Turn what became of a request, issued with `timeout` and `ticket`, into its
/// result.
pub fn settle_request<T>(
    health: &mut ActorHealth,
    timeout: Timeout,
    ticket: u64,
    delivery: Delivery<Result<T, SignerError>>,
) -> (r: Result<T, SignerError>)
    ensures
        delivery matches Delivery::Replied(reply) ==> r == reply,
        delivery_failure(delivery, timeout) matches Some(e) ==> (r matches Err(err) && err@ == e),
        *final(health) == after_delivery(*old(health), ticket, delivery),
        delivery is TimedOut && old(health).completed >= ticket ==> *final(health) == *old(health),
{
    match delivery {
        Delivery::NotSent => {
            mark_unsent(health);
            Err(SignerError::NotAvailable(THREAD_NOT_RUNNING.to_owned()))
        },
        Delivery::Replied(reply) => reply,
        Delivery::TimedOut => {
            mark_given_up(health, ticket);
            let secs = decimal_string(timeout.as_secs());
            Err(SignerError::NotAvailable(
                join3(NO_RESPONSE_WITHIN, secs.as_str(), ANSWER_AND_RETRY),
            ))
        },
        Delivery::Disconnected => Err(SignerError::NotAvailable(THREAD_STOPPED.to_owned())),
    }
}

/// Start a probe. One that meets a wedged device thread is answered `false` on
/// the spot: a probe exists to be quick. Any other waits for as long as a
/// command that cannot involve the user.
pub fn probe_on(health: &mut ActorHealth, command: DeviceCommand) -> (probe: Probe)
    ensures
        probe@ == (if old(health).wedged() {
            ProbeView::Answered(false)
        } else {
            ProbeView::Ask(
                Issued {
                    plan: RequestView {
                        command: command@,
                        timeout: Timeout::seconds(FAST_COMMAND_TIMEOUT),
                    },
                    ticket: old(health).next_ticket(),
                },
            )
        }),
        *final(health) == old(health).after_issued(),
{
    match request_on(health, fast_command_timeout(), command) {
        Ok(request) => Probe::Ask(request),
        Err(_) => Probe::Answered(false),
    }
}

/// The answer of a probe that asked: the reply, or `false` where none came.
pub fn settle_probe(health: &mut ActorHealth, ticket: u64, delivery: Delivery<bool>) -> (answer:
    bool)
    ensures
        answer == (delivery matches Delivery::Replied(b) && b),
        *final(health) == after_delivery(*old(health), ticket, delivery),
        delivery is TimedOut && old(health).completed >= ticket ==> *final(health) == *old(health),
{
    match delivery {
        Delivery::Replied(b) => b,
        Delivery::TimedOut => {
            mark_given_up(health, ticket);
            false
        },
        Delivery::NotSent => {
            mark_unsent(health);
            false
        },
        Delivery::Disconnected => false,
    }
}

/// A request that timed out before it was done makes the next one fail fast, until
/// the device thread has finished a command. One that was done by then changes
/// nothing.
pub proof fn a_timeout_blocks_until_a_completion<T>(
    health: ActorHealth,
    ticket: u64,
    delivery: Delivery<T>,
)
    requires
        delivery is TimedOut,
    ensures
        health.completed < ticket ==> after_delivery(health, ticket, delivery).wedged()
            && !after_delivery(health, ticket, delivery).after_completed().wedged(),
        health.completed >= ticket ==> after_delivery(health, ticket, delivery) == health,
{
}

/// A request is its command, its timeout and its ticket; a probe is its answer or
/// its request.
pub proof fn a_request_is_all_of_its_fields(
    command: DeviceCommand,
    timeout: Timeout,
    ticket: u64,
    answer: bool,
)
    ensures
        ({
            let request = DeviceRequest { command, timeout, ticket };
            &&& request@.plan.command == command@
            &&& request@.plan.timeout == timeout
            &&& request@.ticket == ticket
            &&& Probe::Ask(request)@ == ProbeView::Ask(request@)
        }),
        Probe::Answered(answer)@ == ProbeView::Answered(answer),
{
}

/// Only a reply decides a request. Any other end is unavailability, and says which
/// it was; how long was waited, in whole seconds, is told where nothing came.
pub proof fn each_end_of_a_request_is_told_apart<T>(reply: T, timeout: Timeout)
    ensures
        delivery_failure(Delivery::Replied(reply), timeout) is None,
        delivery_failure(Delivery::<T>::NotSent, timeout) == Some(
            ErrorView {
                kind: ErrorKind::NotAvailable,
                detail: "Ledger device thread is not running"@,
            },
        ),
        delivery_failure(Delivery::<T>::Disconnected, timeout) == Some(
            ErrorView {
                kind: ErrorKind::NotAvailable,
                detail: "Ledger device thread stopped"@,
            },
        ),
        delivery_failure(Delivery::<T>::TimedOut, timeout) == Some(
            ErrorView {
                kind: ErrorKind::NotAvailable,
                detail: "Ledger did not respond within "@ + decimal(timeout.secs() as nat)
                    + "s. If a confirmation is waiting on the device screen, answer it and retry; otherwise unplug and replug the device."@,
            },
        ),
{
}

/// What becomes of a command touches what is known of the thread in two cases
/// only: a caller that gives up on a command that is not done sets the mark to the
/// count, and a command that was never sent is no longer outstanding.
pub proof fn only_giving_up_and_not_sending_leave_a_trace<T>(
    health: ActorHealth,
    ticket: u64,
    delivery: Delivery<T>,
)
    ensures
        ({
            let after = after_delivery(health, ticket, delivery);
            &&& after.completed == health.completed
            &&& after.abandoned_at == (if delivery is TimedOut && health.completed < ticket {
                health.completed
            } else {
                health.abandoned_at
            })
            &&& after.outstanding == (if delivery is NotSent && health.outstanding > 0 {
                health.outstanding - 1
            } else {
                health.outstanding as int
            })
        }),
{
}

} // verus!
