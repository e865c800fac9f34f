//! Telling a busy device thread apart from a wedged one.
//!
//! The device thread serves one command at a time, and the read it blocks in
//! has no timeout of its own. When a caller gives up, the thread may stay stuck
//! for good, so every later caller has to be refused at once: queueing behind
//! the stuck exchange would turn one stalled prompt into a process-wide stall.
//!
//! The thread may also finish the command just as its caller gives up. Nothing is
//! stuck then, and nobody may be refused for it. So every command is issued with
//! a ticket: the count of finished commands at which it is done.

use vstd::prelude::*;

use crate::error::{failure, ErrorKind, ErrorView, SignerError};

verus! {

/// The mark that stands for "no caller has given up".
pub const NOT_ABANDONED: u64 = 0xffff_ffff_ffff_ffff;

pub const STILL_BLOCKED: &'static str =
    "the Ledger device thread is still blocked on an earlier command that timed out. Dismiss any prompt left on the device screen, or unplug and replug it, then retry.";

/// What callers know of the device thread.
#[derive(Clone, Copy, Debug, PartialEq, Eq)]
pub struct ActorHealth {
    /// Number of commands the device thread has finished, ever.
    pub completed: u64,
    /// The value of `completed` at the moment a caller last gave up waiting, or
    /// [`NOT_ABANDONED`] when no timeout is outstanding.
    pub abandoned_at: u64,
    /// Number of commands that were issued and that the device thread has not
    /// finished yet.
    pub outstanding: u64,
}

/// The error for a caller that arrives while the device thread is wedged.
pub open spec fn still_blocked() -> ErrorView {
    failure(ErrorKind::NotAvailable, STILL_BLOCKED@)
}

impl ActorHealth {
    /// The thread is still on the command that a caller gave up on.
    pub open spec fn wedged(self) -> bool {
        self.abandoned_at != NOT_ABANDONED && self.completed <= self.abandoned_at
    }

    /// The mark never runs ahead of the count it was taken from.
    pub open spec fn consistent(self) -> bool {
        self.abandoned_at == NOT_ABANDONED || self.abandoned_at <= self.completed
    }

    /// This health once a caller has given up.
    pub open spec fn after_abandoned(self) -> ActorHealth {
        ActorHealth { abandoned_at: self.completed, ..self }
    }

    /// The ticket of a command that is issued now: the count at which it is
    /// done, behind everything that is outstanding.
    pub open spec fn next_ticket(self) -> u64 {
        if self.completed + self.outstanding + 1 > u64::MAX {
            u64::MAX
        } else {
            (self.completed + self.outstanding + 1) as u64
        }
    }

    /// This health once a caller has asked to issue a command: refused while the
    /// thread is wedged, and outstanding from then on otherwise.
    pub open spec fn after_issued(self) -> ActorHealth {
        if self.wedged() {
            self
        } else {
            ActorHealth {
                outstanding: if self.outstanding == u64::MAX {
                    u64::MAX
                } else {
                    (self.outstanding + 1) as u64
                },
                ..self.after_checked()
            }
        }
    }

    /// This health once an issued command could not be sent after all.
    pub open spec fn after_unsent(self) -> ActorHealth {
        ActorHealth {
            outstanding: if self.outstanding == 0 {
                0
            } else {
                (self.outstanding - 1) as u64
            },
            ..self
        }
    }

    /// This health once the caller that holds `ticket` has given up. A command
    /// that is done by then blocks nobody, and leaves no mark.
    pub open spec fn after_given_up(self, ticket: u64) -> ActorHealth {
        if self.completed >= ticket {
            self
        } else {
            self.after_abandoned()
        }
    }

    /// This health once the thread has finished a command. The count wraps.
    pub open spec fn after_completed(self) -> ActorHealth {
        ActorHealth {
            completed: if self.completed == u64::MAX {
                0
            } else {
                (self.completed + 1) as u64
            },
            ..self.after_unsent()
        }
    }

    /// This health once a caller has looked: a mark that the thread has moved
    /// past is cleared, not merely stepped over.
    pub open spec fn after_checked(self) -> ActorHealth {
        if self.wedged() {
            self
        } else {
            ActorHealth { abandoned_at: NOT_ABANDONED, ..self }
        }
    }

    /// A device thread that has done nothing yet.
    pub fn new() -> (h: ActorHealth)
        ensures
            h.completed == 0,
            h.abandoned_at == NOT_ABANDONED,
            h.outstanding == 0,
            h.consistent(),
            !h.wedged(),
    {
        ActorHealth { completed: 0, abandoned_at: NOT_ABANDONED, outstanding: 0 }
    }
}

/// Record that a caller stopped waiting for a reply.
pub fn mark_abandoned(health: &mut ActorHealth)
    ensures
        *final(health) == old(health).after_abandoned(),
{
    health.abandoned_at = health.completed;
}

/// Count a command that the device thread has finished.
pub fn mark_completed(health: &mut ActorHealth)
    ensures
        *final(health) == old(health).after_completed(),
{
    health.completed = health.completed.wrapping_add(1);
    mark_unsent(health);
}

/// Count a command as issued and hand out its ticket.
///
/// Commands are to be sent in the order in which they were issued.
pub(crate) fn mark_issued(health: &mut ActorHealth) -> (ticket: u64)
    requires
        old(health).abandoned_at == NOT_ABANDONED,
    ensures
        ticket == old(health).next_ticket(),
        *final(health) == old(health).after_issued(),
{
    let ticket: u64 = health.completed.saturating_add(health.outstanding).saturating_add(1);
    health.outstanding = health.outstanding.saturating_add(1);
    ticket
}

/// Take back an issued command that could not be sent.
pub(crate) fn mark_unsent(health: &mut ActorHealth)
    ensures
        *final(health) == old(health).after_unsent(),
{
    health.outstanding = health.outstanding.saturating_sub(1);
}

/// Record that the caller that holds `ticket` stopped waiting, unless its command
/// is done already.
pub(crate) fn mark_given_up(health: &mut ActorHealth, ticket: u64)
    ensures
        *final(health) == old(health).after_given_up(ticket),
{
    if health.completed < ticket {
        mark_abandoned(health);
    }
}

/// Refuse to enqueue behind a command that is still blocking the device thread.
///
/// Failing fast is the honest answer: the device cannot serve anyone until the
/// stuck exchange resolves. The moment the thread finishes anything, the count
/// moves past the mark and normal service resumes by itself.
pub fn check_actor_responsive(health: &mut ActorHealth) -> (r: Result<(), SignerError>)
    ensures
        r is Ok <==> !old(health).wedged(),
        r matches Err(e) ==> e@ == still_blocked(),
        *final(health) == old(health).after_checked(),
{
    let abandoned: u64 = health.abandoned_at;
    if abandoned == NOT_ABANDONED {
        return Ok(());
    }
    if health.completed > abandoned {
        health.abandoned_at = NOT_ABANDONED;
        return Ok(());
    }
    Err(SignerError::NotAvailable(STILL_BLOCKED.to_owned()))
}

/// A thread that a caller gave up on reads as wedged, to everyone, for as long
/// as it finishes nothing: looking does not change that.
pub proof fn abandoned_means_wedged(h: ActorHealth)
    requires
        h.completed < u64::MAX,
    ensures
        h.after_abandoned().wedged(),
        h.after_abandoned().after_checked() == h.after_abandoned(),
{
}

/// A wedged thread recovers as soon as it finishes one command, whatever that
/// command was, and the mark is then cleared by the first caller who looks.
pub proof fn recovers_after_one_command(h: ActorHealth)
    requires
        h.consistent(),
        h.wedged(),
        h.completed < u64::MAX,
    ensures
        !h.after_completed().wedged(),
        h.after_completed().after_checked().abandoned_at == NOT_ABANDONED,
        h.after_completed().after_checked().completed == h.completed + 1,
{
}

/// Whatever callers and the thread do, the mark never runs ahead of the count.
pub proof fn consistency_is_kept(h: ActorHealth)
    requires
        h.consistent(),
    ensures
        h.after_abandoned().consistent(),
        h.after_issued().consistent(),
        h.after_unsent().consistent(),
        h.after_checked().consistent(),
        h.completed < u64::MAX ==> h.after_completed().consistent(),
{
}

/// A thread that nobody gave up on is never refused, however many commands it
/// has finished.
pub proof fn never_wedged_without_abandonment(h: ActorHealth)
    requires
        h.abandoned_at == NOT_ABANDONED,
    ensures
        !h.wedged(),
        h.after_checked() == h,
        !h.after_completed().wedged(),
{
}

/// Something that changes what is known of the device thread.
pub enum Event {
    /// A caller looked.
    Checked,
    /// A caller asked to issue a command.
    Issued,
    /// An issued command could not be sent.
    Unsent,
    /// The device thread finished a command.
    Completed,
    /// The caller that holds this ticket gave up.
    GaveUp(u64),
}

impl ActorHealth {
    /// This health once `event` has happened.
    pub open spec fn after(self, event: Event) -> ActorHealth {
        match event {
            Event::Checked => self.after_checked(),
            Event::Issued => self.after_issued(),
            Event::Unsent => self.after_unsent(),
            Event::Completed => self.after_completed(),
            Event::GaveUp(ticket) => self.after_given_up(ticket),
        }
    }

    /// This health once `events` have happened, in order.
    pub open spec fn after_all(self, events: Seq<Event>) -> ActorHealth
        decreases events.len(),
    {
        if events.len() == 0 {
            self
        } else {
            self.after_all(events.drop_last()).after(events.last())
        }
    }
}

/// A mark that `events` left is below the ticket of a caller that gave up.
spec fn mark_explained(h: ActorHealth, events: Seq<Event>) -> bool {
    let mark = h.after_all(events).abandoned_at;
    ||| mark == NOT_ABANDONED
    ||| mark == h.abandoned_at
    ||| exists|i: int|
        0 <= i < events.len() && (#[trigger] events[i] matches Event::GaveUp(ticket) && mark
            < ticket)
}

proof fn events_move_on(h: ActorHealth, events: Seq<Event>)
    requires
        h.completed + events.len() <= u64::MAX,
    ensures
        h.completed <= h.after_all(events).completed <= h.completed + events.len(),
        mark_explained(h, events),
    decreases events.len(),
{
    if events.len() > 0 {
        let rest = events.drop_last();
        events_move_on(h, rest);
        let mark = h.after_all(rest).abandoned_at;
        if mark != NOT_ABANDONED && mark != h.abandoned_at {
            let i = choose|i: int|
                0 <= i < rest.len() && (#[trigger] rest[i] matches Event::GaveUp(ticket) && mark
                    < ticket);
            assert(events[i] == rest[i]);
        }
        assert(events[events.len() - 1] == events.last());
    }
}

/// Nobody is refused once every command that a caller gave up on is done, whatever
/// else happened and in whatever order: service resumes by itself.
pub proof fn only_an_unfinished_command_blocks(h: ActorHealth, events: Seq<Event>)
    requires
        !h.wedged(),
        h.completed + events.len() <= u64::MAX,
        forall|i: int|
            0 <= i < events.len() ==> (#[trigger] events[i] matches Event::GaveUp(ticket)
                ==> ticket <= h.after_all(events).completed),
    ensures
        !h.after_all(events).wedged(),
{
    events_move_on(h, events);
}

/// Service resumes once an abandoned command is done, whichever comes first: its
/// caller giving up, or the device thread finishing it.
///
/// A command is issued to a thread that is not wedged; `before` happens until its
/// caller gives up, and `behind` after that. No other caller gives up. As soon as
/// the count has reached the command's ticket, nobody is refused.
pub proof fn service_resumes_once_the_command_is_done(
    h: ActorHealth,
    before: Seq<Event>,
    behind: Seq<Event>,
)
    requires
        !h.wedged(),
        h.completed + before.len() + behind.len() < u64::MAX,
        forall|i: int| 0 <= i < before.len() ==> !(#[trigger] before[i] is GaveUp),
        forall|i: int| 0 <= i < behind.len() ==> !(#[trigger] behind[i] is GaveUp),
    ensures
        ({
            let ticket = h.next_ticket();
            let gave_up = h.after_issued().after_all(before).after_given_up(ticket);
            let now = gave_up.after_all(behind);
            now.completed >= ticket ==> !now.wedged()
        }),
{
    let ticket = h.next_ticket();
    let waited = h.after_issued().after_all(before);
    events_move_on(h.after_issued(), before);
    events_move_on(waited.after_given_up(ticket), behind);
}

/// Until the command is done, everyone is refused who comes before the device
/// thread has finished anything more.
pub proof fn service_stops_while_the_command_is_stuck(h: ActorHealth, before: Seq<Event>)
    requires
        !h.wedged(),
        h.after_issued().after_all(before).completed < h.next_ticket(),
    ensures
        h.after_issued().after_all(before).after_given_up(h.next_ticket()).wedged(),
{
}

/// A ticket means what it says: the device thread reaches it by finishing all that
/// was outstanding and then this command, and no sooner.
pub proof fn a_ticket_is_reached_in_turn(h: ActorHealth, served: nat)
    requires
        !h.wedged(),
        h.completed + h.outstanding + served + 1 <= u64::MAX,
    ensures
        ({
            let now = h.after_issued().after_all(Seq::new(served, |i: int| Event::Completed));
            now.completed >= h.next_ticket() <==> served > h.outstanding
        }),
{
    completions_add_up(h.after_issued(), served);
}

proof fn completions_add_up(h: ActorHealth, served: nat)
    requires
        h.completed + served <= u64::MAX,
    ensures
        h.after_all(Seq::new(served, |i: int| Event::Completed)).completed == h.completed + served,
    decreases served,
{
    let events = Seq::new(served, |i: int| Event::Completed);
    if served > 0 {
        let fewer = (served - 1) as nat;
        completions_add_up(h, fewer);
        assert(events.drop_last() =~= Seq::new(fewer, |i: int| Event::Completed));
    }
}

/// Who is refused: whoever comes while a mark is set and the count has not moved
/// past it. Nothing else, such as how much is outstanding, plays a part.
pub proof fn only_a_mark_that_the_count_has_not_passed_refuses(h: ActorHealth)
    ensures
        h.wedged() <==> h.abandoned_at < 0xffff_ffff_ffff_ffff && h.completed <= h.abandoned_at,
        still_blocked().kind is NotAvailable,
{
}

/// Giving up moves the mark to the count and touches nothing else, and does even
/// that only before the command is done.
pub proof fn giving_up_moves_the_mark_only(h: ActorHealth, ticket: u64)
    ensures
        h.after_abandoned().abandoned_at == h.completed,
        h.after_abandoned().completed == h.completed,
        h.after_abandoned().outstanding == h.outstanding,
        h.completed < ticket ==> h.after_given_up(ticket).abandoned_at == h.completed,
        h.completed >= ticket ==> h.after_given_up(ticket).abandoned_at == h.abandoned_at,
        h.after_given_up(ticket).completed == h.completed,
        h.after_given_up(ticket).outstanding == h.outstanding,
{
}

/// Finishing a command counts it, makes one fewer outstanding and leaves the mark
/// alone; a command that could not be sent is taken back in the same way, but not
/// counted.
pub proof fn finishing_counts_and_leaves_the_mark(h: ActorHealth)
    ensures
        h.completed < u64::MAX ==> h.after_completed().completed == h.completed + 1,
        h.completed == u64::MAX ==> h.after_completed().completed == 0,
        h.after_completed().abandoned_at == h.abandoned_at,
        h.outstanding > 0 ==> h.after_completed().outstanding == h.outstanding - 1,
        h.outstanding == 0 ==> h.after_completed().outstanding == 0,
        h.after_unsent().outstanding == h.after_completed().outstanding,
        h.after_unsent().completed == h.completed,
        h.after_unsent().abandoned_at == h.abandoned_at,
{
}

/// Looking clears a mark that the count has passed and changes nothing else;
/// issuing does that and makes one more outstanding; neither does anything for a
/// caller that is refused.
pub proof fn looking_and_issuing_clear_a_passed_mark(h: ActorHealth)
    ensures
        h.after_checked().completed == h.completed,
        h.after_checked().outstanding == h.outstanding,
        h.after_issued().completed == h.completed,
        h.abandoned_at < u64::MAX && h.completed <= h.abandoned_at ==> h.after_checked() == h
            && h.after_issued() == h,
        h.abandoned_at == u64::MAX || h.completed > h.abandoned_at ==> {
            &&& h.after_checked().abandoned_at == u64::MAX
            &&& h.after_issued().abandoned_at == u64::MAX
            &&& h.outstanding < u64::MAX ==> h.after_issued().outstanding == h.outstanding + 1
            &&& h.outstanding == u64::MAX ==> h.after_issued().outstanding == u64::MAX
        },
        h.completed + h.outstanding + 1 <= u64::MAX ==> h.next_ticket() == h.completed
            + h.outstanding + 1,
        h.completed + h.outstanding + 1 > u64::MAX ==> h.next_ticket() == u64::MAX,
{
}

} // verus!
