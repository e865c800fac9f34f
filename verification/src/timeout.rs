//! How long a caller waits for the device.

use vstd::prelude::*;

verus! {

/// Nanoseconds in a second.
pub const NANOS_PER_SEC: u32 = 1_000_000_000;

/// Timeout, in seconds, for device commands that **cannot** involve the user.
///
/// Enumeration, an unconfirmed pubkey read and the liveness probe are pure
/// host-to-device exchanges: the device either answers in milliseconds or
/// something is wrong. Seconds is generous.
pub const FAST_COMMAND_TIMEOUT: u64 = 10;

/// Default timeout, in seconds, for commands that wait on a human.
///
/// Signing blocks while the user reads the confirm screen, so this cannot be
/// short. It is bounded by the device's own auto-lock: once the Ledger locks,
/// the prompt is gone and no answer is ever coming. Five minutes sits inside
/// Ledger's ten-minute default auto-lock.
pub const DEFAULT_SIGNING_TIMEOUT: u64 = 300;

/// A span of time: whole seconds, and nanoseconds below one second.
#[derive(Clone, Copy, Debug, PartialEq, Eq, PartialOrd, Ord)]
pub struct Timeout {
    secs: u64,
    subsec_nanos: u32,
}

impl Timeout {
    /// The nanoseconds below one second really are below one second.
    #[verifier::type_invariant]
    spec fn in_range(self) -> bool {
        self.subsec_nanos < NANOS_PER_SEC
    }

    /// The whole seconds of this span.
    pub closed spec fn secs(self) -> u64 {
        self.secs
    }

    /// The nanoseconds left over.
    pub closed spec fn nanos(self) -> u32 {
        self.subsec_nanos
    }

    /// The span in nanoseconds.
    pub open spec fn total_nanos(self) -> nat {
        (self.secs() as nat) * (NANOS_PER_SEC as nat) + self.nanos() as nat
    }

    /// The span of `secs` whole seconds.
    pub closed spec fn seconds(secs: u64) -> Timeout {
        Timeout { secs, subsec_nanos: 0 }
    }

    /// `secs` whole seconds.
    pub fn from_secs(secs: u64) -> (t: Timeout)
        ensures
            t == Timeout::seconds(secs),
            t.secs() == secs,
            t.nanos() == 0,
    {
        Timeout { secs, subsec_nanos: 0 }
    }

    /// `millis` milliseconds.
    pub fn from_millis(millis: u64) -> (t: Timeout)
        ensures
            t.secs() == millis / 1000,
            t.nanos() == (millis % 1000) * 1_000_000,
            t.total_nanos() == millis * 1_000_000,
    {
        let t = Timeout { secs: millis / 1000, subsec_nanos: (millis % 1000) as u32 * 1_000_000 };
        assert(millis == (millis / 1000) * 1000 + millis % 1000);
        t
    }

    /// `secs` seconds and `nanos` nanoseconds, where `nanos` is below one second.
    pub fn new(secs: u64, nanos: u32) -> (t: Option<Timeout>)
        ensures
            t is Some <==> nanos < NANOS_PER_SEC,
            t matches Some(v) ==> v.secs() == secs && v.nanos() == nanos,
    {
        if nanos < NANOS_PER_SEC {
            Some(Timeout { secs, subsec_nanos: nanos })
        } else {
            None
        }
    }

    /// The whole seconds, the rest cut off.
    pub fn as_secs(&self) -> (secs: u64)
        ensures
            secs == self.secs(),
    {
        self.secs
    }

    /// The nanoseconds beyond the whole seconds.
    pub fn subsec_nanos(&self) -> (nanos: u32)
        ensures
            nanos == self.nanos(),
            nanos < NANOS_PER_SEC,
    {
        proof {
            use_type_invariant(*self);
        }
        self.subsec_nanos
    }
}

/// The span of [`FAST_COMMAND_TIMEOUT`].
pub fn fast_command_timeout() -> (t: Timeout)
    ensures
        t == Timeout::seconds(FAST_COMMAND_TIMEOUT),
        t.secs() == FAST_COMMAND_TIMEOUT,
        t.nanos() == 0,
{
    Timeout::from_secs(FAST_COMMAND_TIMEOUT)
}

/// The span of [`DEFAULT_SIGNING_TIMEOUT`].
pub fn default_signing_timeout() -> (t: Timeout)
    ensures
        t == Timeout::seconds(DEFAULT_SIGNING_TIMEOUT),
        t.secs() == DEFAULT_SIGNING_TIMEOUT,
        t.nanos() == 0,
{
    Timeout::from_secs(DEFAULT_SIGNING_TIMEOUT)
}

/// A span of whole seconds has those seconds and nothing beyond them.
pub proof fn whole_seconds(secs: u64)
    ensures
        Timeout::seconds(secs).secs() == secs,
        Timeout::seconds(secs).nanos() == 0,
        Timeout::seconds(secs).total_nanos() == secs * (NANOS_PER_SEC as nat),
{
}

/// The two tiers of waiting are ordered: a command that cannot involve the user
/// never gets the budget of one that waits on a human, and even that one stays
/// inside the ten minutes after which a Ledger locks itself.
pub proof fn tiers_are_ordered()
    ensures
        Timeout::seconds(FAST_COMMAND_TIMEOUT).total_nanos() < Timeout::seconds(
            DEFAULT_SIGNING_TIMEOUT,
        ).total_nanos(),
        Timeout::seconds(DEFAULT_SIGNING_TIMEOUT).total_nanos() <= Timeout::seconds(600).total_nanos(),
{
}

} // verus!
