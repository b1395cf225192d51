//! The per-call decision logic of the timeout future.
//!
//! A timeout wraps one asynchronous operation and a delay that is created
//! lazily. Each poll of the wrapped pair is two steps, both decided here:
//!
//! 1. [`TimeoutCore::on_operation_poll`] takes what polling the operation
//!    returned. Completion always wins — even against a delay that has
//!    already fired — and leaves the timer subsystem untouched, so an
//!    operation ready on its very first poll causes zero timer
//!    registrations. Otherwise the delay's deadline is armed now if this is
//!    the first pending poll (memoized: never re-armed), and the caller is
//!    told to poll the delay.
//! 2. [`TimeoutCore::on_delay_poll`] takes what polling the delay returned:
//!    fired means the timeout elapsed, otherwise the whole pair stays
//!    pending.
//!
//! The host scheduler owns the actual futures; it feeds their poll results
//! through these two steps and performs the returned decisions.

use vstd::prelude::*;
use crate::tick::{TICK_MS, quantized, quantize, lemma_quantized_bounds, lemma_coalesced_deadline};

verus! {

/// How the delay's deadline is obtained from a duration.
///
/// The two variants are interchangeable from the combinator's point of view —
/// both produce a delay that fires at or just after the requested deadline —
/// and differ only in resource profile.
#[derive(Debug, Clone, Copy, PartialEq, Eq, Structural)]
pub enum TimerBackend {
    /// One private physical timer per call, armed at the exact deadline.
    Direct,
    /// The deadline is quantized to the next tick and the timer is shared
    /// through the wheel with every caller on the same tick.
    Coalesced,
}

/// The verdict of one full poll once the operation was found pending.
#[derive(Debug, Clone, Copy, PartialEq, Eq, Structural)]
pub enum TimeoutPoll {
    /// The delay fired before the operation completed: the timeout elapsed.
    TimedOut,
    /// Neither the operation nor the delay is ready yet.
    StillPending,
}

/// What the caller must do after the operation itself was polled.
#[derive(Debug, Clone, Copy, PartialEq, Eq)]
pub enum OpStep<V> {
    /// The operation finished with this result: return it, untouched, at
    /// once. The delay — fired or not, existing or not — is irrelevant.
    Completed(V),
    /// The operation is pending: poll the delay for `deadline_ms`. When
    /// `armed_now` holds this poll armed the delay, and the caller must
    /// create the one physical handle for it (directly, or by registering
    /// with the shared wheel); otherwise the existing handle is reused.
    PollDelay { deadline_ms: u64, armed_now: bool },
}

/// The state a timeout carries between polls: the requested duration, the
/// backend that will supply the delay, and — once the first pending poll has
/// armed it — the delay's absolute deadline.
pub struct TimeoutCore {
    /// The requested wait, in milliseconds.
    pub duration_ms: u64,
    /// Where the delay comes from.
    pub backend: TimerBackend,
    /// The armed deadline, in absolute milliseconds; `None` until the first
    /// poll that finds the operation pending, then set exactly once.
    pub deadline_ms: Option<u64>,
}

impl TimeoutCore {
    /// The absolute deadline this timeout arms when its first pending poll
    /// happens at time `now`: the raw deadline for the direct backend, the
    /// next tick boundary for the coalesced one.
    pub open spec fn planned_deadline(self, now: int) -> int {
        match self.backend {
            TimerBackend::Direct => now + self.duration_ms,
            TimerBackend::Coalesced => quantized(now + self.duration_ms, TICK_MS as int),
        }
    }

    /// A new timeout: nothing armed, no timer touched yet.
    pub fn new(duration_ms: u64, backend: TimerBackend) -> (c: Self)
        ensures
            c.duration_ms == duration_ms,
            c.backend == backend,
            c.deadline_ms is None,
    {
        TimeoutCore { duration_ms, backend, deadline_ms: None }
    }

    /// Step one of a poll at time `now_ms`, fed the wrapped operation's own
    /// poll result. Completion always wins and leaves this state — hence the
    /// timer subsystem — untouched; a pending operation arms the delay on
    /// the first such poll and reuses it, never re-arming, on every later
    /// one.
    pub fn on_operation_poll<V>(&mut self, op: Option<V>, now_ms: u64) -> (r: OpStep<V>)
        requires
            now_ms + old(self).duration_ms + TICK_MS - 1 <= u64::MAX,
        ensures
            op matches Some(v) ==> r == OpStep::Completed(v) && *final(self) == *old(self),
            op is None ==> match old(self).deadline_ms {
                Some(q0) => *final(self) == *old(self) && r == (OpStep::<V>::PollDelay {
                    deadline_ms: q0,
                    armed_now: false,
                }),
                None => {
                    &&& final(self).deadline_ms == Some(
                        old(self).planned_deadline(now_ms as int) as u64,
                    )
                    &&& final(self).duration_ms == old(self).duration_ms
                    &&& final(self).backend == old(self).backend
                    &&& r == (OpStep::<V>::PollDelay {
                        deadline_ms: old(self).planned_deadline(now_ms as int) as u64,
                        armed_now: true,
                    })
                },
            },
    {
        match op {
            Some(v) => OpStep::Completed(v),
            None => match self.deadline_ms {
                Some(q0) => OpStep::PollDelay { deadline_ms: q0, armed_now: false },
                None => {
                    let raw = now_ms + self.duration_ms;
                    let q = match self.backend {
                        TimerBackend::Direct => raw,
                        TimerBackend::Coalesced => quantize(raw),
                    };
                    self.deadline_ms = Some(q);
                    OpStep::PollDelay { deadline_ms: q, armed_now: true }
                },
            },
        }
    }

    /// Step two of a poll, reached only when the operation was pending and a
    /// delay is armed: a fired delay means the timeout elapsed, anything
    /// else leaves the whole pair pending.
    pub fn on_delay_poll(&self, delay_fired: bool) -> (r: TimeoutPoll)
        requires
            self.deadline_ms is Some,
        ensures
            r == (if delay_fired {
                TimeoutPoll::TimedOut
            } else {
                TimeoutPoll::StillPending
            }),
    {
        if delay_fired {
            TimeoutPoll::TimedOut
        } else {
            TimeoutPoll::StillPending
        }
    }
}

/// The tolerance window: whichever backend supplies the delay, a timeout of
/// duration `d` whose delay is armed at time `now` fires no earlier than
/// `now + d` and no later than `now + d + TICK_MS - 1`. An operation that
/// never completes is therefore reported elapsed within that window of
/// wall-clock time, assuming only that the physical timer fires at the armed
/// deadline.
pub proof fn lemma_elapsed_window(c: TimeoutCore, now: int)
    requires
        0 <= now,
    ensures
        now + c.duration_ms <= c.planned_deadline(now) <= now + c.duration_ms + TICK_MS - 1,
{
    match c.backend {
        TimerBackend::Direct => {},
        TimerBackend::Coalesced => {
            lemma_quantized_bounds(now + c.duration_ms, TICK_MS as int);
        },
    }
}

/// Coalescing across calls: two timeouts with equal duration on the shared
/// backend, armed at times `s1 <= s2` close enough that the later raw
/// deadline still precedes the earlier one's tick boundary, plan the same
/// quantized deadline — so the wheel hands both the same entry and only one
/// physical timer is armed (see
/// [`crate::timer::lemma_exactly_once_creation`]).
pub proof fn lemma_coalesced_plans(c1: TimeoutCore, c2: TimeoutCore, s1: int, s2: int)
    requires
        c1.backend == TimerBackend::Coalesced,
        c2.backend == TimerBackend::Coalesced,
        c1.duration_ms == c2.duration_ms,
        0 <= s1 <= s2,
        s2 + c1.duration_ms <= c1.planned_deadline(s1),
    ensures
        c2.planned_deadline(s2) == c1.planned_deadline(s1),
{
    lemma_coalesced_deadline(s1, s2, c1.duration_ms as int, TICK_MS as int);
}

/// Coalescing for any number of timeouts: every timeout of duration `d` on
/// the shared backend whose arming time falls inside the tick window of the
/// first one — at or after `s0`, with its raw deadline no later than the
/// first one's tick boundary — plans that same quantized deadline.
pub proof fn lemma_coalesced_plans_many(c: TimeoutCore, starts: Seq<int>, s0: int)
    requires
        c.backend == TimerBackend::Coalesced,
        0 <= s0,
        forall|i: int|
            0 <= i < starts.len() ==> s0 <= #[trigger] starts[i] && starts[i] + c.duration_ms
                <= c.planned_deadline(s0),
    ensures
        forall|i: int|
            0 <= i < starts.len() ==> #[trigger] c.planned_deadline(starts[i])
                == c.planned_deadline(s0),
{
    assert forall|i: int|
        0 <= i < starts.len() implies #[trigger] c.planned_deadline(starts[i])
        == c.planned_deadline(s0) by {
        lemma_coalesced_plans(c, c, s0, starts[i]);
    }
}

/// Coalescing end to end: two timeouts of equal duration on the shared
/// backend, armed inside one tick window, plan one quantized deadline, and
/// the wheel converges on one entry for it — whichever request reaches the
/// wheel second finds the entry and arms no second physical timer.
pub proof fn lemma_one_timer_per_window(
    c1: TimeoutCore,
    c2: TimeoutCore,
    s1: int,
    s2: int,
    m0: Map<u64, crate::timer::TimerEntry>,
    m1: Map<u64, crate::timer::TimerEntry>,
    m2: Map<u64, crate::timer::TimerEntry>,
    created1: bool,
    created2: bool,
)
    requires
        c1.backend == TimerBackend::Coalesced,
        c2.backend == TimerBackend::Coalesced,
        c1.duration_ms == c2.duration_ms,
        0 <= s1 <= s2,
        s2 + c1.duration_ms <= c1.planned_deadline(s1),
        c1.planned_deadline(s1) <= u64::MAX,
        crate::timer::get_or_create_post(m0, m1, c1.planned_deadline(s1) as u64, created1),
        crate::timer::get_or_create_post(m1, m2, c2.planned_deadline(s2) as u64, created2),
    ensures
        c2.planned_deadline(s2) == c1.planned_deadline(s1),
        !created2,
        m2 == m1,
{
    lemma_coalesced_plans(c1, c2, s1, s2);
    crate::timer::lemma_exactly_once_creation(
        m0,
        m1,
        m2,
        c1.planned_deadline(s1) as u64,
        created1,
        created2,
    );
}

} // verus!
