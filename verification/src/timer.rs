//! The shared timer wheel: at most one timer entry per quantized deadline.
//!
//! The wheel maps a quantized deadline (milliseconds, a multiple of
//! [`crate::tick::TICK_MS`]) to a single [`TimerEntry`]. All timeouts whose
//! deadlines quantize to the same tick share that entry, so only one physical
//! timer is ever armed per distinct quantized deadline. Entries are created
//! on demand by [`TimerWheel::get_or_create`], accumulate waiters through
//! registration, flip to fired exactly once, and are garbage-collected once
//! fired with no waiters left.
//!
//! Each operation's postcondition is captured by a transition predicate
//! (`get_or_create_post` and friends); the laws at the bottom of the module
//! are proved from those predicates alone, so they hold of any sequence of
//! wheel operations, in whatever order concurrent callers interleave them.
//!
//! For sharded use — so that no single lock serializes creation across
//! unrelated deadlines — [`shard_of`] routes each quantized deadline to a
//! fixed shard; equal deadlines always land in the same shard, which is what
//! keeps the exactly-once guarantee intact when each shard is guarded by its
//! own lock.

use vstd::prelude::*;
use vstd::hash_map::HashMapWithView;
use crate::tick::TICK_MS;

verus! {

broadcast use vstd::std_specs::hash::group_hash_axioms;

/// One physical timer, shared by every waiter whose quantized deadline
/// matches. It is pending until the underlying timer completes, then fired
/// forever; `waiters` counts the registrations currently held against it.
#[derive(Debug, Clone, Copy, PartialEq, Eq, Structural)]
pub struct TimerEntry {
    /// Whether the entry's physical timer has completed.
    pub fired: bool,
    /// The number of waiters currently registered on this entry.
    pub waiters: u64,
}

/// The state of a newly created entry: not yet fired, no waiters.
pub open spec fn fresh_entry() -> TimerEntry {
    TimerEntry { fired: false, waiters: 0 }
}

/// What [`TimerWheel::get_or_create`] does to the wheel: an entry is created
/// exactly when the deadline had none, and nothing else changes.
pub open spec fn get_or_create_post(
    pre: Map<u64, TimerEntry>,
    post: Map<u64, TimerEntry>,
    q: u64,
    created: bool,
) -> bool {
    &&& created == !pre.contains_key(q)
    &&& (created ==> post == pre.insert(q, fresh_entry()))
    &&& (!created ==> post == pre)
}

/// What [`TimerWheel::register_waiter`] does: the entry's waiter count grows
/// by one, its fired state is reported back unchanged, and no other entry
/// moves.
pub open spec fn register_post(
    pre: Map<u64, TimerEntry>,
    post: Map<u64, TimerEntry>,
    q: u64,
    already_fired: bool,
) -> bool {
    &&& pre.contains_key(q)
    &&& already_fired == pre[q].fired
    &&& post == pre.insert(
        q,
        TimerEntry { fired: pre[q].fired, waiters: (pre[q].waiters + 1) as u64 },
    )
}

/// What [`TimerWheel::deregister_waiter`] does: the entry's waiter count
/// shrinks by one, its fired state and every other entry stay as they were.
pub open spec fn deregister_post(
    pre: Map<u64, TimerEntry>,
    post: Map<u64, TimerEntry>,
    q: u64,
) -> bool {
    &&& pre.contains_key(q)
    &&& pre[q].waiters > 0
    &&& post == pre.insert(
        q,
        TimerEntry { fired: pre[q].fired, waiters: (pre[q].waiters - 1) as u64 },
    )
}

/// What [`TimerWheel::fire`] does: the entry flips from pending to fired,
/// every currently registered waiter is woken (reported as `woken`), and the
/// registrations themselves remain until each waiter drops its handle.
pub open spec fn fire_post(
    pre: Map<u64, TimerEntry>,
    post: Map<u64, TimerEntry>,
    q: u64,
    woken: u64,
) -> bool {
    &&& pre.contains_key(q)
    &&& !pre[q].fired
    &&& woken == pre[q].waiters
    &&& post == pre.insert(q, TimerEntry { fired: true, waiters: pre[q].waiters })
}

/// What [`TimerWheel::subscribe`] does: get-or-create followed by one waiter
/// registration, the two steps the coalesced backend performs per call.
pub open spec fn subscribe_post(
    pre: Map<u64, TimerEntry>,
    post: Map<u64, TimerEntry>,
    q: u64,
    created: bool,
    already_fired: bool,
) -> bool {
    &&& created == !pre.contains_key(q)
    &&& already_fired == (pre.contains_key(q) && pre[q].fired)
    &&& post == pre.insert(
        q,
        TimerEntry {
            fired: pre.contains_key(q) && pre[q].fired,
            waiters: if pre.contains_key(q) {
                (pre[q].waiters + 1) as u64
            } else {
                1u64
            },
        },
    )
}

/// The outcome of [`TimerWheel::subscribe`]: whether this call created the
/// entry — and must therefore arm its one physical timer — and whether the
/// entry had already fired, so the subscriber resolves at once.
#[derive(Debug, Clone, Copy, PartialEq, Eq, Structural)]
pub struct Subscribed {
    /// This call created the entry; its physical timer must be armed now.
    pub created: bool,
    /// The entry fired before this registration.
    pub already_fired: bool,
}

/// The shared timer wheel: a mapping from quantized deadline to the one
/// [`TimerEntry`] every timeout with that deadline shares.
pub struct TimerWheel {
    entries: HashMapWithView<u64, TimerEntry>,
}

impl View for TimerWheel {
    type V = Map<u64, TimerEntry>;

    closed spec fn view(&self) -> Map<u64, TimerEntry> {
        self.entries@
    }
}

impl TimerWheel {
    /// An empty wheel: no deadline has an entry, no timer is armed.
    pub fn new() -> (w: Self)
        ensures
            w@ == Map::<u64, TimerEntry>::empty(),
    {
        TimerWheel { entries: HashMapWithView::new() }
    }

    /// The number of live entries, equal to the number of physical timers
    /// currently armed or awaiting garbage collection.
    pub fn len(&self) -> (n: usize)
        ensures
            n == self@.len(),
    {
        self.entries.len()
    }

    /// The current state of the entry for `q`, if any.
    pub fn entry(&self, q: u64) -> (e: Option<TimerEntry>)
        ensures
            match e {
                Some(v) => self@.contains_key(q) && v == self@[q],
                None => !self@.contains_key(q),
            },
    {
        match self.entries.get(&q) {
            Some(v) => Some(*v),
            None => None,
        }
    }

    /// Returns the entry for quantized deadline `q`, creating it exactly when
    /// absent. The result says whether a new entry was created — that is,
    /// whether the caller must arm the one physical timer for this deadline.
    /// Concurrent callers racing on one deadline converge on one entry: the
    /// wheel is a map, so a second call for the same `q` finds the entry and
    /// creates nothing (see [`lemma_exactly_once_creation`]).
    pub fn get_or_create(&mut self, q: u64) -> (created: bool)
        ensures
            get_or_create_post(old(self)@, final(self)@, q, created),
            final(self)@.contains_key(q),
            final(self)@[q] == (if created { fresh_entry() } else { old(self)@[q] }),
    {
        if self.entries.contains_key(&q) {
            false
        } else {
            self.entries.insert(q, TimerEntry { fired: false, waiters: 0 });
            true
        }
    }

    /// Registers one waiter on the entry for `q` and reports whether the
    /// entry has already fired, so that a late waiter observes "already
    /// fired" instead of waiting forever.
    pub fn register_waiter(&mut self, q: u64) -> (already_fired: bool)
        requires
            old(self)@.contains_key(q),
            old(self)@[q].waiters < u64::MAX,
        ensures
            register_post(old(self)@, final(self)@, q, already_fired),
    {
        let e = match self.entries.get(&q) {
            Some(v) => *v,
            None => TimerEntry { fired: false, waiters: 0 },
        };
        self.entries.insert(q, TimerEntry { fired: e.fired, waiters: e.waiters + 1 });
        e.fired
    }

    /// One coalesced-backend call in a single step: the entry for `q` is
    /// obtained — created exactly when absent — and one waiter is registered
    /// on it. Its fired state is reported so that a late subscriber observes
    /// "already fired" instead of waiting forever.
    pub fn subscribe(&mut self, q: u64) -> (r: Subscribed)
        requires
            old(self)@.contains_key(q) ==> old(self)@[q].waiters < u64::MAX,
        ensures
            subscribe_post(old(self)@, final(self)@, q, r.created, r.already_fired),
    {
        let ghost pre = self@;
        let created = self.get_or_create(q);
        let already_fired = self.register_waiter(q);
        proof {
            assert(self@ =~= pre.insert(
                q,
                TimerEntry {
                    fired: pre.contains_key(q) && pre[q].fired,
                    waiters: if pre.contains_key(q) {
                        (pre[q].waiters + 1) as u64
                    } else {
                        1u64
                    },
                },
            ));
        }
        Subscribed { created, already_fired }
    }

    /// Removes one waiter registration from the entry for `q`, as happens
    /// when a pending timeout is dropped. Only the count changes: the entry
    /// stays in place, keeps its fired state, and every other entry is
    /// untouched, so cancellation never disturbs the remaining waiters.
    pub fn deregister_waiter(&mut self, q: u64)
        requires
            old(self)@.contains_key(q),
            old(self)@[q].waiters > 0,
        ensures
            deregister_post(old(self)@, final(self)@, q),
    {
        let e = match self.entries.get(&q) {
            Some(v) => *v,
            None => TimerEntry { fired: false, waiters: 0 },
        };
        self.entries.insert(q, TimerEntry { fired: e.fired, waiters: e.waiters - 1 });
    }

    /// Records that the physical timer for `q` completed: the entry flips to
    /// fired and the number of waiters to wake — each exactly once — is
    /// returned. A physical timer completes once, so the entry must still be
    /// pending.
    pub fn fire(&mut self, q: u64) -> (woken: u64)
        requires
            old(self)@.contains_key(q),
            !old(self)@[q].fired,
        ensures
            fire_post(old(self)@, final(self)@, q, woken),
    {
        let e = match self.entries.get(&q) {
            Some(v) => *v,
            None => TimerEntry { fired: false, waiters: 0 },
        };
        self.entries.insert(q, TimerEntry { fired: true, waiters: e.waiters });
        e.waiters
    }

    /// Garbage collection: removes the entry for `q` exactly when it has
    /// fired and no waiter is registered any more. A pending entry, or a
    /// fired one still referenced, is never removed.
    pub fn remove_if_done(&mut self, q: u64) -> (removed: bool)
        ensures
            removed == (old(self)@.contains_key(q) && old(self)@[q].fired && old(self)@[
                q
            ].waiters == 0),
            removed ==> final(self)@ == old(self)@.remove(q),
            !removed ==> final(self)@ == old(self)@,
    {
        let done = match self.entries.get(&q) {
            Some(v) => v.fired && v.waiters == 0,
            None => false,
        };
        if done {
            self.entries.remove(&q);
            true
        } else {
            false
        }
    }
}

/// The shard a quantized deadline is routed to, out of `n_shards`.
pub open spec fn shard_of_spec(q: u64, n_shards: int) -> int {
    (q as int / TICK_MS as int) % n_shards
}

/// Routes a quantized deadline to its shard. The routing is a pure function
/// of the deadline: equal deadlines always reach the same shard, so guarding
/// each shard with its own lock — no global lock — still leaves exactly one
/// entry per deadline system-wide.
pub fn shard_of(q: u64, n_shards: usize) -> (i: usize)
    requires
        0 < n_shards,
    ensures
        i as int == shard_of_spec(q, n_shards as int),
        i < n_shards,
{
    ((q / TICK_MS) % (n_shards as u64)) as usize
}

/// Sharding keeps deadlines disjoint: routing is a pure function of the
/// deadline, so when each shard holds only the deadlines routed to it — as
/// inserting through [`shard_of`] guarantees — no deadline can have entries
/// in two shards. Per-shard locks therefore guard disjoint sets of
/// deadlines, and the one-entry-per-deadline guarantee holds system-wide
/// without any global lock.
pub proof fn lemma_shards_disjoint(shards: Seq<Map<u64, TimerEntry>>, i: int, j: int, q: u64)
    requires
        forall|k: int, p: u64|
            0 <= k < shards.len() && #[trigger] shards[k].contains_key(p) ==> shard_of_spec(
                p,
                shards.len() as int,
            ) == k,
        0 <= i < shards.len(),
        0 <= j < shards.len(),
        i != j,
    ensures
        !(shards[i].contains_key(q) && shards[j].contains_key(q)),
{
}

/// Exactly-once creation: whatever order two get-or-create calls for the
/// same quantized deadline reach the wheel in, the second finds the entry
/// the first ensured and creates nothing — there is never a second entry,
/// nor a second physical timer, for one deadline.
pub proof fn lemma_exactly_once_creation(
    m0: Map<u64, TimerEntry>,
    m1: Map<u64, TimerEntry>,
    m2: Map<u64, TimerEntry>,
    q: u64,
    c1: bool,
    c2: bool,
)
    requires
        get_or_create_post(m0, m1, q, c1),
        get_or_create_post(m1, m2, q, c2),
    ensures
        !c2,
        m2 == m1,
{
}

/// Cancellation safety: a waiter that deregisters (its timeout was dropped)
/// leaves the entry pending with the remaining waiters intact, and when the
/// entry then fires, exactly those remaining waiters are woken. No other
/// entry is disturbed at any step.
pub proof fn lemma_cancellation(
    m0: Map<u64, TimerEntry>,
    m1: Map<u64, TimerEntry>,
    m2: Map<u64, TimerEntry>,
    q: u64,
    woken: u64,
)
    requires
        deregister_post(m0, m1, q),
        fire_post(m1, m2, q, woken),
    ensures
        woken == m0[q].waiters - 1,
        m2.contains_key(q) && m2[q].fired,
        forall|p: u64| p != q && m0.contains_key(p) ==> m2.contains_key(p) && m2[p] == m0[p],
{
}

/// A waiter that registers after the entry fired is told so at once — it
/// observes "already fired" rather than waiting forever on a timer that
/// will never complete again.
pub proof fn lemma_register_after_fire(
    m0: Map<u64, TimerEntry>,
    m1: Map<u64, TimerEntry>,
    m2: Map<u64, TimerEntry>,
    q: u64,
    woken: u64,
    already_fired: bool,
)
    requires
        fire_post(m0, m1, q, woken),
        register_post(m1, m2, q, already_fired),
    ensures
        already_fired,
{
}

} // verus!
