//! Deadline quantization.
//!
//! Every deadline is rounded up to the next multiple of a fixed tick
//! resolution. Two callers whose raw deadlines fall inside the same tick
//! window end up with the same quantized deadline, and can therefore share
//! one physical timer. The price is precision: a quantized deadline may lie
//! up to one tick after the raw one, never before it.

use vstd::prelude::*;

verus! {

/// The tick resolution in milliseconds: every deadline is rounded up to the
/// next multiple of this value.
pub const TICK_MS: u64 = 10;

/// The mathematical definition of quantization: the least multiple of `res`
/// that is greater than or equal to `t`.
pub open spec fn quantized(t: int, res: int) -> int {
    ((t + res - 1) / res) * res
}

/// A quantized deadline is a tick boundary that lies at or after the raw
/// deadline, and strictly less than one full tick after it. This is the
/// tolerance window of the whole mechanism: a timeout of duration `d`
/// requested at time `now` fires at `quantized(now + d, res)`, which this
/// lemma places inside `[now + d, now + d + res - 1]`.
pub proof fn lemma_quantized_bounds(t: int, res: int)
    requires
        0 <= t,
        0 < res,
    ensures
        t <= quantized(t, res) <= t + res - 1,
        quantized(t, res) % res == 0,
{
    let s = t + res - 1;
    let d = s / res;
    vstd::arithmetic::div_mod::lemma_fundamental_div_mod(s, res);
    vstd::arithmetic::div_mod::lemma_mod_division_less_than_divisor(s, res);
    assert(quantized(t, res) == s - s % res);
    vstd::arithmetic::div_mod::lemma_mod_multiples_basic(d, res);
}

/// Deadlines that fall inside one tick window share a quantized deadline:
/// if `b` lies between `a` and `a`'s tick boundary, both round up to the
/// same boundary. This is what lets unrelated timeouts coalesce onto a
/// single physical timer.
pub proof fn lemma_shared_tick(a: int, b: int, res: int)
    requires
        0 <= a <= b,
        0 < res,
        b <= quantized(a, res),
    ensures
        quantized(b, res) == quantized(a, res),
{
    let k = (a + res - 1) / res;
    lemma_quantized_bounds(a, res);
    lemma_quantized_bounds(b, res);
    // monotonicity: (a + res - 1) / res <= (b + res - 1) / res
    vstd::arithmetic::div_mod::lemma_div_is_ordered(a + res - 1, b + res - 1, res);
    // b + res - 1 <= k * res + (res - 1), so its quotient is at most k
    vstd::arithmetic::div_mod::lemma_div_multiples_vanish_fancy(k, res - 1, res);
    assert((k * res + (res - 1)) / res == k);
    vstd::arithmetic::div_mod::lemma_div_is_ordered(b + res - 1, k * res + (res - 1), res);
}

/// The quantization half of timer coalescing: timeouts with equal duration
/// `d` whose start times `s1 <= s2` lie close enough together that the later
/// raw deadline still precedes the earlier one's tick boundary compute the
/// same quantized deadline, and hence share one timer wheel entry.
pub proof fn lemma_coalesced_deadline(s1: int, s2: int, d: int, res: int)
    requires
        0 <= s1 <= s2,
        0 <= d,
        0 < res,
        s2 + d <= quantized(s1 + d, res),
    ensures
        quantized(s2 + d, res) == quantized(s1 + d, res),
{
    lemma_shared_tick(s1 + d, s2 + d, res);
}

/// Rounds a raw deadline (in milliseconds) up to the next tick boundary.
pub fn quantize(deadline_ms: u64) -> (q: u64)
    requires
        deadline_ms + TICK_MS - 1 <= u64::MAX,
    ensures
        q == quantized(deadline_ms as int, TICK_MS as int),
        deadline_ms <= q <= deadline_ms + TICK_MS - 1,
        q as int % TICK_MS as int == 0,
{
    proof {
        lemma_quantized_bounds(deadline_ms as int, TICK_MS as int);
    }
    ((deadline_ms + (TICK_MS - 1)) / TICK_MS) * TICK_MS
}

} // verus!
