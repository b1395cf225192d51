//! A timeout primitive for asynchronous operations, built for busy services
//! where timeouts are created and cancelled at a very high rate.
//!
//! The verified core consists of three parts:
//! - [`tick`]: deadline quantization, which rounds every deadline up to the
//!   next multiple of a fixed tick resolution so that unrelated callers can
//!   share one physical timer;
//! - [`timer`]: the shared timer wheel, a map from quantized deadline to a
//!   single timer entry, with exactly-once entry creation, waiter
//!   registration, firing and garbage collection;
//! - [`timeout`]: the per-call decision logic of the timeout future: the
//!   wrapped operation is always polled first, a delay is armed lazily on the
//!   first poll that finds the operation pending, and operation completion
//!   wins ties against an expired delay.
//!
//! The asynchronous glue (the actual `Future` implementation, the physical
//! timers and the wake-ups) lives outside the verified core and drives it.

use vstd::prelude::*;

pub mod tick;
pub mod timer;
pub mod timeout;

verus! {

/// The error returned when the deadline is reached before the wrapped
/// operation produces a result. Carries no payload: it only signals that the
/// allotted time elapsed, and is always distinct from any error the wrapped
/// operation itself might produce.
#[derive(Debug, Clone, Copy, PartialEq, Eq, Structural)]
pub struct Elapsed;

impl Elapsed {
    /// A human-readable description of the error.
    pub fn message(&self) -> (s: &'static str)
        ensures
            s@ == "Timeout Elapsed"@,
    {
        "Timeout Elapsed"
    }
}

} // verus!
