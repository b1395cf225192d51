// The three behaviors of a timeout-wrapped operation, driven poll by poll
// through the verified decision logic: the wrapped operation times out,
// returns instantly, or returns before the deadline.

use pingora_timeout::timeout::{OpStep, TimeoutCore, TimeoutPoll, TimerBackend};
use pingora_timeout::timer::TimerWheel;
use pingora_timeout::Elapsed;

// Timeout of 1s around an operation that sleeps 1000s: the delay fires first
// and the result is the timeout error.
#[test]
fn test_timeout() {
    let mut wheel = TimerWheel::new();
    let mut core = TimeoutCore::new(1000, TimerBackend::Coalesced);

    // First poll at t = 0: the operation (a 1000s sleep) is pending, so the
    // delay is armed now.
    let step = core.on_operation_poll::<u64>(None, 0);
    let deadline = match step {
        OpStep::PollDelay { deadline_ms, armed_now } => {
            assert!(armed_now);
            deadline_ms
        }
        OpStep::Completed(_) => panic!("operation cannot be ready"),
    };
    let created = wheel.get_or_create(deadline);
    assert!(created);
    let already_fired = wheel.register_waiter(deadline);
    assert!(!already_fired);
    assert!(matches!(core.on_delay_poll(false), TimeoutPoll::StillPending));

    // The physical timer for the deadline completes long before the
    // operation would: the next poll sees the delay fired.
    let woken = wheel.fire(deadline);
    assert_eq!(woken, 1);
    let step = core.on_operation_poll::<u64>(None, deadline);
    assert!(matches!(step, OpStep::PollDelay { armed_now: false, .. }));
    let verdict = core.on_delay_poll(true);
    let result: Result<u64, Elapsed> = match verdict {
        TimeoutPoll::TimedOut => Err(Elapsed),
        TimeoutPoll::StillPending => panic!("delay had fired"),
    };
    assert!(result.is_err());
}

// An operation that is ready on the very first poll completes with its own
// value and never touches the timer subsystem.
#[test]
fn test_instantly_return() {
    let mut core = TimeoutCore::new(1000, TimerBackend::Coalesced);
    let step = core.on_operation_poll(Some(1u64), 0);
    let result: Result<u64, Elapsed> = match step {
        OpStep::Completed(v) => Ok(v),
        OpStep::PollDelay { .. } => Err(Elapsed),
    };
    assert_eq!(result.unwrap(), 1);
    // No delay was armed: zero timer registrations for this call.
    assert!(core.deadline_ms.is_none());
}

// Timeout of 1000s around an operation that completes after 1s: the
// operation wins and its value comes through unchanged.
#[test]
fn test_delayed_return() {
    let mut wheel = TimerWheel::new();
    let mut core = TimeoutCore::new(1000 * 1000, TimerBackend::Coalesced);

    // First poll at t = 0: the operation (a 1s sleep) is pending.
    let step = core.on_operation_poll::<u64>(None, 0);
    let deadline = match step {
        OpStep::PollDelay { deadline_ms, armed_now } => {
            assert!(armed_now);
            deadline_ms
        }
        OpStep::Completed(_) => panic!("operation cannot be ready yet"),
    };
    wheel.get_or_create(deadline);
    wheel.register_waiter(deadline);
    assert!(matches!(core.on_delay_poll(false), TimeoutPoll::StillPending));

    // At t = 1000 the operation completes; its deadline (at t = 1000000) is
    // nowhere near, and the value is returned as-is.
    let step = core.on_operation_poll(Some(1u64), 1000);
    let result: Result<u64, Elapsed> = match step {
        OpStep::Completed(v) => Ok(v),
        OpStep::PollDelay { .. } => Err(Elapsed),
    };
    assert_eq!(result.unwrap(), 1);
    // The dropped timeout releases its registration.
    wheel.deregister_waiter(deadline);
}

// Tie-break: when the operation completes in the same poll in which the
// delay has already fired, completion wins.
#[test]
fn tie_break_completion_wins() {
    let mut wheel = TimerWheel::new();
    let mut core = TimeoutCore::new(50, TimerBackend::Coalesced);

    let step = core.on_operation_poll::<u64>(None, 0);
    let deadline = match step {
        OpStep::PollDelay { deadline_ms, .. } => deadline_ms,
        OpStep::Completed(_) => panic!("operation cannot be ready yet"),
    };
    wheel.get_or_create(deadline);
    wheel.register_waiter(deadline);
    // The delay fires...
    wheel.fire(deadline);
    // ...but the operation is also ready by the next poll: Ok wins.
    let step = core.on_operation_poll(Some(9u64), deadline);
    assert!(matches!(step, OpStep::Completed(9)));
}

// The delay is armed at most once: a second pending poll reuses the first
// poll's deadline, whatever the current time is.
#[test]
fn delay_armed_at_most_once() {
    let mut core = TimeoutCore::new(100, TimerBackend::Coalesced);
    let first = core.on_operation_poll::<u64>(None, 0);
    let d1 = match first {
        OpStep::PollDelay { deadline_ms, armed_now } => {
            assert!(armed_now);
            deadline_ms
        }
        OpStep::Completed(_) => panic!("operation cannot be ready yet"),
    };
    let second = core.on_operation_poll::<u64>(None, 77);
    match second {
        OpStep::PollDelay { deadline_ms, armed_now } => {
            assert!(!armed_now);
            assert_eq!(deadline_ms, d1);
        }
        OpStep::Completed(_) => panic!("operation cannot be ready yet"),
    }
}

// The direct backend arms the exact raw deadline; the coalesced backend arms
// the next tick boundary. Both lie inside the tolerance window.
#[test]
fn backends_plan_deadlines() {
    let mut direct = TimeoutCore::new(495, TimerBackend::Direct);
    match direct.on_operation_poll::<u64>(None, 7) {
        OpStep::PollDelay { deadline_ms, .. } => assert_eq!(deadline_ms, 502),
        OpStep::Completed(_) => panic!("operation cannot be ready yet"),
    }
    let mut shared = TimeoutCore::new(495, TimerBackend::Coalesced);
    match shared.on_operation_poll::<u64>(None, 7) {
        OpStep::PollDelay { deadline_ms, .. } => assert_eq!(deadline_ms, 510),
        OpStep::Completed(_) => panic!("operation cannot be ready yet"),
    }
}

#[test]
fn elapsed_message() {
    assert_eq!(Elapsed.message(), "Timeout Elapsed");
}
