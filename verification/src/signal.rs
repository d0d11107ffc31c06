//! What the supervisor does about an interrupt.
//!
//! The handler and the main loop share one word of flags and nothing else.
//! The handler only ever sets bits in it; the loop only reads it.

use std::sync::atomic::{AtomicUsize, Ordering};
use vstd::prelude::*;
use crate::platform::{sigint, spec_sigint};

verus! {

/// The flag that says an interrupt was received.
pub const FLAG_INT_RECEIVED: usize = 1;

/// The exit code of a supervisor that a second interrupt cut short.
pub const FORCED_EXIT_CODE: i32 = 1;

/// What a signal calls for.
#[derive(Debug, Clone, Copy, PartialEq, Eq, Structural)]
pub enum SignalAction {
    /// Nothing: the signal is none of the supervisor's.
    Ignore,
    /// The first interrupt: the main loop is to shut the processes down.
    Shutdown,
    /// A further interrupt: the supervisor is to exit at once, with this
    /// code, and do nothing else before.
    ForceExit { code: i32 },
}

/// Whether the flags say that an interrupt was received.
pub open spec fn spec_is_interrupted(flags: usize) -> bool {
    flags & FLAG_INT_RECEIVED != 0
}

/// The flags once an interrupt has been recorded in them.
pub open spec fn with_interrupt(flags: usize) -> usize {
    flags | FLAG_INT_RECEIVED
}

/// What `signal` calls for when the flags stood at `previous` as it came.
pub open spec fn signal_action(signal: i32, previous: usize) -> SignalAction {
    if signal != spec_sigint() {
        SignalAction::Ignore
    } else if spec_is_interrupted(previous) {
        SignalAction::ForceExit { code: FORCED_EXIT_CODE }
    } else {
        SignalAction::Shutdown
    }
}

/// Whether the flags say that an interrupt was received.
#[verifier::when_used_as_spec(spec_is_interrupted)]
pub fn is_interrupted(flags: usize) -> (b: bool)
    ensures
        b == spec_is_interrupted(flags),
{
    flags & FLAG_INT_RECEIVED != 0
}

/// Decides what `signal` calls for, from the flags as they stood before it
/// was recorded.
pub fn decide_signal(signal: i32, previous: usize) -> (action: SignalAction)
    ensures
        action == signal_action(signal, previous),
{
    if signal != sigint() {
        SignalAction::Ignore
    } else if is_interrupted(previous) {
        SignalAction::ForceExit { code: FORCED_EXIT_CODE }
    } else {
        SignalAction::Shutdown
    }
}

/// The signal handler's whole work: it records an interrupt in the shared
/// flags, in one atomic step, and decides from what stood there before. It
/// does nothing else, so that it can run at any moment.
///
/// A signal other than the interrupt leaves the flags alone and is ignored.
/// For an interrupt the action is one of the other two; which one depends on
/// the flags at that moment, which only the atomic step sees.
pub fn handler(flags: &AtomicUsize, signal: i32) -> (action: SignalAction)
    ensures
        signal != spec_sigint() ==> action == SignalAction::Ignore,
        signal == spec_sigint() ==> action == SignalAction::Shutdown || action
            == (SignalAction::ForceExit { code: FORCED_EXIT_CODE }),
{
    if signal != sigint() {
        return SignalAction::Ignore;
    }
    let previous = flags.fetch_or(FLAG_INT_RECEIVED, Ordering::SeqCst);
    decide_signal(signal, previous)
}

/// Whether an interrupt has been recorded in the shared flags by now.
pub fn interrupt_received(flags: &AtomicUsize) -> bool {
    is_interrupted(flags.load(Ordering::SeqCst))
}

/// The first interrupt, on flags that hold none yet, asks for a shutdown and
/// leaves the flag set; any interrupt that finds the flag set forces the
/// exit. So of two interrupts in a row the second always forces the exit,
/// whatever else the flags hold.
pub proof fn law_second_interrupt_forces_exit(flags: usize)
    ensures
        signal_action(spec_sigint(), 0) == SignalAction::Shutdown,
        spec_is_interrupted(with_interrupt(flags)),
        signal_action(spec_sigint(), with_interrupt(flags)) == (SignalAction::ForceExit {
            code: FORCED_EXIT_CODE,
        }),
        FORCED_EXIT_CODE != 0,
{
    assert(0usize & 1 == 0) by (bit_vector);
    assert((flags | 1) & 1 != 0) by (bit_vector);
}

/// Recording an interrupt never clears a flag that was set.
pub proof fn law_flags_are_never_reset(flags: usize)
    ensures
        with_interrupt(flags) & flags == flags,
        spec_is_interrupted(flags) ==> with_interrupt(flags) == flags,
{
    assert((flags | 1) & flags == flags) by (bit_vector);
    assert(flags & 1 != 0 ==> (flags | 1) == flags) by (bit_vector);
}

} // verus!
