//! Back-pressure policy toward the output-report transport.
//!
//! The transport owns a single report slot. Two of its failure conditions are
//! expected steady-state behaviour and must be absorbed — the report attempt
//! is simply dropped and retried on the next cycle. Anything else is fatal:
//! the device halts rather than degrade. This module decides; the owning
//! application performs the enqueue call and the halt.

use vstd::prelude::*;

verus! {

/// Failure classes an enqueue or housekeeping call of the transport can
/// report.
#[derive(Clone, Copy, Debug, PartialEq, Eq)]
pub enum TransportError {
    /// The transport cannot take a report right now; drop and retry next
    /// cycle.
    WouldBlock,
    /// The transport suppressed a duplicate report; nothing to do.
    Duplicate,
    /// Any other transport failure.
    Fatal,
}

/// Whether one transport outcome must halt the device.
pub open spec fn spec_halts(outcome: Result<(), TransportError>) -> bool {
    outcome matches Err(TransportError::Fatal)
}

/// Decide the reaction to one transport outcome: success, a busy slot and a
/// suppressed duplicate are all absorbed; only a fatal failure halts.
pub fn should_halt(outcome: &Result<(), TransportError>) -> (halt: bool)
    ensures
        halt == spec_halts(*outcome),
{
    match outcome {
        Err(TransportError::Fatal) => true,
        _ => false,
    }
}

} // verus!
