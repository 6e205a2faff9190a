//! Control decisions of the replay loop.
//!
//! The capture-record source is an outside collaborator: each attempt to
//! pull a record ends in one of four ways, and what the loop must do next
//! is a fixed rule on that outcome.  The rule lives here, verified; the
//! unverified shell only performs the chosen action.

use vstd::prelude::*;

verus! {

/// What the capture-record source reported when asked for its next record.
#[derive(Clone, Copy, Debug, PartialEq, Eq, Structural)]
pub enum SourceEvent {
    /// A record was decoded; `eligible` says whether it is a plain
    /// link-layer packet record of the kind replay handles.
    Record { eligible: bool },
    /// The source is exhausted: the pass is complete.
    EndOfStream,
    /// The record is incomplete; more bytes may arrive after a refill.
    Incomplete,
    /// The source reports a corrupt or unparseable record; its position
    /// can no longer be trusted.
    DecodeFault,
}

/// What the replay loop does next.
#[derive(Clone, Copy, Debug, PartialEq, Eq, Structural)]
pub enum Decision {
    /// Extract, pace and transmit the record, then advance past it.
    Process,
    /// Advance past the record with no timing or transmit action.
    Skip,
    /// Ask the source to refill its buffer and fetch again.
    Refill,
    /// End the pass normally and report its summary.
    FinishPass,
    /// Abort the whole run: the stream is no longer trustworthy.
    Abort,
}

/// The loop rule: eligible records are processed, other records skipped
/// silently, an incomplete read is retried after a refill, end of stream
/// finishes the pass, and a decode fault aborts the run.
pub open spec fn spec_decide(e: SourceEvent) -> Decision {
    match e {
        SourceEvent::Record { eligible } => if eligible {
            Decision::Process
        } else {
            Decision::Skip
        },
        SourceEvent::EndOfStream => Decision::FinishPass,
        SourceEvent::Incomplete => Decision::Refill,
        SourceEvent::DecodeFault => Decision::Abort,
    }
}

/// Decide what the replay loop does after one fetch attempt.
pub fn decide(e: SourceEvent) -> (d: Decision)
    ensures
        d == spec_decide(e),
{
    match e {
        SourceEvent::Record { eligible } => if eligible {
            Decision::Process
        } else {
            Decision::Skip
        },
        SourceEvent::EndOfStream => Decision::FinishPass,
        SourceEvent::Incomplete => Decision::Refill,
        SourceEvent::DecodeFault => Decision::Abort,
    }
}

} // verus!
