//! What can go wrong.

use crate::chain::{Digest, Height};
use crate::engine::{LocalState, PayloadStatus};
use vstd::prelude::*;

verus! {

/// Why a forkchoice update was not accepted.
#[derive(Debug)]
pub enum ForkchoiceFailure {
    /// The request could not be sent, or its answer did not arrive.
    Transport(String),
    /// The canonical block at the tracked finalized height could not be read.
    CanonicalRead { height: Height, cause: String },
    /// The execution layer has no canonical block at the tracked finalized
    /// height, though it finalized that height or a higher one.
    CanonicalMissing { height: Height, execution_finalized: Height },
    /// The execution layer finalized another block at the tracked finalized
    /// height.
    Conflict { height: Height, finalized: Digest, canonical: Digest },
    /// The execution layer answered with a status other than `VALID`.
    NotValid(PayloadStatus),
}

/// Why the executor refuses to start, to go on, or to answer.
#[derive(Debug)]
pub enum Error {
    /// The finalized tip lies below the finalized floor.
    TipBelowFloor { tip: Height, floor: Height },
    /// The execution layer has no canonical block at the finalized floor,
    /// though the floor is below its finalized height.
    FloorMissing { floor: Height, execution_finalized: Height },
    /// A block could not be delivered.
    DeliveryFailed { cause: String },
    /// A delivered block was accepted without being executed.
    AcceptedWithoutExecution,
    /// A finalized block was answered with a status other than `VALID`.
    FinalizedNotValid { digest: Digest, height: Height, status: PayloadStatus },
    /// A finalized block could not be delivered.
    FinalizedDeliveryFailed { digest: Digest, height: Height, cause: String },
    /// A finalized block that was delivered again is not the execution
    /// layer's canonical block at its height.
    FinalizedConflict { digest: Digest, height: Height, canonical: Option<Digest> },
    /// A forkchoice update was not accepted: the tracked view of the
    /// execution layer has diverged from it.
    ForkchoiceDiverged { target: LocalState, failure: ForkchoiceFailure },
    /// No finalization is known at a height to backfill.
    FinalizationUnknown { height: Height },
    /// The finalized block at a height to backfill is nowhere to be found.
    BlockMissing { height: Height, digest: Digest },
}

} // verus!
