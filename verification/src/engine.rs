//! The execution layer: its answers, its forkchoice, and the rules by which
//! an update may be submitted to it.

use crate::chain::{Digest, Height};
use crate::error::ForkchoiceFailure;
use vstd::prelude::*;

verus! {

/// The status that the execution layer gives a payload.
#[derive(Debug)]
pub enum PayloadStatus {
    /// The payload was executed and is valid.
    Valid,
    /// The payload is invalid.
    Invalid { validation_error: String },
    /// The payload cannot be executed yet: its ancestry is missing.
    Syncing,
    /// The payload was stored without being executed.
    Accepted,
}

impl PayloadStatus {
    /// Whether the payload was executed and is valid.
    pub fn is_valid(&self) -> (valid: bool)
        ensures
            valid == (*self is Valid),
    {
        matches!(*self, PayloadStatus::Valid)
    }
}

/// The identifier of a payload that is being built.
pub type PayloadId = [u8; 8];

/// The answer to a forkchoice update.
#[derive(Debug)]
pub struct ForkchoiceUpdated {
    pub payload_status: PayloadStatus,
    /// The payload whose build the update started.
    pub payload_id: Option<PayloadId>,
}

impl ForkchoiceUpdated {
    /// Whether the update was accepted.
    pub fn is_valid(&self) -> (valid: bool)
        ensures
            valid == (self.payload_status is Valid),
    {
        self.payload_status.is_valid()
    }
}

/// A forkchoice state, as it is submitted.
#[derive(Clone, Copy, Debug)]
pub struct ForkchoiceState {
    pub head_block_hash: Digest,
    pub safe_block_hash: Digest,
    pub finalized_block_hash: Digest,
}

/// A snapshot of the execution layer's head and finalized tip.
#[derive(Clone, Copy, Debug, Eq)]
pub struct LocalState {
    pub head: (Height, Digest),
    pub finalized: (Height, Digest),
}

impl PartialEq for LocalState {
    fn eq(&self, other: &LocalState) -> (same: bool) {
        self.head.0 == other.head.0 && self.head.1 == other.head.1 && self.finalized.0
            == other.finalized.0 && self.finalized.1 == other.finalized.1
    }
}

impl vstd::std_specs::cmp::PartialEqSpecImpl for LocalState {
    open spec fn obeys_eq_spec() -> bool {
        true
    }

    open spec fn eq_spec(&self, other: &LocalState) -> bool {
        *self == *other
    }
}

impl LocalState {
    /// The state after the finalized tip moved to `digest` at `height`. Only a
    /// height ahead of the finalized height moves it. It takes along a head
    /// that would not be ahead of it.
    pub open spec fn with_finalized(self, height: Height, digest: Digest) -> LocalState {
        if height > self.finalized.0 {
            LocalState {
                finalized: (height, digest),
                head: if height >= self.head.0 {
                    (height, digest)
                } else {
                    self.head
                },
            }
        } else {
            self
        }
    }

    /// The state after the head moved to `digest` at `height`. The head only
    /// moves above the finalized tip, or onto it.
    pub open spec fn with_head(self, height: Height, digest: Digest) -> LocalState {
        if height > self.finalized.0 || (height, digest) == self.finalized {
            LocalState { head: (height, digest), ..self }
        } else {
            self
        }
    }

    /// The forkchoice state to submit: the finalized block is the safe block.
    pub fn to_forkchoice_state(self) -> (state: ForkchoiceState)
        ensures
            state == (ForkchoiceState {
                head_block_hash: self.head.1,
                safe_block_hash: self.finalized.1,
                finalized_block_hash: self.finalized.1,
            }),
    {
        ForkchoiceState {
            head_block_hash: self.head.1,
            safe_block_hash: self.finalized.1,
            finalized_block_hash: self.finalized.1,
        }
    }

    /// Updates the finalized tip to `digest` at `height`.
    ///
    /// `height` must be ahead of the finalized height; if it is not, nothing
    /// changes. If `height` is at or ahead of the head height, the head moves
    /// onto the finalized tip as well, so that the finalized tip is never ahead
    /// of the head.
    pub fn update_finalized(self, height: Height, digest: Digest) -> (updated: LocalState)
        ensures
            updated == self.with_finalized(height, digest),
            self.finalized.0 <= self.head.0 ==> updated.finalized.0 <= updated.head.0,
            updated.finalized.0 >= self.finalized.0,
    {
        let mut this = self;
        if height > this.finalized.0 {
            this.finalized = (height, digest);
            if height >= this.head.0 {
                this.head = (height, digest);
            }
        }
        this
    }

    /// Updates the head to `digest` at `height`.
    ///
    /// The head only moves above the finalized tip, or back onto it; anything
    /// below changes nothing.
    pub fn update_head(self, height: Height, digest: Digest) -> (updated: LocalState)
        ensures
            updated == self.with_head(height, digest),
            updated.finalized == self.finalized,
            self.finalized.0 <= self.head.0 ==> updated.finalized.0 <= updated.head.0,
    {
        let mut this = self;
        if height > this.finalized.0 || (height == this.finalized.0 && digest
            == this.finalized.1) {
            this.head = (height, digest);
        }
        this
    }
}

/// The height that [`stale_read`] asks for.
pub open spec fn read_for_staleness(
    target: LocalState,
    execution_finalized: Height,
) -> Option<Height> {
    if execution_finalized < target.finalized.0 {
        None
    } else {
        Some(target.finalized.0)
    }
}

/// The height whose canonical block decides whether an update to `target` is
/// stale: the tracked finalized height, where the execution layer has
/// finalized that height or a higher one.
pub fn stale_read(target: LocalState, execution_finalized: Height) -> (height: Option<Height>)
    ensures
        height == read_for_staleness(target, execution_finalized),
{
    if execution_finalized < target.finalized.0 {
        None
    } else {
        Some(target.finalized.0)
    }
}

/// What [`is_stale_forkchoice`] decides.
pub open spec fn staleness(
    target: LocalState,
    execution_finalized: Height,
    canonical: Result<Option<Digest>, String>,
) -> Result<bool, ForkchoiceFailure> {
    let height = target.finalized.0;
    if execution_finalized < height {
        Ok(false)
    } else {
        match canonical {
            Err(cause) => Err(ForkchoiceFailure::CanonicalRead { height, cause }),
            Ok(None) => Err(ForkchoiceFailure::CanonicalMissing { height, execution_finalized }),
            Ok(Some(digest)) => if digest == target.finalized.1 {
                Ok(execution_finalized > height)
            } else {
                Err(
                    ForkchoiceFailure::Conflict {
                        height,
                        finalized: target.finalized.1,
                        canonical: digest,
                    },
                )
            },
        }
    }
}

/// Whether `target` finalizes below the execution layer's own finality, so
/// that submitting it would move finality backwards. A tracked finalized block
/// that the execution layer's canonical chain contradicts is a failure.
///
/// `canonical` is what the execution layer gives as its canonical block at the
/// height that [`stale_read`] asks for; where it asks for none, it is not
/// looked at.
pub fn is_stale_forkchoice(
    target: LocalState,
    execution_finalized: Height,
    canonical: Result<Option<Digest>, String>,
) -> (stale: Result<bool, ForkchoiceFailure>)
    ensures
        stale == staleness(target, execution_finalized, canonical),
{
    let height: Height = target.finalized.0;
    if execution_finalized < height {
        return Ok(false);
    }
    match canonical {
        Err(cause) => Err(ForkchoiceFailure::CanonicalRead { height, cause }),
        Ok(None) => Err(ForkchoiceFailure::CanonicalMissing { height, execution_finalized }),
        Ok(Some(digest)) => {
            if digest == target.finalized.1 {
                Ok(execution_finalized > height)
            } else {
                Err(
                    ForkchoiceFailure::Conflict {
                        height,
                        finalized: target.finalized.1,
                        canonical: digest,
                    },
                )
            }
        },
    }
}

/// What becomes of a forkchoice update that is due.
#[derive(Debug)]
pub enum Submission {
    /// It is sent.
    Send(ForkchoiceState),
    /// It is stale: nothing is sent.
    Skip,
    /// It fails without being sent.
    Fail(ForkchoiceFailure),
}

/// What [`submit_forkchoice_update`] decides.
pub open spec fn submission(
    target: LocalState,
    execution_finalized: Height,
    canonical: Result<Option<Digest>, String>,
) -> Submission {
    match staleness(target, execution_finalized, canonical) {
        Ok(false) => Submission::Send(
            ForkchoiceState {
                head_block_hash: target.head.1,
                safe_block_hash: target.finalized.1,
                finalized_block_hash: target.finalized.1,
            },
        ),
        Ok(true) => Submission::Skip,
        Err(failure) => Submission::Fail(failure),
    }
}

/// Decides on the update to `target`: it is sent unless it is stale (see
/// [`is_stale_forkchoice`]). A failing staleness check is reported like a
/// failed update.
pub fn submit_forkchoice_update(
    target: LocalState,
    execution_finalized: Height,
    canonical: Result<Option<Digest>, String>,
) -> (decided: Submission)
    ensures
        decided == submission(target, execution_finalized, canonical),
{
    match is_stale_forkchoice(target, execution_finalized, canonical) {
        Ok(stale) => {
            if stale {
                Submission::Skip
            } else {
                Submission::Send(target.to_forkchoice_state())
            }
        },
        Err(failure) => Submission::Fail(failure),
    }
}

/// A forkchoice update as it goes out: the build it still carries, and what
/// becomes of it.
#[derive(Debug)]
pub struct ForkchoiceAttempt<P> {
    pub target: LocalState,
    /// The build whose payload attributes go with the update.
    pub build: Option<P>,
    pub submission: Submission,
}

/// What [`execute_forkchoice`] prepares.
pub open spec fn attempted<P>(
    target: LocalState,
    build: Option<P>,
    subscriber_gone: bool,
    execution_finalized: Height,
    canonical: Result<Option<Digest>, String>,
) -> ForkchoiceAttempt<P> {
    ForkchoiceAttempt {
        target,
        build: if subscriber_gone {
            None
        } else {
            build
        },
        submission: submission(target, execution_finalized, canonical),
    }
}

/// Prepares the update to `target`. A build whose subscriber went away is
/// dropped; the update goes out without it. An update that changes nothing is
/// submitted all the same.
pub fn execute_forkchoice<P>(
    target: LocalState,
    build: Option<P>,
    subscriber_gone: bool,
    execution_finalized: Height,
    canonical: Result<Option<Digest>, String>,
) -> (attempt: ForkchoiceAttempt<P>)
    ensures
        attempt == attempted(target, build, subscriber_gone, execution_finalized, canonical),
{
    let wanted = if subscriber_gone {
        None
    } else {
        build
    };
    ForkchoiceAttempt {
        target,
        build: wanted,
        submission: submit_forkchoice_update(target, execution_finalized, canonical),
    }
}

} // verus!
