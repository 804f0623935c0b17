//! Walks: probing a block, and its ancestors where the execution layer misses
//! them, until the execution layer has an answer for the block itself.

use crate::chain::{share, Block, Digest, Nanos, Round};
use std::sync::Arc;
use vstd::prelude::*;

verus! {

/// The root of a walk: a verification candidate, or the parent of a build.
#[derive(Debug)]
pub struct PayloadRequest<B, V> {
    /// The round in which the block's parent was notarized.
    pub parent_round: Round,
    pub block: Arc<Block<B>>,
    /// The validator set that goes with the block when it is delivered.
    pub validator_set: Option<Vec<[u8; 32]>>,
    /// The subscriber to the verdict. Absent for the parent of a build, which
    /// nobody waits for.
    pub response: Option<V>,
}

impl<B, V> PayloadRequest<B, V> {
    /// Whether nobody waits for the verdict any more: there was a subscriber,
    /// and it went away.
    pub fn is_canceled(&self, subscriber_gone: bool) -> (canceled: bool)
        ensures
            canceled == (self.response is Some && subscriber_gone),
    {
        self.response.is_some() && subscriber_gone
    }
}

/// What a walk waits for.
#[derive(Clone, Copy, Debug, PartialEq, Eq, Structural)]
pub enum WalkStep {
    /// The cursor is to be delivered.
    Probe,
    /// The cursor's parent is to be fetched.
    Parent,
    /// The walk rests until it is retried.
    Retry,
}

/// A walk between two calls of the execution layer.
#[derive(Debug)]
pub struct PayloadWalk<B, V> {
    pub request: PayloadRequest<B, V>,
    /// The candidate, or the ancestor that is being probed.
    pub cursor: Arc<Block<B>>,
    pub step: WalkStep,
    /// The time that the calls took, without the time spent waiting for
    /// ancestors or retries.
    pub duration: Nanos,
    /// Whether the candidate is being probed again after an ancestor got its
    /// answer. If the candidate is still `SYNCING` then, the walk rests.
    pub reprobed: bool,
}

impl<B, V> PayloadWalk<B, V> {
    /// Whether the cursor is the candidate.
    pub open spec fn at_candidate(self) -> bool {
        self.cursor.digest == self.request.block.digest
    }

    /// The round and the digest of the cursor's parent.
    pub open spec fn cursor_parent(self) -> (Round, Digest) {
        (
            if self.at_candidate() {
                self.request.parent_round
            } else {
                self.cursor.context.parent_round_of()
            },
            self.cursor.parent_digest,
        )
    }

    /// The cursor is the candidate or one of the blocks below it.
    pub open spec fn wf(self) -> bool {
        self.cursor == self.request.block || self.cursor.height < self.request.block.height
    }

    /// The validator set that goes with the cursor when it is delivered.
    pub open spec fn set_delivered(self) -> Option<Vec<[u8; 32]>> {
        if self.at_candidate() {
            self.request.validator_set
        } else {
            None
        }
    }

    /// A walk that has not begun.
    pub open spec fn begun(request: PayloadRequest<B, V>) -> PayloadWalk<B, V> {
        PayloadWalk {
            request,
            cursor: request.block,
            step: WalkStep::Probe,
            duration: 0,
            reprobed: false,
        }
    }

    /// The walk that delivers the parent of a build.
    pub open spec fn converging(block: Arc<Block<B>>) -> PayloadWalk<B, V> {
        PayloadWalk::begun(
            PayloadRequest {
                parent_round: block.context.parent_round_of(),
                block,
                validator_set: None,
                response: None,
            },
        )
    }

    /// The walk back at its candidate, after an ancestor got its answer.
    pub open spec fn back_at_candidate(self) -> PayloadWalk<B, V> {
        PayloadWalk {
            cursor: self.request.block,
            step: WalkStep::Probe,
            reprobed: true,
            ..self
        }
    }

    /// The walk begun anew, with the time it took so far.
    pub open spec fn begun_anew(self) -> PayloadWalk<B, V> {
        PayloadWalk {
            cursor: self.request.block,
            step: WalkStep::Probe,
            reprobed: false,
            ..self
        }
    }

    /// Starts a walk.
    pub fn new(request: PayloadRequest<B, V>) -> (walk: PayloadWalk<B, V>)
        ensures
            walk == PayloadWalk::begun(request),
    {
        PayloadWalk {
            cursor: share(&request.block),
            request,
            step: WalkStep::Probe,
            duration: 0,
            reprobed: false,
        }
    }

    /// Starts the walk that delivers the parent of a build. Nobody waits for
    /// its verdict.
    pub fn converge(block: Arc<Block<B>>) -> (walk: PayloadWalk<B, V>)
        ensures
            walk == PayloadWalk::<B, V>::converging(block),
    {
        let parent_round = block.context.parent_round();
        PayloadWalk::new(
            PayloadRequest { parent_round, block, validator_set: None, response: None },
        )
    }

    /// Whether the cursor is the candidate.
    pub fn is_candidate(&self) -> (candidate: bool)
        ensures
            candidate == self.at_candidate(),
    {
        self.cursor.digest == self.request.block.digest
    }

    /// The round and the digest of the cursor's parent.
    pub fn parent(&self) -> (parent: (Round, Digest))
        ensures
            parent == self.cursor_parent(),
    {
        let round = if self.is_candidate() {
            self.request.parent_round
        } else {
            self.cursor.context.parent_round()
        };
        (round, self.cursor.parent_digest)
    }

    /// The validator set that goes with the cursor when it is delivered: the
    /// candidate's own; none goes with an ancestor.
    pub fn validator_set(&self) -> (set: Option<&Vec<[u8; 32]>>)
        ensures
            set == (match self.set_delivered() {
                Some(set) => Some(&set),
                None => None,
            }),
    {
        if self.is_candidate() {
            match &self.request.validator_set {
                Some(set) => Some(set),
                None => None,
            }
        } else {
            None
        }
    }

    /// Goes back to the candidate, to learn its own verdict.
    pub fn reprobe(&mut self)
        ensures
            *final(self) == old(self).back_at_candidate(),
    {
        self.cursor = share(&self.request.block);
        self.step = WalkStep::Probe;
        self.reprobed = true;
    }

    /// Begins anew at the candidate.
    pub fn retry(&mut self)
        ensures
            *final(self) == old(self).begun_anew(),
    {
        self.reprobe();
        self.reprobed = false;
    }
}

/// A walk after the ancestor that was asked for under `digest` came back as
/// `block`, or did not come back.
pub open spec fn after_fetch<B, V>(
    walk: Option<PayloadWalk<B, V>>,
    digest: Digest,
    block: Option<Arc<Block<B>>>,
) -> Option<PayloadWalk<B, V>> {
    match (walk, block) {
        (Some(active), Some(block)) => if block.digest == digest && block.height + 1
            == active.cursor.height {
            Some(PayloadWalk { cursor: block, step: WalkStep::Probe, ..active })
        } else {
            None
        },
        _ => walk,
    }
}

/// Continues a walk with the ancestor that was asked for under `digest`. A
/// block that is not the one asked for, or does not stand just below the
/// cursor, ends the walk. Where the fetch brought nothing, the walk stays as it
/// is, and the fetch is made again.
pub fn handle_fetched_parent<B, V>(
    walk: &mut Option<PayloadWalk<B, V>>,
    digest: Digest,
    block: Option<Arc<Block<B>>>,
)
    ensures
        *final(walk) == after_fetch(*old(walk), digest, block),
{
    if let Some(mut active) = walk.take() {
        match block {
            Some(block) => {
                if block.digest == digest && block.height.checked_add(1) == Some(
                    active.cursor.height,
                ) {
                    active.cursor = block;
                    active.step = WalkStep::Probe;
                    *walk = Some(active);
                }
            },
            None => {
                *walk = Some(active);
            },
        }
    }
}

} // verus!
