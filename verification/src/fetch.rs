//! The walks between calls of the execution layer: when they rest, when they
//! begin anew, and which blocks are fetched for them.

use crate::actor::Actor;
use crate::background::Background;
use crate::chain::{share, Block, Digest, Height, Nanos, Round};
use crate::state::{fetch_for, BlockFetch, PendingHead, State, VERIFICATION_RETRY_INTERVAL};
use crate::task::ExecutionTaskType;
use crate::walk::{handle_fetched_parent, PayloadWalk, WalkStep};
use std::sync::Arc;
use vstd::prelude::*;

verus! {

/// Gives up a fetch of any block but `next`, and orders the fetch of `next`
/// unless it is being fetched.
pub fn update_block_fetch(pending: &mut Background<BlockFetch>, next: Option<(Round, Digest)>)
    ensures
        *final(pending) == fetch_for(*old(pending), next),
{
    let current = pending.work();
    match next {
        None => {
            *pending = Background::Idle;
        },
        Some((round, digest)) => {
            let continues = match current {
                Some(fetch) => fetch.digest == digest,
                None => false,
            };
            if !continues {
                *pending = Background::Ordered(BlockFetch { round, digest });
            }
        },
    }
}

impl<B, V, P, A> Actor<B, V, P, A> {
    /// Makes one walk ready for the next iteration.
    fn prepare_walk(
        walk: &mut Option<PayloadWalk<B, V>>,
        retry: &mut Background<Nanos>,
        tip: (Round, Height, Digest),
    )
        ensures
            *final(walk) == State::<B, V, P, A>::stopped_at_tip(*old(walk), tip),
            *final(retry) == State::<B, V, P, A>::retry_timer(*final(walk), *old(retry)),
    {
        if let Some(mut active) = walk.take() {
            if active.step == WalkStep::Parent && (active.cursor.parent_digest == tip.2
                || active.cursor.height.saturating_sub(1) <= tip.1) {
                active.step = WalkStep::Retry;
            }
            if active.step == WalkStep::Retry && retry.is_idle() {
                *retry = Background::Ordered(VERIFICATION_RETRY_INTERVAL);
            }
            *walk = Some(active);
        }
    }

    /// Makes the walks ready for the next iteration. A verification whose
    /// subscriber went away ends. Only `SYNCING` asks for an ancestor, and
    /// finalized history is left to the finalization pipeline: a walk that has
    /// come down to it rests, even where finality advanced during a fetch.
    pub fn prepare_walks(&mut self, subscriber_gone: bool)
        requires
            old(self).wf(),
        ensures
            final(self).wf(),
            final(self)@ == old(self)@.walks_prepared(subscriber_gone),
    {
        let canceled = match &self.verification {
            Some(walk) => walk.request.is_canceled(subscriber_gone),
            None => false,
        };
        if canceled {
            self.cancel_verification();
        }
        let tip = self.network_finalized_tip;
        Self::prepare_walk(&mut self.verification, &mut self.verification_retry, tip);
        Self::prepare_walk(&mut self.convergence, &mut self.convergence_retry, tip);
    }

    /// Ends the verification: its subscriber went away.
    pub fn cancel_verification(&mut self)
        requires
            old(self).wf(),
        ensures
            final(self).wf(),
            final(self)@ == old(self)@.without_verification(),
    {
        self.verification = None;
        self.verification_retry = Background::Idle;
    }

    /// Begins the verification anew: its retry timer went off.
    pub fn retry_verification(&mut self)
        requires
            old(self).wf(),
        ensures
            final(self).wf(),
            final(self)@ == old(self)@.verification_retried(),
    {
        self.verification_retry = Background::Idle;
        if let Some(mut walk) = self.verification.take() {
            walk.retry();
            self.verification = Some(walk);
        }
    }

    /// Begins the walk towards a build's parent anew: its retry timer went
    /// off.
    pub fn retry_convergence(&mut self)
        requires
            old(self).wf(),
        ensures
            final(self).wf(),
            final(self)@ == old(self)@.convergence_retried(),
    {
        self.convergence_retry = Background::Idle;
        if let Some(mut walk) = self.convergence.take() {
            walk.retry();
            self.convergence = Some(walk);
        }
    }

    /// The ancestor that a walk waits for.
    fn wanted_ancestor(walk: &Option<PayloadWalk<B, V>>) -> (wanted: Option<(Round, Digest)>)
        ensures
            wanted == State::<B, V, P, A>::ancestor_wanted(*walk),
    {
        match walk {
            Some(walk) => {
                if walk.step == WalkStep::Parent {
                    Some(walk.parent())
                } else {
                    None
                }
            },
            None => None,
        }
    }

    /// Fetches exactly the blocks that the two walks wait for. Each walk has a
    /// fetch of its own. No ancestry is fetched ahead: the next ancestor is
    /// asked for only after `SYNCING`. The delivery of a build's parent begins
    /// at once where this node built that parent.
    pub fn update_block_fetches(&mut self)
        requires
            old(self).wf(),
        ensures
            final(self).wf(),
            final(self)@ == old(self)@.fetches_updated(),
    {
        let next = Self::wanted_ancestor(&self.verification);
        update_block_fetch(&mut self.pending_verification_block, next);

        let delivering = match &self.execution_task {
            Some(task) => task.task_type == ExecutionTaskType::Deliver,
            None => false,
        };
        let needs_parent = !delivering && self.pending_head.requires_delivery
            && self.known_height(self.pending_head.digest).is_none() && self.pending_head.digest
            != self.network_finalized_tip.2;
        if needs_parent && self.convergence.is_none() {
            if let Some(block) = self.built_blocks.get(self.pending_head.digest) {
                let block = share(block);
                self.pending_head.height = Some(block.height);
                self.convergence = Some(PayloadWalk::converge(block));
            }
        }
        let next = if !needs_parent {
            None
        } else if self.convergence.is_none() {
            Some((self.pending_head.round, self.pending_head.digest))
        } else {
            Self::wanted_ancestor(&self.convergence)
        };
        update_block_fetch(&mut self.pending_convergence_block, next);
    }

    /// Takes the block that was fetched for the verification under `digest`.
    pub fn handle_fetched_verification_block(
        &mut self,
        digest: Digest,
        block: Option<Arc<Block<B>>>,
    )
        requires
            old(self).wf(),
        ensures
            final(self).wf(),
            final(self)@ == old(self)@.verification_block_fetched(digest, block),
    {
        self.pending_verification_block = Background::Idle;
        handle_fetched_parent(&mut self.verification, digest, block);
    }

    /// Takes the block that was fetched under `digest` for the delivery of a
    /// build's parent: an ancestor that its walk waits for, or the parent
    /// itself, with which the walk begins. A parent that finality has overtaken
    /// is not delivered; the finalized tip takes its place.
    pub fn handle_fetched_convergence_block(
        &mut self,
        digest: Digest,
        block: Option<Arc<Block<B>>>,
    )
        requires
            old(self).wf(),
        ensures
            final(self).wf(),
            final(self)@ == old(self)@.convergence_block_fetched(digest, block),
    {
        self.pending_convergence_block = Background::Idle;
        if self.convergence.is_some() {
            handle_fetched_parent(&mut self.convergence, digest, block);
        } else if let Some(block) = block {
            if block.digest == digest {
                if block.height > self.network_finalized_tip.1 {
                    self.pending_head.height = Some(block.height);
                    self.convergence = Some(PayloadWalk::converge(block));
                } else {
                    self.pending_head = PendingHead::finalized(self.network_finalized_tip);
                }
            }
        }
    }

    /// Keeps a block that this node built and its subscriber received, for a
    /// later build on it.
    pub fn retain_built_block(&mut self, block: Arc<Block<B>>)
        requires
            old(self).wf(),
        ensures
            final(self).wf(),
            final(self)@ == old(self)@.block_built(block),
    {
        self.built_blocks.insert(block.digest, block);
    }
}

} // verus!
