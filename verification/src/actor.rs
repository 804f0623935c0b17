//! The executor.

use crate::background::Background;
use crate::block_map::BlockMap;
use crate::chain::{Block, Digest, Height, Nanos, PublicKey, Round};
use crate::engine::LocalState;
use crate::state::{BlockFetch, PendingHead, State};
use crate::task::{ConsensusRequest, ExecutionTask, FinalizedBlockRequest, InFlightTask};
use crate::walk::PayloadWalk;
use std::collections::VecDeque;
use std::sync::Arc;
use vstd::prelude::*;

verus! {

/// The executor's state.
///
/// `B` is the body of a block, `V` the subscriber to a verdict, `P` the
/// attributes and the subscriber of a payload, and `A` what acknowledges a
/// finalized block. The executor passes them on and never looks into them; a
/// subscriber that is dropped learns of the failure by that.
pub struct Actor<B, V, P, A> {
    /// The height to which finalized blocks are backfilled on startup.
    pub finalized_floor: Height,
    /// How long the execution layer may have nothing to do before the
    /// forkchoice is re-affirmed.
    pub fcu_heartbeat_interval: Nanos,
    /// The timer of the next heartbeat. It runs while no work can start.
    pub fcu_heartbeat_timer: Background<Nanos>,
    /// Finalized blocks to be delivered.
    pub pending_finalizations: VecDeque<FinalizedBlockRequest<B, A>>,
    /// Finalized blocks that were delivered and wait for the forkchoice update
    /// that finalizes them. In height order.
    pub pending_acknowledgements: VecDeque<FinalizedBlockRequest<B, A>>,
    /// How many blocks the execution layer may have executed since the last
    /// forkchoice update.
    pub deliveries_since_forkchoice: usize,
    /// The newest round observed. Requests can arrive out of order; the parent
    /// of an older round must not supersede that of a newer one.
    pub latest_consensus_round: Round,
    /// The latest consensus request that has not started, with its round.
    pub pending_consensus_request: Option<(Round, ConsensusRequest<B, V, P>)>,
    /// The verification that has started, between two calls of the execution
    /// layer. During a call the task owns it.
    pub verification: Option<PayloadWalk<B, V>>,
    pub verification_retry: Background<Nanos>,
    /// The fetch of the ancestor that the verification waits for.
    pub pending_verification_block: Background<BlockFetch>,
    /// The walk that delivers a build's parent.
    pub convergence: Option<PayloadWalk<B, V>>,
    pub convergence_retry: Background<Nanos>,
    /// The fetch of a build's parent, or of an ancestor that its walk waits
    /// for.
    pub pending_convergence_block: Background<BlockFetch>,
    /// The one task that the execution layer is busy with.
    pub execution_task: Option<InFlightTask>,
    /// The last accepted forkchoice.
    pub local_state: LocalState,
    /// The last finalized block that was delivered.
    pub delivered_finalized: (Height, Digest),
    /// The finalized tip that the network has reported.
    pub network_finalized_tip: (Round, Height, Digest),
    /// The head that the latest round has selected.
    pub pending_head: PendingHead,
    /// The heights of blocks that `VALID` answers proved executed.
    pub known_blocks: BlockMap<Height>,
    /// The blocks that this node built. They are not delivered by a
    /// verification, so their bodies are kept until finality overtakes them.
    pub built_blocks: BlockMap<Arc<Block<B>>>,
    /// This node's key, if it takes part in consensus.
    pub public_key: Option<PublicKey>,
}

impl<B, V, P, A> View for Actor<B, V, P, A> {
    type V = State<B, V, P, A>;

    open spec fn view(&self) -> State<B, V, P, A> {
        State {
            finalized_floor: self.finalized_floor,
            fcu_heartbeat_interval: self.fcu_heartbeat_interval,
            fcu_heartbeat_timer: self.fcu_heartbeat_timer,
            pending_finalizations: self.pending_finalizations@,
            pending_acknowledgements: self.pending_acknowledgements@,
            deliveries_since_forkchoice: self.deliveries_since_forkchoice,
            latest_consensus_round: self.latest_consensus_round,
            pending_consensus_request: self.pending_consensus_request,
            verification: self.verification,
            verification_retry: self.verification_retry,
            pending_verification_block: self.pending_verification_block,
            convergence: self.convergence,
            convergence_retry: self.convergence_retry,
            pending_convergence_block: self.pending_convergence_block,
            execution_task: self.execution_task,
            local_state: self.local_state,
            delivered_finalized: self.delivered_finalized,
            network_finalized_tip: self.network_finalized_tip,
            pending_head: self.pending_head,
            known_blocks: self.known_blocks@,
            built_blocks: self.built_blocks@,
            public_key: self.public_key,
        }
    }
}

impl<B, V, P, A> Actor<B, V, P, A> {
    /// Whether the maps of blocks list no block twice.
    pub open spec fn wf(&self) -> bool {
        self.known_blocks.wf() && self.built_blocks.wf()
    }

    /// The height of a block that is known to be executed.
    pub fn known_height(&self, digest: Digest) -> (height: Option<Height>)
        requires
            self.wf(),
        ensures
            height == self@.height_known(digest),
    {
        if self.local_state.head.1 == digest {
            Some(self.local_state.head.0)
        } else if self.local_state.finalized.1 == digest {
            Some(self.local_state.finalized.0)
        } else if self.delivered_finalized.1 == digest {
            Some(self.delivered_finalized.0)
        } else {
            match self.known_blocks.get(digest) {
                Some(height) => Some(*height),
                None => None,
            }
        }
    }

    /// Gives a task to the execution layer, which must not be busy.
    pub(crate) fn set_execution_task(&mut self, task: &ExecutionTask<B, V, P, A>)
        requires
            old(self).execution_task is None,
            old(self).wf(),
        ensures
            final(self).wf(),
            final(self)@ == old(self)@.busy_with(*task),
    {
        self.execution_task = Some(task.in_flight());
    }

    /// Forgets what the finalized tip has overtaken: blocks at or below it, and
    /// a pending head of a round that is not newer than the tip's. Ends the
    /// walk towards a build's parent when that parent is executed or not wanted
    /// any more.
    pub fn prune_finalized(&mut self)
        requires
            old(self).wf(),
        ensures
            final(self).wf(),
            final(self)@ == old(self)@.pruned(),
    {
        let (round, height, digest) = self.network_finalized_tip;
        self.known_blocks.retain_above(height);
        self.built_blocks.retain_above(height);
        if !self.pending_head.round.is_after(round) && self.pending_head.digest != digest {
            self.pending_head = PendingHead::finalized(self.network_finalized_tip);
        }
        if self.pending_head.digest == digest {
            self.pending_head.height = Some(height);
        }
        let other_parent = match &self.convergence {
            Some(walk) => walk.request.block.digest != self.pending_head.digest,
            None => false,
        };
        if !self.pending_head.requires_delivery || other_parent || self.known_height(
            self.pending_head.digest,
        ).is_some() {
            self.convergence = None;
            self.convergence_retry = Background::Idle;
        }
    }
}

} // verus!
