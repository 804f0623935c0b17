//! Messages of the consensus engine.

use crate::actor::Actor;
use crate::chain::{Block, Context, Digest, Height, Round};
use crate::state::{PendingHead, State};
use crate::task::{queue_consensus_request, Build, ConsensusRequest, FinalizedBlockRequest};
use crate::walk::PayloadRequest;
use std::sync::Arc;
use vstd::prelude::*;

verus! {

/// A message of the consensus engine.
#[derive(Debug)]
pub enum Message<B, V, P, A> {
    /// Build a block. `subscriber_gone` says whether nobody waits for it any
    /// more.
    Build { build: Build<P>, subscriber_gone: bool },
    /// The network's finalized tip has moved.
    Tip { round: Round, height: Height, digest: Digest },
    /// A finalized block is to be delivered.
    Finalized(FinalizedBlockRequest<B, A>),
    /// Verify a block.
    VerifyBlock {
        context: Context,
        block: Arc<Block<B>>,
        validator_set: Option<Vec<[u8; 32]>>,
        response: V,
    },
}

impl<B, V, P, A> State<B, V, P, A> {
    /// The state after a message.
    pub open spec fn messaged(self, message: Message<B, V, P, A>) -> State<B, V, P, A> {
        match message {
            Message::Build { build, subscriber_gone } => self.build_requested(
                build,
                subscriber_gone,
            ),
            Message::Tip { round, height, digest } => self.tip_reported(round, height, digest),
            Message::Finalized(request) => self.finalization_queued(request),
            Message::VerifyBlock { context, block, validator_set, response } =>
                self.verification_requested(context, block, validator_set, response),
        }
    }
}

impl<B, V, P, A> Actor<B, V, P, A> {
    /// Records the newest observed round and the block it selects as head. A
    /// request to build or verify selects its parent, a report of the finalized
    /// tip the finalized block itself. A later round can select an older
    /// parent, so it is the observed round that orders the selections.
    pub fn record_convergence_target(
        &mut self,
        round: Round,
        target: (u64, Digest),
        requires_delivery: bool,
    )
        requires
            old(self).wf(),
        ensures
            final(self).wf(),
            final(self)@ == old(self)@.target_recorded(round, target, requires_delivery),
    {
        if !self.latest_consensus_round.is_after(round) {
            self.latest_consensus_round = round;
            let height = match self.known_height(target.1) {
                Some(height) => Some(height),
                None => {
                    if self.pending_head.digest == target.1 {
                        self.pending_head.height
                    } else {
                        None
                    }
                },
            };
            self.pending_head = PendingHead {
                round: Round::new(round.epoch, target.0),
                digest: target.1,
                height,
                requires_delivery,
            };
        }
    }

    /// Takes a message.
    pub fn handle_message(&mut self, message: Message<B, V, P, A>)
        requires
            old(self).wf(),
        ensures
            final(self).wf(),
            final(self)@ == old(self)@.messaged(message),
    {
        match message {
            Message::Build { build, subscriber_gone } => {
                let context = build.context;
                self.record_convergence_target(context.round, context.parent, true);
                if !subscriber_gone {
                    queue_consensus_request(
                        &mut self.pending_consensus_request,
                        context.round,
                        ConsensusRequest::Build(build),
                    );
                }
            },
            Message::Tip { round, height, digest } => {
                self.record_convergence_target(round, (round.view, digest), false);
                if round.is_after(self.network_finalized_tip.0) {
                    self.network_finalized_tip = (round, height, digest);
                }
            },
            Message::Finalized(request) => {
                self.pending_finalizations.push_back(request);
            },
            Message::VerifyBlock { context, block, validator_set, response } => {
                self.record_convergence_target(context.round, context.parent, false);
                queue_consensus_request(
                    &mut self.pending_consensus_request,
                    context.round,
                    ConsensusRequest::Verify(
                        PayloadRequest {
                            parent_round: context.parent_round(),
                            block,
                            validator_set,
                            response: Some(response),
                        },
                    ),
                );
            },
        }
    }
}

} // verus!
