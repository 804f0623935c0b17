//! The executor's state as mathematics, and what each event makes of it.

use crate::background::Background;
use crate::block_map::above;
use crate::chain::{height_below, Block, Context, Digest, Height, Nanos, PublicKey, Round};
use crate::engine::{ForkchoiceUpdated, LocalState, PayloadStatus};
use crate::error::{Error, ForkchoiceFailure};
use crate::task::{
    queued, Acknowledgement, Build, ConsensusRequest, ExecutionTask, FinalizedBlockRequest,
    InFlightTask, Reply,
};
use crate::walk::{after_fetch, PayloadRequest, PayloadWalk, WalkStep};
use std::sync::Arc;
use vstd::prelude::*;

verus! {

/// How long a walk rests when all of its ancestry was walked and the candidate
/// is still `SYNCING`.
pub const VERIFICATION_RETRY_INTERVAL: u128 = 1_000_000_000;

/// How long the delivery of a build's parent rests after it was rejected or
/// failed.
pub const CONVERGENCE_RETRY_INTERVAL: u128 = 10_000_000_000;

/// How many blocks the execution layer may have executed since the last
/// forkchoice update before the next one is forced. Blocks that are delivered
/// ahead of the update that canonicalizes them stay in its memory. A consensus
/// request runs ahead of the forced update.
pub const DELIVERIES_PER_FORKCHOICE_UPDATE: usize = 8;

/// The head that consensus has selected.
#[derive(Clone, Copy, Debug)]
pub struct PendingHead {
    pub round: Round,
    pub digest: Digest,
    /// Its height, once it is known.
    pub height: Option<Height>,
    /// Whether the executor has to deliver it itself. A build must deliver its
    /// parent; a verification brings its own walk.
    pub requires_delivery: bool,
}

impl PendingHead {
    /// The head that is the finalized tip.
    pub open spec fn at_tip(tip: (Round, Height, Digest)) -> PendingHead {
        PendingHead { round: tip.0, digest: tip.2, height: Some(tip.1), requires_delivery: false }
    }

    /// The head that is the finalized tip.
    pub fn finalized(tip: (Round, Height, Digest)) -> (head: PendingHead)
        ensures
            head == PendingHead::at_tip(tip),
    {
        PendingHead { round: tip.0, digest: tip.2, height: Some(tip.1), requires_delivery: false }
    }
}

/// The fetch of a block, under its digest and the round it was notarized in.
#[derive(Clone, Copy, Debug)]
pub struct BlockFetch {
    pub round: Round,
    pub digest: Digest,
}

/// The fetch that goes on when the block wanted next is `next`: a fetch of the
/// same block continues, whatever its round; any other is given up.
pub open spec fn fetch_for(
    pending: Background<BlockFetch>,
    next: Option<(Round, Digest)>,
) -> Background<BlockFetch> {
    match next {
        None => Background::Idle,
        Some((round, digest)) => match pending.wanted() {
            Some(fetch) if fetch.digest == digest => pending,
            _ => Background::Ordered(BlockFetch { round, digest }),
        },
    }
}

/// How many blocks at the front of a queue stand at or below `height`.
pub open spec fn finalized_prefix<B, A>(
    queue: Seq<FinalizedBlockRequest<B, A>>,
    height: Height,
) -> nat
    decreases queue.len(),
{
    if queue.len() > 0 && queue[0].block.height <= height {
        1 + finalized_prefix(queue.skip(1), height)
    } else {
        0
    }
}

/// What the scheduler decided.
#[derive(Debug)]
pub enum Scheduled<B, V, P, A> {
    /// Nothing is started.
    Idle,
    /// The task is started.
    Task(ExecutionTask<B, V, P, A>),
    /// A forkchoice update is due, whose head depends on the execution layer's
    /// canonical block at this height.
    ReadCanonical(Height),
}

/// The executor's state. The fields are those of `Actor`.
#[verifier::ext_equal]
pub struct State<B, V, P, A> {
    pub finalized_floor: Height,
    pub fcu_heartbeat_interval: Nanos,
    pub fcu_heartbeat_timer: Background<Nanos>,
    pub pending_finalizations: Seq<FinalizedBlockRequest<B, A>>,
    pub pending_acknowledgements: Seq<FinalizedBlockRequest<B, A>>,
    pub deliveries_since_forkchoice: usize,
    pub latest_consensus_round: Round,
    pub pending_consensus_request: Option<(Round, ConsensusRequest<B, V, P>)>,
    pub verification: Option<PayloadWalk<B, V>>,
    pub verification_retry: Background<Nanos>,
    pub pending_verification_block: Background<BlockFetch>,
    pub convergence: Option<PayloadWalk<B, V>>,
    pub convergence_retry: Background<Nanos>,
    pub pending_convergence_block: Background<BlockFetch>,
    pub execution_task: Option<InFlightTask>,
    pub local_state: LocalState,
    pub delivered_finalized: (Height, Digest),
    pub network_finalized_tip: (Round, Height, Digest),
    pub pending_head: PendingHead,
    pub known_blocks: Map<Digest, Height>,
    pub built_blocks: Map<Digest, Arc<Block<B>>>,
    pub public_key: Option<PublicKey>,
}

impl<B, V, P, A> State<B, V, P, A> {
    /// What keeps the two kinds of walks apart: somebody waits for a
    /// verification, and nobody for the delivery of a build's parent. And every
    /// cursor is the candidate or stands below it.
    pub open spec fn wf(self) -> bool {
        &&& self.verification matches Some(walk) ==> walk.request.response is Some && walk.wf()
        &&& self.convergence matches Some(walk) ==> walk.request.response is None && walk.wf()
        &&& self.pending_consensus_request matches Some((_, ConsensusRequest::Verify(request)))
            ==> request.response is Some
    }

    // What is known of blocks

    /// The height of a block that is known to be executed: the head, the
    /// finalized tip, the last finalized block delivered, or a block that a
    /// `VALID` answer named.
    pub open spec fn height_known(self, digest: Digest) -> Option<Height> {
        if self.local_state.head.1 == digest {
            Some(self.local_state.head.0)
        } else if self.local_state.finalized.1 == digest {
            Some(self.local_state.finalized.0)
        } else if self.delivered_finalized.1 == digest {
            Some(self.delivered_finalized.0)
        } else if self.known_blocks.contains_key(digest) {
            Some(self.known_blocks[digest])
        } else {
            None
        }
    }

    /// A block is known to be executed. It is remembered if it is above the
    /// finalized tip; if it is the pending head, that head's height is known.
    pub open spec fn executed(self, digest: Digest, height: Height) -> State<B, V, P, A> {
        State {
            known_blocks: if height > self.network_finalized_tip.1 {
                self.known_blocks.insert(digest, height)
            } else {
                self.known_blocks
            },
            pending_head: if digest == self.pending_head.digest {
                PendingHead { height: Some(height), ..self.pending_head }
            } else {
                self.pending_head
            },
            ..self
        }
    }

    /// A `VALID` answer for a block: the block and its parent are executed.
    pub open spec fn valid_block(self, block: Block<B>) -> State<B, V, P, A> {
        self.executed(block.digest, block.height).executed(
            block.parent_digest,
            height_below(block.height),
        )
    }

    /// The pending head once the finalized tip has overtaken it.
    pub open spec fn head_above_tip(self) -> PendingHead {
        let (round, height, digest) = self.network_finalized_tip;
        if self.pending_head.digest == digest {
            PendingHead { height: Some(height), ..self.pending_head }
        } else if self.pending_head.round.after(round) {
            self.pending_head
        } else {
            PendingHead::at_tip(self.network_finalized_tip)
        }
    }

    /// What the finalized tip has overtaken is forgotten. A walk towards a
    /// build's parent that is not wanted any more ends.
    pub open spec fn pruned(self) -> State<B, V, P, A> {
        let height = self.network_finalized_tip.1;
        let kept = State {
            known_blocks: above(self.known_blocks, height),
            built_blocks: above(self.built_blocks, height),
            pending_head: self.head_above_tip(),
            ..self
        };
        if !kept.pending_head.requires_delivery || (kept.convergence matches Some(walk)
            && walk.request.block.digest != kept.pending_head.digest) || kept.height_known(
            kept.pending_head.digest,
        ) is Some {
            State { convergence: None, convergence_retry: Background::Idle, ..kept }
        } else {
            kept
        }
    }

    // Walks

    /// A walk that goes on. A walk towards a build's parent goes on only while
    /// that parent is the pending head.
    pub open spec fn retaining(self, walk: PayloadWalk<B, V>) -> State<B, V, P, A> {
        if walk.request.response is Some {
            State { verification: Some(walk), ..self }
        } else if walk.request.block.digest == self.pending_head.digest {
            State { convergence: Some(walk), ..self }
        } else {
            self
        }
    }

    /// The walk towards a build's parent rests for a long while.
    pub open spec fn pausing(self, walk: PayloadWalk<B, V>) -> State<B, V, P, A> {
        if walk.request.block.digest == self.pending_head.digest {
            State {
                convergence: Some(PayloadWalk { step: WalkStep::Retry, ..walk }),
                convergence_retry: Background::Ordered(CONVERGENCE_RETRY_INTERVAL),
                ..self
            }
        } else {
            self
        }
    }

    /// The verification ends: its subscriber went away.
    pub open spec fn without_verification(self) -> State<B, V, P, A> {
        State { verification: None, verification_retry: Background::Idle, ..self }
    }

    /// A walk whose next step would take it to finalized history rests
    /// instead: that history is delivered by the finalization pipeline.
    pub open spec fn stopped_at_tip(
        walk: Option<PayloadWalk<B, V>>,
        tip: (Round, Height, Digest),
    ) -> Option<PayloadWalk<B, V>> {
        match walk {
            Some(walk) if walk.step is Parent && (walk.cursor.parent_digest == tip.2
                || height_below(walk.cursor.height) <= tip.1) => Some(
                PayloadWalk { step: WalkStep::Retry, ..walk },
            ),
            _ => walk,
        }
    }

    /// The retry timer of a walk: it runs while the walk rests.
    pub open spec fn retry_timer(
        walk: Option<PayloadWalk<B, V>>,
        timer: Background<Nanos>,
    ) -> Background<Nanos> {
        if (walk matches Some(walk) && walk.step is Retry) && timer is Idle {
            Background::Ordered(VERIFICATION_RETRY_INTERVAL)
        } else {
            timer
        }
    }

    /// The walks made ready for the next iteration.
    pub open spec fn walks_prepared(self, subscriber_gone: bool) -> State<B, V, P, A> {
        let wanted = if (self.verification matches Some(walk) && walk.request.response is Some)
            && subscriber_gone {
            self.without_verification()
        } else {
            self
        };
        let verification = Self::stopped_at_tip(
            wanted.verification,
            self.network_finalized_tip,
        );
        let convergence = Self::stopped_at_tip(
            wanted.convergence,
            self.network_finalized_tip,
        );
        State {
            verification,
            verification_retry: Self::retry_timer(verification, wanted.verification_retry),
            convergence,
            convergence_retry: Self::retry_timer(convergence, wanted.convergence_retry),
            ..wanted
        }
    }

    /// A walk begun anew, if it rests.
    pub open spec fn woken(walk: Option<PayloadWalk<B, V>>) -> Option<PayloadWalk<B, V>> {
        match walk {
            Some(walk) if walk.step is Retry => Some(walk.begun_anew()),
            _ => walk,
        }
    }

    /// All resting walks begin anew, without waiting for their timers.
    pub open spec fn walks_retried(self) -> State<B, V, P, A> {
        State {
            verification: Self::woken(self.verification),
            verification_retry: if self.verification matches Some(walk) && walk.step is Retry {
                Background::Idle
            } else {
                self.verification_retry
            },
            convergence: Self::woken(self.convergence),
            convergence_retry: if self.convergence matches Some(walk) && walk.step is Retry {
                Background::Idle
            } else {
                self.convergence_retry
            },
            ..self
        }
    }

    /// The retry timer of the verification went off.
    pub open spec fn verification_retried(self) -> State<B, V, P, A> {
        State {
            verification: match self.verification {
                Some(walk) => Some(walk.begun_anew()),
                None => None,
            },
            verification_retry: Background::Idle,
            ..self
        }
    }

    /// The retry timer of the walk towards a build's parent went off.
    pub open spec fn convergence_retried(self) -> State<B, V, P, A> {
        State {
            convergence: match self.convergence {
                Some(walk) => Some(walk.begun_anew()),
                None => None,
            },
            convergence_retry: Background::Idle,
            ..self
        }
    }

    // Answers of the execution layer

    /// The execution layer may have executed one more block since the last
    /// forkchoice update.
    pub open spec fn delivery_counted(self) -> State<B, V, P, A> {
        State {
            deliveries_since_forkchoice: (self.deliveries_since_forkchoice + 1) as usize,
            ..self
        }
    }

    /// What the subscriber of a walk is told, and whether the probe failed.
    /// Only the candidate's own answer is a verdict.
    pub open spec fn verdict(
        request: Option<PayloadWalk<B, V>>,
        status: Result<(PayloadStatus, Nanos), String>,
    ) -> Result<Option<Reply<V>>, Error> {
        match request {
            None => Ok(None),
            Some(walk) => match status {
                Err(cause) => Err(Error::DeliveryFailed { cause }),
                Ok((PayloadStatus::Accepted, _)) => Err(Error::AcceptedWithoutExecution),
                Ok((PayloadStatus::Syncing, _)) => Ok(None),
                Ok((status, time)) => match walk.request.response {
                    Some(response) if walk.at_candidate() => Ok(
                        Some(
                            Reply {
                                response,
                                verdict: if status is Valid {
                                    Some((walk.duration + time) as u128)
                                } else {
                                    None
                                },
                            },
                        ),
                    ),
                    _ => Ok(None),
                },
            },
        }
    }

    /// The answer to a probe. `SYNCING` sends the walk one ancestor back, or
    /// to rest if the candidate was probed again already. The answer for an
    /// ancestor sends it back to the candidate. A walk that nobody waits for
    /// rests when it is rejected.
    pub open spec fn validated(
        self,
        request: Option<PayloadWalk<B, V>>,
        status: Result<(PayloadStatus, Nanos), String>,
    ) -> State<B, V, P, A> {
        let counted = self.delivery_counted();
        match request {
            None => counted,
            Some(walk) => match status {
                Err(_) => if walk.request.response is None {
                    counted.pausing(walk)
                } else {
                    counted
                },
                Ok((status, time)) => {
                    let timed = PayloadWalk { duration: (walk.duration + time) as u128, ..walk };
                    match status {
                        PayloadStatus::Valid => {
                            let recorded = counted.valid_block(*walk.cursor);
                            if walk.at_candidate() {
                                recorded
                            } else {
                                recorded.retaining(timed.back_at_candidate())
                            }
                        },
                        PayloadStatus::Invalid { .. } => if !walk.at_candidate() {
                            counted.retaining(timed.back_at_candidate())
                        } else if walk.request.response is None {
                            counted.pausing(timed)
                        } else {
                            counted
                        },
                        PayloadStatus::Syncing => State {
                            known_blocks: counted.known_blocks.remove(walk.cursor.digest).remove(
                                walk.cursor.parent_digest,
                            ),
                            ..counted
                        }.retaining(
                            PayloadWalk {
                                step: if walk.reprobed {
                                    WalkStep::Retry
                                } else {
                                    WalkStep::Parent
                                },
                                ..timed
                            },
                        ),
                        PayloadStatus::Accepted => if walk.request.response is None {
                            counted.pausing(timed)
                        } else {
                            counted
                        },
                    }
                },
            },
        }
    }

    /// A finalized block was delivered and is `VALID`: it becomes the next
    /// finalized target, and resting walks begin anew. Unless the execution
    /// layer finalized it already, it waits for the forkchoice update that
    /// finalizes it.
    pub open spec fn finalized_delivered(
        self,
        request: FinalizedBlockRequest<B, A>,
    ) -> State<B, V, P, A> {
        let block = request.block;
        let delivered = State {
            delivered_finalized: if block.height > self.delivered_finalized.0 {
                (block.height, block.digest)
            } else {
                self.delivered_finalized
            },
            ..self.delivery_counted().walks_retried()
        };
        if block.height <= self.local_state.finalized.0 {
            delivered
        } else {
            State {
                pending_acknowledgements: self.pending_acknowledgements.push(request),
                ..delivered
            }
        }
    }

    /// Whether this node proposed a block.
    pub open spec fn proposed_by_self(self, block: Block<B>) -> bool {
        self.public_key is Some && block.proposer == self.public_key
    }

    /// The acknowledgement of a finalized block.
    pub open spec fn acknowledgement(
        self,
        request: FinalizedBlockRequest<B, A>,
    ) -> Acknowledgement<B, A> {
        Acknowledgement { request, proposed_by_self: self.proposed_by_self(*request.block) }
    }

    /// What becomes of a finalized block that was delivered again: it is
    /// acknowledged if it is the execution layer's canonical block at its
    /// height.
    pub open spec fn confirmation(
        self,
        request: FinalizedBlockRequest<B, A>,
        canonical: Option<Digest>,
    ) -> Result<Acknowledgement<B, A>, Error> {
        if canonical == Some(request.block.digest) {
            Ok(self.acknowledgement(request))
        } else {
            Err(
                Error::FinalizedConflict {
                    digest: request.block.digest,
                    height: request.block.height,
                    canonical,
                },
            )
        }
    }

    /// How many queued blocks the tracked finality covers.
    pub open spec fn acknowledgeable(self) -> nat {
        finalized_prefix(self.pending_acknowledgements, self.local_state.finalized.0)
    }

    /// The acknowledgements of the queued blocks that the tracked finality
    /// covers, in the order of the queue.
    pub open spec fn acknowledgements(self) -> Seq<Acknowledgement<B, A>> {
        self.pending_acknowledgements.take(self.acknowledgeable() as int).map_values(
            |request: FinalizedBlockRequest<B, A>| self.acknowledgement(request),
        )
    }

    /// The queued blocks that the tracked finality covers are acknowledged.
    pub open spec fn acknowledged(self) -> State<B, V, P, A> {
        State {
            pending_acknowledgements: self.pending_acknowledgements.skip(
                self.acknowledgeable() as int,
            ),
            ..self
        }
    }

    /// A forkchoice update was accepted, or was stale and not submitted.
    pub open spec fn forkchoice_accepted(self, target: LocalState) -> State<B, V, P, A> {
        State { local_state: target, ..self }.acknowledged()
    }

    /// Why the answer to a forkchoice update is a failure, if it is one.
    pub open spec fn forkchoice_failure(
        response: Option<Result<ForkchoiceUpdated, ForkchoiceFailure>>,
    ) -> Option<ForkchoiceFailure> {
        match response {
            None => None,
            Some(Err(failure)) => Some(failure),
            Some(Ok(updated)) => if updated.payload_status is Valid {
                None
            } else {
                Some(ForkchoiceFailure::NotValid(updated.payload_status))
            },
        }
    }

    // Messages

    /// A round selects a block as the head. It becomes the pending head unless
    /// a newer round was observed.
    pub open spec fn target_recorded(
        self,
        round: Round,
        target: (u64, Digest),
        requires_delivery: bool,
    ) -> State<B, V, P, A> {
        if self.latest_consensus_round.after(round) {
            self
        } else {
            State {
                latest_consensus_round: round,
                pending_head: PendingHead {
                    round: Round { epoch: round.epoch, view: target.0 },
                    digest: target.1,
                    height: if self.height_known(target.1) is Some {
                        self.height_known(target.1)
                    } else if self.pending_head.digest == target.1 {
                        self.pending_head.height
                    } else {
                        None
                    },
                    requires_delivery,
                },
                ..self
            }
        }
    }

    /// A consensus request takes the slot, if it is newer than what is there.
    pub open spec fn request_queued(
        self,
        round: Round,
        request: ConsensusRequest<B, V, P>,
    ) -> State<B, V, P, A> {
        State {
            pending_consensus_request: queued(self.pending_consensus_request, round, request),
            ..self
        }
    }

    /// A request to build. The parent is selected even if the subscriber has
    /// gone away; the build is not.
    pub open spec fn build_requested(
        self,
        build: Build<P>,
        subscriber_gone: bool,
    ) -> State<B, V, P, A> {
        let selected = self.target_recorded(build.context.round, build.context.parent, true);
        if subscriber_gone {
            selected
        } else {
            selected.request_queued(build.context.round, ConsensusRequest::Build(build))
        }
    }

    /// A report of the network's finalized tip.
    pub open spec fn tip_reported(
        self,
        round: Round,
        height: Height,
        digest: Digest,
    ) -> State<B, V, P, A> {
        State {
            network_finalized_tip: if round.after(self.network_finalized_tip.0) {
                (round, height, digest)
            } else {
                self.network_finalized_tip
            },
            ..self.target_recorded(round, (round.view, digest), false)
        }
    }

    /// A finalized block to be delivered.
    pub open spec fn finalization_queued(
        self,
        request: FinalizedBlockRequest<B, A>,
    ) -> State<B, V, P, A> {
        State { pending_finalizations: self.pending_finalizations.push(request), ..self }
    }

    /// A request to verify a block.
    pub open spec fn verification_requested(
        self,
        context: Context,
        block: Arc<Block<B>>,
        validator_set: Option<Vec<[u8; 32]>>,
        response: V,
    ) -> State<B, V, P, A> {
        self.target_recorded(context.round, context.parent, false).request_queued(
            context.round,
            ConsensusRequest::Verify(
                PayloadRequest {
                    parent_round: context.parent_round_of(),
                    block,
                    validator_set,
                    response: Some(response),
                },
            ),
        )
    }

    // Fetches

    /// The ancestor that a walk waits for.
    pub open spec fn ancestor_wanted(walk: Option<PayloadWalk<B, V>>) -> Option<(Round, Digest)> {
        match walk {
            Some(walk) if walk.step is Parent => Some(walk.cursor_parent()),
            _ => None,
        }
    }

    /// Whether the executor has to deliver the pending head itself, and is not
    /// at it already.
    pub open spec fn needs_parent(self) -> bool {
        &&& !(self.execution_task matches Some(task) && task.task_type is Deliver)
        &&& self.pending_head.requires_delivery
        &&& self.height_known(self.pending_head.digest) is None
        &&& self.pending_head.digest != self.network_finalized_tip.2
    }

    /// The delivery of a build's parent starts from its body, if this node
    /// built it.
    pub open spec fn converging_from_built(self) -> State<B, V, P, A> {
        if self.needs_parent() && self.convergence is None && self.built_blocks.contains_key(
            self.pending_head.digest,
        ) {
            let block = self.built_blocks[self.pending_head.digest];
            State {
                pending_head: PendingHead { height: Some(block.height), ..self.pending_head },
                convergence: Some(PayloadWalk::converging(block)),
                ..self
            }
        } else {
            self
        }
    }

    /// The block to fetch for the delivery of a build's parent: the parent
    /// itself, or the ancestor that its walk waits for.
    pub open spec fn convergence_block_wanted(self) -> Option<(Round, Digest)> {
        if !self.needs_parent() {
            None
        } else if self.convergence is None {
            Some((self.pending_head.round, self.pending_head.digest))
        } else {
            Self::ancestor_wanted(self.convergence)
        }
    }

    /// Exactly the blocks that the two walks wait for are being fetched.
    pub open spec fn fetches_updated(self) -> State<B, V, P, A> {
        let begun = self.converging_from_built();
        State {
            pending_verification_block: fetch_for(
                self.pending_verification_block,
                Self::ancestor_wanted(self.verification),
            ),
            pending_convergence_block: fetch_for(
                self.pending_convergence_block,
                begun.convergence_block_wanted(),
            ),
            ..begun
        }
    }

    /// The block fetched for the verification arrived, or its fetch failed.
    pub open spec fn verification_block_fetched(
        self,
        digest: Digest,
        block: Option<Arc<Block<B>>>,
    ) -> State<B, V, P, A> {
        State {
            verification: after_fetch(self.verification, digest, block),
            pending_verification_block: Background::Idle,
            ..self
        }
    }

    /// The block fetched for the delivery of a build's parent arrived, or its
    /// fetch failed.
    pub open spec fn convergence_block_fetched(
        self,
        digest: Digest,
        block: Option<Arc<Block<B>>>,
    ) -> State<B, V, P, A> {
        let arrived = State { pending_convergence_block: Background::Idle, ..self };
        if self.convergence is Some {
            State { convergence: after_fetch(self.convergence, digest, block), ..arrived }
        } else {
            match block {
                Some(block) if block.digest == digest => if block.height
                    > self.network_finalized_tip.1 {
                    State {
                        pending_head: PendingHead {
                            height: Some(block.height),
                            ..self.pending_head
                        },
                        convergence: Some(PayloadWalk::converging(block)),
                        ..arrived
                    }
                } else {
                    State {
                        pending_head: PendingHead::at_tip(self.network_finalized_tip),
                        ..arrived
                    }
                },
                _ => arrived,
            }
        }
    }

    /// A block that this node built was handed to its subscriber.
    pub open spec fn block_built(self, block: Arc<Block<B>>) -> State<B, V, P, A> {
        State { built_blocks: self.built_blocks.insert(block.digest, block), ..self }
    }

    // Scheduling

    /// The next forkchoice as far as the state tells: the delivered finalized
    /// block, and the pending head once it is known to be executed.
    pub open spec fn forkchoice_proposed(self) -> LocalState {
        let finalized = self.local_state.with_finalized(
            self.delivered_finalized.0,
            self.delivered_finalized.1,
        );
        match self.height_known(self.pending_head.digest) {
            Some(height) => finalized.with_head(height, self.pending_head.digest),
            None => finalized,
        }
    }

    /// Whether a forkchoice update is due.
    pub open spec fn forkchoice_due(self) -> bool {
        self.forkchoice_proposed() != self.local_state
    }

    /// Whether finality advances beneath a head that stays: then the head must
    /// descend from the finalized block.
    pub open spec fn finality_advances_beneath(self) -> bool {
        let proposed = self.forkchoice_proposed();
        proposed.finalized != self.local_state.finalized && proposed.head == self.local_state.head
    }

    /// The height at which the canonical block is needed to tell whether the
    /// head descends from the finalized block.
    pub open spec fn canonical_wanted(self) -> Option<Height> {
        if self.finality_advances_beneath() {
            Some(self.delivered_finalized.0)
        } else {
            None
        }
    }

    /// The next forkchoice, where one is due. A head that stays while finality
    /// advances beneath it gives way to the finalized block unless that block
    /// is canonical.
    pub open spec fn forkchoice_target(self, canonical: Option<Digest>) -> Option<LocalState> {
        let proposed = self.forkchoice_proposed();
        if !self.forkchoice_due() {
            None
        } else if self.finality_advances_beneath() && canonical != Some(
            self.delivered_finalized.1,
        ) {
            Some(proposed.with_head(self.delivered_finalized.0, self.delivered_finalized.1))
        } else {
            Some(proposed)
        }
    }

    /// A task is given to the execution layer.
    pub open spec fn busy_with(self, task: ExecutionTask<B, V, P, A>) -> State<B, V, P, A> {
        State { execution_task: Some(task.in_flight_of()), ..self }
    }

    /// A forkchoice update is given to the execution layer. It covers all
    /// deliveries made so far.
    pub open spec fn updating_forkchoice(self, target: LocalState) -> State<B, V, P, A> {
        State { deliveries_since_forkchoice: 0, ..self }.busy_with(
            ExecutionTask::Forkchoice { target },
        )
    }

    /// The next forkchoice update, started if one is due.
    pub open spec fn forkchoice_started(self, canonical: Option<Digest>) -> (
        State<B, V, P, A>,
        Option<ExecutionTask<B, V, P, A>>,
    ) {
        match self.forkchoice_target(canonical) {
            Some(target) => (
                self.updating_forkchoice(target),
                Some(ExecutionTask::Forkchoice { target }),
            ),
            None => (self, None),
        }
    }

    /// The forkchoice update that is due, scheduled as far as the state tells.
    pub open spec fn forkchoice_scheduled(self) -> (State<B, V, P, A>, Scheduled<B, V, P, A>) {
        match self.canonical_wanted() {
            Some(height) => (self, Scheduled::ReadCanonical(height)),
            None => {
                let target = self.forkchoice_proposed();
                (
                    self.updating_forkchoice(target),
                    Scheduled::Task(ExecutionTask::Forkchoice { target }),
                )
            },
        }
    }

    /// A waiting build whose parent is not the pending head any more.
    pub open spec fn build_overtaken(self) -> bool {
        self.pending_consensus_request matches Some((_, ConsensusRequest::Build(build)))
            && build.context.parent.1 != self.pending_head.digest
    }

    /// Without a waiting build that was overtaken.
    pub open spec fn overtaken_build_dropped(self) -> State<B, V, P, A> {
        if self.build_overtaken() {
            State { pending_consensus_request: None, ..self }
        } else {
            self
        }
    }

    /// The consensus request that can run now, as a task: the verification
    /// that has begun, a new one if none has, or a build whose parent is the
    /// head.
    pub open spec fn consensus_task(self) -> Option<ExecutionTask<B, V, P, A>> {
        match self.verification {
            Some(walk) if walk.step is Probe => Some(ExecutionTask::Verify(walk)),
            _ => match self.pending_consensus_request {
                Some((_, ConsensusRequest::Verify(request))) => if self.verification is None {
                    Some(ExecutionTask::Verify(PayloadWalk::begun(request)))
                } else {
                    None
                },
                Some((_, ConsensusRequest::Build(build))) => if build.context.parent.1
                    == self.pending_head.digest && self.local_state.head.1
                    == self.pending_head.digest {
                    Some(ExecutionTask::Build { target: self.local_state, build })
                } else {
                    None
                },
                None => None,
            },
        }
    }

    /// The state once the consensus request that can run now is running.
    pub open spec fn consensus_task_started(
        self,
        task: ExecutionTask<B, V, P, A>,
    ) -> State<B, V, P, A> {
        if self.verification matches Some(walk) && walk.step is Probe {
            State { verification: None, ..self }.busy_with(task)
        } else {
            State { pending_consensus_request: None, ..self }.busy_with(task)
        }
    }

    /// What is scheduled where no consensus request can run: the forkchoice
    /// update forced by a long run of deliveries, finalized deliveries, the
    /// update that finalizes them, the delivery of a build's parent, and the
    /// update that moves the head.
    pub open spec fn background_scheduled(self) -> (State<B, V, P, A>, Scheduled<B, V, P, A>) {
        if self.deliveries_since_forkchoice >= DELIVERIES_PER_FORKCHOICE_UPDATE
            && self.forkchoice_due() {
            self.forkchoice_scheduled()
        } else if self.pending_finalizations.len() > 0 {
            let task = ExecutionTask::Finalize(self.pending_finalizations[0]);
            (
                State {
                    pending_finalizations: self.pending_finalizations.skip(1),
                    ..self
                }.busy_with(task),
                Scheduled::Task(task),
            )
        } else if self.pending_acknowledgements.len() > 0 && self.forkchoice_due() {
            self.forkchoice_scheduled()
        } else if self.convergence matches Some(walk) && walk.step is Probe {
            let task = ExecutionTask::Deliver(self.convergence->0);
            (State { convergence: None, ..self }.busy_with(task), Scheduled::Task(task))
        } else if self.forkchoice_due() {
            self.forkchoice_scheduled()
        } else {
            (self, Scheduled::Idle)
        }
    }

    /// What is scheduled next. Nothing is while a task is in flight; consensus
    /// requests come first.
    pub open spec fn scheduled(self) -> (State<B, V, P, A>, Scheduled<B, V, P, A>) {
        if self.execution_task is Some {
            (self, Scheduled::Idle)
        } else {
            match self.consensus_task() {
                Some(task) => (self.consensus_task_started(task), Scheduled::Task(task)),
                None => self.overtaken_build_dropped().background_scheduled(),
            }
        }
    }

    /// What is scheduled during the backfill, after the finalized block at
    /// `height` was delivered: a forkchoice update once enough blocks were
    /// delivered, and at the floor.
    pub open spec fn backfill_scheduled(self, height: Height) -> (
        State<B, V, P, A>,
        Scheduled<B, V, P, A>,
    ) {
        if (self.deliveries_since_forkchoice >= DELIVERIES_PER_FORKCHOICE_UPDATE || height
            == self.finalized_floor) && self.forkchoice_due() {
            self.forkchoice_scheduled()
        } else {
            (self, Scheduled::Idle)
        }
    }

    /// The heartbeat timer runs while the execution layer has nothing to do.
    pub open spec fn heartbeat_timer_updated(self) -> State<B, V, P, A> {
        State {
            fcu_heartbeat_timer: if self.execution_task is Some
                || self.pending_finalizations.len() > 0 {
                Background::Idle
            } else if self.fcu_heartbeat_timer is Idle {
                Background::Ordered(self.fcu_heartbeat_interval)
            } else {
                self.fcu_heartbeat_timer
            },
            ..self
        }
    }

    /// The heartbeat timer went off: what is scheduled then. The forkchoice is
    /// re-affirmed if nothing else can start.
    pub open spec fn heartbeat_scheduled(self) -> (State<B, V, P, A>, Scheduled<B, V, P, A>) {
        let elapsed = State { fcu_heartbeat_timer: Background::Idle, ..self };
        let (state, scheduled) = elapsed.scheduled();
        if self.execution_task is None && scheduled is Idle {
            let task = ExecutionTask::Heartbeat { target: state.local_state };
            (state.busy_with(task), Scheduled::Task(task))
        } else {
            (state, scheduled)
        }
    }
}

} // verus!
