//! The one place where answers of the execution layer are turned into
//! decisions: what is known to be executed, what to walk to next, what to
//! acknowledge, and what is fatal.

use crate::actor::Actor;
use crate::background::Background;
use crate::chain::{Block, Digest, Height, Nanos, NANOS_MAX};
use crate::engine::{ForkchoiceUpdated, LocalState, PayloadStatus};
use crate::error::{Error, ForkchoiceFailure};
use crate::state::{finalized_prefix, State, CONVERGENCE_RETRY_INTERVAL};
use crate::task::{Acknowledgement, FinalizedBlockRequest, Reply, StartPayloadJob};
use crate::walk::{PayloadWalk, WalkStep};
use vstd::prelude::*;

verus! {

/// What follows the delivery of a finalized block.
#[derive(Debug)]
pub enum Delivered<B, A> {
    /// The block waits for the forkchoice update that finalizes it.
    Queued,
    /// The block is final already. It is to be confirmed with the execution
    /// layer's canonical block at its height (see
    /// [`Actor::confirm_redelivered`]).
    Redelivered(FinalizedBlockRequest<B, A>),
}

/// What follows an accepted forkchoice update.
#[derive(Debug)]
pub struct ForkchoiceAccepted<B, P, A> {
    /// The blocks that the update finalized.
    pub acknowledged: Vec<Acknowledgement<B, A>>,
    /// The build that the update started.
    pub job: Option<StartPayloadJob<P>>,
}

/// The build that an answer to a forkchoice update has started.
pub open spec fn job_started<P>(
    build: Option<P>,
    response: Option<Result<ForkchoiceUpdated, ForkchoiceFailure>>,
) -> Option<StartPayloadJob<P>> {
    match (build, response) {
        (Some(payload), Some(Ok(updated))) => match updated.payload_id {
            Some(payload_id) => Some(StartPayloadJob { payload_id, payload }),
            None => None,
        },
        _ => None,
    }
}

impl<B, V, P, A> Actor<B, V, P, A> {
    /// Records a block that is known to be executed.
    fn record_executed(&mut self, digest: Digest, height: Height)
        requires
            old(self).wf(),
        ensures
            final(self).wf(),
            final(self)@ == old(self)@.executed(digest, height),
    {
        if height > self.network_finalized_tip.1 {
            self.known_blocks.insert(digest, height);
        }
        if digest == self.pending_head.digest {
            self.pending_head.height = Some(height);
        }
    }

    /// Records a `VALID` answer: it proves that the block and its parent were
    /// executed.
    pub fn record_valid_block(&mut self, block: &Block<B>)
        requires
            old(self).wf(),
        ensures
            final(self).wf(),
            final(self)@ == old(self)@.valid_block(*block),
    {
        self.record_executed(block.digest, block.height);
        self.record_executed(block.parent_digest, block.height.saturating_sub(1));
    }

    /// Keeps a walk that goes on.
    pub(crate) fn retain_walk(&mut self, walk: PayloadWalk<B, V>)
        requires
            old(self).wf(),
        ensures
            final(self).wf(),
            final(self)@ == old(self)@.retaining(walk),
    {
        if walk.request.response.is_some() {
            self.verification = Some(walk);
        } else if walk.request.block.digest == self.pending_head.digest {
            self.convergence = Some(walk);
        }
    }

    /// Lets the walk towards a build's parent rest for a long while.
    pub(crate) fn pause_convergence(&mut self, walk: PayloadWalk<B, V>)
        requires
            old(self).wf(),
        ensures
            final(self).wf(),
            final(self)@ == old(self)@.pausing(walk),
    {
        let mut walk = walk;
        walk.step = WalkStep::Retry;
        if walk.request.block.digest == self.pending_head.digest {
            self.convergence = Some(walk);
            self.convergence_retry = Background::Ordered(CONVERGENCE_RETRY_INTERVAL);
        }
    }

    /// Lets all resting walks begin anew.
    pub(crate) fn retry_walks(&mut self)
        requires
            old(self).wf(),
        ensures
            final(self).wf(),
            final(self)@ == old(self)@.walks_retried(),
    {
        if let Some(mut walk) = self.verification.take() {
            if walk.step == WalkStep::Retry {
                walk.retry();
                self.verification_retry = Background::Idle;
            }
            self.verification = Some(walk);
        }
        if let Some(mut walk) = self.convergence.take() {
            if walk.step == WalkStep::Retry {
                walk.retry();
                self.convergence_retry = Background::Idle;
            }
            self.convergence = Some(walk);
        }
    }

    /// Takes the answer to a probe. Only the candidate's `VALID` or `INVALID`
    /// answer resolves a verification: the first gives the time that its calls
    /// took, the second nothing. `SYNCING` walks one ancestor back; an
    /// ancestor's own answer leads back to the candidate. A failed delivery and
    /// an `ACCEPTED` answer end a verification without a verdict.
    ///
    /// Every probe counts towards the forced forkchoice update, whatever it
    /// answered: the execution layer may execute the block later.
    pub fn handle_validated(
        &mut self,
        request: Option<PayloadWalk<B, V>>,
        status: Result<(PayloadStatus, Nanos), String>,
    ) -> (answer: Result<Option<Reply<V>>, Error>)
        requires
            old(self).wf(),
            old(self).deliveries_since_forkchoice < usize::MAX,
            request is Some && status is Ok ==> request->0.duration + (status->Ok_0).1
                <= NANOS_MAX,
        ensures
            final(self).wf(),
            final(self)@ == old(self)@.validated(request, status),
            answer == State::<B, V, P, A>::verdict(request, status),
    {
        self.deliveries_since_forkchoice = self.deliveries_since_forkchoice + 1;
        let mut verification = match request {
            Some(walk) => walk,
            None => return Ok(None),
        };
        let (status, duration) = match status {
            Ok(result) => result,
            Err(cause) => {
                if verification.request.response.is_none() {
                    self.pause_convergence(verification);
                }
                return Err(Error::DeliveryFailed { cause });
            },
        };
        verification.duration = verification.duration + duration;
        let verdict: Option<Nanos> = match status {
            PayloadStatus::Valid => {
                self.record_valid_block(&verification.cursor);
                if verification.is_candidate() {
                    Some(verification.duration)
                } else {
                    verification.reprobe();
                    self.retain_walk(verification);
                    return Ok(None);
                }
            },
            PayloadStatus::Invalid { .. } => {
                if !verification.is_candidate() {
                    verification.reprobe();
                    self.retain_walk(verification);
                    return Ok(None);
                }
                None
            },
            PayloadStatus::Syncing => {
                self.known_blocks.remove(verification.cursor.digest);
                self.known_blocks.remove(verification.cursor.parent_digest);
                verification.step = if verification.reprobed {
                    WalkStep::Retry
                } else {
                    WalkStep::Parent
                };
                self.retain_walk(verification);
                return Ok(None);
            },
            PayloadStatus::Accepted => {
                if verification.request.response.is_none() {
                    self.pause_convergence(verification);
                }
                return Err(Error::AcceptedWithoutExecution);
            },
        };
        match verification.request.response.take() {
            Some(response) => Ok(Some(Reply { response, verdict })),
            None => {
                if verdict.is_none() {
                    self.pause_convergence(verification);
                }
                Ok(None)
            },
        }
    }

    /// Takes the answer to the delivery of a finalized block. Anything but
    /// `VALID` is fatal. Otherwise the block becomes the next finalized target,
    /// and it is acknowledged once the forkchoice update that finalizes it
    /// lands, or right away if the execution layer finalized it already.
    ///
    /// Finalized blocks are delivered in height order; that order is relied
    /// on, not checked.
    pub fn handle_finalized_delivered(
        &mut self,
        request: FinalizedBlockRequest<B, A>,
        status: Result<PayloadStatus, String>,
    ) -> (delivered: Result<Delivered<B, A>, Error>)
        requires
            old(self).wf(),
            old(self).deliveries_since_forkchoice < usize::MAX,
        ensures
            final(self).wf(),
            match status {
                Ok(PayloadStatus::Valid) => {
                    &&& final(self)@ == old(self)@.finalized_delivered(request)
                    &&& delivered == Ok::<Delivered<B, A>, Error>(
                        if request.block.height <= old(self).local_state.finalized.0 {
                            Delivered::Redelivered(request)
                        } else {
                            Delivered::Queued
                        },
                    )
                },
                Ok(status) => {
                    &&& final(self)@ == old(self)@
                    &&& delivered == Err::<Delivered<B, A>, Error>(
                        Error::FinalizedNotValid {
                            digest: request.block.digest,
                            height: request.block.height,
                            status,
                        },
                    )
                },
                Err(cause) => {
                    &&& final(self)@ == old(self)@
                    &&& delivered == Err::<Delivered<B, A>, Error>(
                        Error::FinalizedDeliveryFailed {
                            digest: request.block.digest,
                            height: request.block.height,
                            cause,
                        },
                    )
                },
            },
    {
        let digest = request.block.digest;
        let height: Height = request.block.height;
        match status {
            Ok(PayloadStatus::Valid) => {},
            Ok(status) => {
                return Err(Error::FinalizedNotValid { digest, height, status });
            },
            Err(cause) => {
                return Err(Error::FinalizedDeliveryFailed { digest, height, cause });
            },
        }
        if height > self.delivered_finalized.0 {
            self.delivered_finalized = (height, digest);
        }
        self.deliveries_since_forkchoice = self.deliveries_since_forkchoice + 1;
        self.retry_walks();
        if height <= self.local_state.finalized.0 {
            Ok(Delivered::Redelivered(request))
        } else {
            self.pending_acknowledgements.push_back(request);
            Ok(Delivered::Queued)
        }
    }

    /// Confirms a finalized block that was delivered again: it is acknowledged
    /// if the execution layer finalized this very block at its height.
    pub fn confirm_redelivered(
        &self,
        request: FinalizedBlockRequest<B, A>,
        canonical: Option<Digest>,
    ) -> (confirmed: Result<Acknowledgement<B, A>, Error>)
        ensures
            confirmed == self@.confirmation(request, canonical),
    {
        let matching = match canonical {
            Some(digest) => digest == request.block.digest,
            None => false,
        };
        if matching {
            Ok(self.acknowledge(request))
        } else {
            Err(
                Error::FinalizedConflict {
                    digest: request.block.digest,
                    height: request.block.height,
                    canonical,
                },
            )
        }
    }

    /// Acknowledges a finalized block, and says whether this node proposed it.
    pub fn acknowledge(&self, request: FinalizedBlockRequest<B, A>) -> (acknowledged:
        Acknowledgement<B, A>)
        ensures
            acknowledged == self@.acknowledgement(request),
    {
        let proposed_by_self = match (self.public_key, request.block.proposer) {
            (Some(key), Some(proposer)) => proposer == key,
            _ => false,
        };
        Acknowledgement { request, proposed_by_self }
    }

    /// Acknowledges the queued blocks that the tracked finality covers.
    /// Deliveries are in chain order, so the height identifies them.
    pub fn acknowledge_finalized(&mut self) -> (acknowledged: Vec<Acknowledgement<B, A>>)
        requires
            old(self).wf(),
        ensures
            final(self).wf(),
            final(self)@ == old(self)@.acknowledged(),
            acknowledged@ == old(self)@.acknowledgements(),
    {
        let finalized: Height = self.local_state.finalized.0;
        let mut acknowledged: Vec<Acknowledgement<B, A>> = Vec::new();
        let ghost before = self@;
        let ghost queue = self.pending_acknowledgements@;
        assert(queue.skip(0) =~= queue);
        while self.pending_acknowledgements.len() > 0
            && self.pending_acknowledgements[0].block.height <= finalized
            invariant
                self.wf(),
                finalized == before.local_state.finalized.0,
                queue == before.pending_acknowledgements,
                acknowledged@.len() <= queue.len(),
                self@ == (State {
                    pending_acknowledgements: queue.skip(acknowledged@.len() as int),
                    ..before
                }),
                finalized_prefix(queue, finalized) == acknowledged@.len() + finalized_prefix(
                    queue.skip(acknowledged@.len() as int),
                    finalized,
                ),
                forall|i: int|
                    0 <= i < acknowledged@.len() ==> #[trigger] acknowledged@[i]
                        == before.acknowledgement(queue[i]),
            decreases self.pending_acknowledgements@.len(),
        {
            let ghost done = acknowledged@.len() as int;
            let ghost rest = self.pending_acknowledgements@;
            if let Some(request) = self.pending_acknowledgements.pop_front() {
                assert(rest.skip(1) =~= queue.skip(done + 1));
                assert(request == queue[done]);
                let acknowledgement = self.acknowledge(request);
                acknowledged.push(acknowledgement);
                assert(self.pending_acknowledgements@ =~= queue.skip(done + 1));
            }
        }
        assert(acknowledged@.len() == before.acknowledgeable());
        assert(acknowledged@ =~= before.acknowledgements());
        acknowledged
    }

    /// Takes the answer to a forkchoice update. An accepted update becomes the
    /// tracked state, and so does a stale one that was not submitted. Any other
    /// is fatal: every block it named is one the execution layer accepted, so
    /// the tracked view has diverged from the execution layer. The finalized
    /// blocks that the update covers are acknowledged; the build it carried is
    /// driven on if the answer names its payload, and is dropped otherwise.
    pub fn handle_forkchoice_response(
        &mut self,
        target: LocalState,
        build: Option<P>,
        response: Option<Result<ForkchoiceUpdated, ForkchoiceFailure>>,
    ) -> (accepted: Result<ForkchoiceAccepted<B, P, A>, Error>)
        requires
            old(self).wf(),
        ensures
            final(self).wf(),
            match State::<B, V, P, A>::forkchoice_failure(response) {
                Some(failure) => {
                    &&& final(self)@ == old(self)@
                    &&& accepted == Err::<ForkchoiceAccepted<B, P, A>, Error>(
                        Error::ForkchoiceDiverged { target, failure },
                    )
                },
                None => {
                    &&& final(self)@ == old(self)@.forkchoice_accepted(target)
                    &&& accepted is Ok
                    &&& accepted->Ok_0.acknowledged@ == (State {
                        local_state: target,
                        ..old(self)@
                    }).acknowledgements()
                    &&& accepted->Ok_0.job == job_started(build, response)
                },
            },
    {
        let updated = match response {
            None => {
                self.local_state = target;
                let acknowledged = self.acknowledge_finalized();
                return Ok(ForkchoiceAccepted { acknowledged, job: None });
            },
            Some(Err(failure)) => {
                return Err(Error::ForkchoiceDiverged { target, failure });
            },
            Some(Ok(updated)) => updated,
        };
        if !updated.is_valid() {
            return Err(
                Error::ForkchoiceDiverged {
                    target,
                    failure: ForkchoiceFailure::NotValid(updated.payload_status),
                },
            );
        }
        self.local_state = target;
        let acknowledged = self.acknowledge_finalized();
        let job = match (build, updated.payload_id) {
            (Some(payload), Some(payload_id)) => Some(StartPayloadJob { payload_id, payload }),
            _ => None,
        };
        Ok(ForkchoiceAccepted { acknowledged, job })
    }
}

} // verus!
