//! The executor's loop: what it meets, and what follows.
//!
//! Each iteration begins with [`Actor::begin_iteration`], which schedules the
//! next task. Once that task is on its way, the heartbeat timer is updated
//! ([`Actor::update_fcu_heartbeat_timer`]), and one event is waited for
//! ([`Actor::handle_event`]).

use crate::actor::Actor;
use crate::answers::{job_started, Delivered, ForkchoiceAccepted};
use crate::chain::{Block, Digest, Height, NANOS_MAX};
use crate::engine::PayloadStatus;
use crate::error::Error;
use crate::mailbox::Message;
use crate::state::{Scheduled, State};
use crate::task::{ExecutionTaskOutcome, FinalizedBlockRequest, Reply};
use std::sync::Arc;
use vstd::prelude::*;

verus! {

/// What the executor meets.
#[derive(Debug)]
pub enum Event<B, V, P, A> {
    /// The task in flight has its answer.
    Answer(ExecutionTaskOutcome<B, V, P, A>),
    /// The subscriber of the verification went away.
    VerificationCanceled,
    /// The retry timer of the verification went off.
    VerificationRetry,
    /// The retry timer of the walk towards a build's parent went off.
    ConvergenceRetry,
    /// The block fetched for the verification arrived, or its fetch failed.
    VerificationBlock { digest: Digest, block: Option<Arc<Block<B>>> },
    /// A payload job ended, and left a block behind or not.
    PayloadJob(Option<Arc<Block<B>>>),
    /// The block fetched for the delivery of a build's parent arrived, or its
    /// fetch failed.
    ConvergenceBlock { digest: Digest, block: Option<Arc<Block<B>>> },
    /// A message arrived.
    Message(Message<B, V, P, A>),
    /// There will be no more messages.
    MailboxClosed,
    /// The heartbeat timer went off.
    Heartbeat,
}

/// What follows an event.
#[derive(Debug)]
pub enum Action<B, V, P, A> {
    /// Nothing beyond the next iteration.
    Continue,
    /// The subscriber of a verification is told the verdict.
    Reply(Reply<V>),
    /// A verification, or the delivery of a build's parent, failed. This is no
    /// reason to stop.
    ValidationFailed(Error),
    /// A finalized block was delivered again; it is to be confirmed.
    Confirm(FinalizedBlockRequest<B, A>),
    /// A forkchoice update was accepted.
    Accepted(ForkchoiceAccepted<B, P, A>),
    /// The scheduler was run.
    Scheduled(Scheduled<B, V, P, A>),
    /// The executor ends.
    Stop,
}

/// How an iteration began.
#[derive(Debug)]
pub struct Iteration<B, V, P, A> {
    /// The height of the pending head, as the gauges read it: after what
    /// finality has overtaken was forgotten, and before a block was taken up.
    pub pending_height: Option<Height>,
    /// What was scheduled.
    pub scheduled: Scheduled<B, V, P, A>,
}

impl<B, V, P, A> State<B, V, P, A> {
    /// How an iteration begins: what finality has overtaken is forgotten, the
    /// walks are made ready, the fetches follow them, and then the next task is
    /// scheduled.
    pub open spec fn iteration_begun(self, subscriber_gone: bool) -> (
        State<B, V, P, A>,
        Scheduled<B, V, P, A>,
    ) {
        self.pruned().walks_prepared(subscriber_gone).fetches_updated().scheduled()
    }

    /// The height of the pending head that the gauges read in an iteration.
    pub open spec fn height_observed(self) -> Option<Height> {
        self.pruned().pending_head.height
    }

    /// With the execution layer free again.
    pub open spec fn task_finished(self) -> State<B, V, P, A> {
        State { execution_task: None, ..self }
    }

    /// The state after the task in flight has its answer.
    pub open spec fn answered(self, outcome: ExecutionTaskOutcome<B, V, P, A>) -> State<
        B,
        V,
        P,
        A,
    > {
        let free = self.task_finished();
        match outcome {
            ExecutionTaskOutcome::Validated { request, status } => free.validated(request, status),
            ExecutionTaskOutcome::FinalizedDelivered { request, status } => match status {
                Ok(PayloadStatus::Valid) => free.finalized_delivered(request),
                _ => free,
            },
            ExecutionTaskOutcome::Forkchoice { target, build, response } =>
                match Self::forkchoice_failure(response) {
                    None => free.forkchoice_accepted(target),
                    Some(_) => free,
                },
        }
    }

    /// What follows the answer of the task in flight.
    pub open spec fn follows_answer(
        self,
        outcome: ExecutionTaskOutcome<B, V, P, A>,
        action: Result<Action<B, V, P, A>, Error>,
    ) -> bool {
        match outcome {
            ExecutionTaskOutcome::Validated { request, status } => action == Ok::<
                Action<B, V, P, A>,
                Error,
            >(
                match Self::verdict(request, status) {
                    Ok(None) => Action::Continue,
                    Ok(Some(reply)) => Action::Reply(reply),
                    Err(error) => Action::ValidationFailed(error),
                },
            ),
            ExecutionTaskOutcome::FinalizedDelivered { request, status } => action == (
            match status {
                Ok(PayloadStatus::Valid) => Ok::<Action<B, V, P, A>, Error>(
                    if request.block.height <= self.local_state.finalized.0 {
                        Action::Confirm(request)
                    } else {
                        Action::Continue
                    },
                ),
                Ok(status) => Err(
                    Error::FinalizedNotValid {
                        digest: request.block.digest,
                        height: request.block.height,
                        status,
                    },
                ),
                Err(cause) => Err(
                    Error::FinalizedDeliveryFailed {
                        digest: request.block.digest,
                        height: request.block.height,
                        cause,
                    },
                ),
            }),
            ExecutionTaskOutcome::Forkchoice { target, build, response } =>
                match Self::forkchoice_failure(response) {
                    Some(failure) => action == Err::<Action<B, V, P, A>, Error>(
                        Error::ForkchoiceDiverged { target, failure },
                    ),
                    None => {
                        &&& action matches Ok(Action::Accepted(accepted))
                        &&& accepted.acknowledged@ == (State {
                            local_state: target,
                            ..self
                        }).acknowledgements()
                        &&& accepted.job == job_started(build, response)
                    },
                },
        }
    }

    /// The state after an event.
    pub open spec fn after(self, event: Event<B, V, P, A>) -> State<B, V, P, A> {
        match event {
            Event::Answer(outcome) => self.answered(outcome),
            Event::VerificationCanceled => self.without_verification(),
            Event::VerificationRetry => self.verification_retried(),
            Event::ConvergenceRetry => self.convergence_retried(),
            Event::VerificationBlock { digest, block } => self.verification_block_fetched(
                digest,
                block,
            ),
            Event::PayloadJob(Some(block)) => self.block_built(block),
            Event::PayloadJob(None) => self,
            Event::ConvergenceBlock { digest, block } => self.convergence_block_fetched(
                digest,
                block,
            ),
            Event::Message(message) => self.messaged(message),
            Event::MailboxClosed => self,
            Event::Heartbeat => self.heartbeat_scheduled().0,
        }
    }

    /// What follows an event.
    pub open spec fn follows(
        self,
        event: Event<B, V, P, A>,
        action: Result<Action<B, V, P, A>, Error>,
    ) -> bool {
        match event {
            Event::Answer(outcome) => self.follows_answer(outcome, action),
            Event::MailboxClosed => action == Ok::<Action<B, V, P, A>, Error>(Action::Stop),
            Event::Heartbeat => action == Ok::<Action<B, V, P, A>, Error>(
                Action::Scheduled(self.heartbeat_scheduled().1),
            ),
            _ => action == Ok::<Action<B, V, P, A>, Error>(Action::Continue),
        }
    }

    /// Whether an answer can still be accounted for: the count of deliveries
    /// and the time that a walk took do not overflow.
    pub open spec fn countable(self, outcome: ExecutionTaskOutcome<B, V, P, A>) -> bool {
        match outcome {
            ExecutionTaskOutcome::Validated { request, status } => {
                &&& self.deliveries_since_forkchoice < usize::MAX
                &&& request is Some && status is Ok ==> request->0.duration + (status->Ok_0).1
                    <= NANOS_MAX
            },
            ExecutionTaskOutcome::FinalizedDelivered { .. } => self.deliveries_since_forkchoice
                < usize::MAX,
            ExecutionTaskOutcome::Forkchoice { .. } => true,
        }
    }
}

impl<B, V, P, A> Actor<B, V, P, A> {
    /// Begins an iteration. `subscriber_gone` says whether the subscriber of
    /// the verification went away.
    pub fn begin_iteration(&mut self, subscriber_gone: bool) -> (begun: Iteration<B, V, P, A>)
        requires
            old(self).wf(),
        ensures
            final(self).wf(),
            (final(self)@, begun.scheduled) == old(self)@.iteration_begun(subscriber_gone),
            begun.pending_height == old(self)@.height_observed(),
            final(self).local_state == old(self).local_state,
            final(self).network_finalized_tip == old(self).network_finalized_tip,
    {
        self.prune_finalized();
        let pending_height = self.pending_head.height;
        self.prepare_walks(subscriber_gone);
        self.update_block_fetches();
        let scheduled = self.start_next_execution_task();
        Iteration { pending_height, scheduled }
    }

    /// Takes the answer of the task in flight. There is only one task at a
    /// time, so the state is the one that the task ran on top of. An error is
    /// fatal; a validation that failed is not.
    pub fn handle_execution_task_finished(
        &mut self,
        outcome: ExecutionTaskOutcome<B, V, P, A>,
    ) -> (action: Result<Action<B, V, P, A>, Error>)
        requires
            old(self).wf(),
            old(self)@.countable(outcome),
        ensures
            final(self).wf(),
            final(self)@ == old(self)@.answered(outcome),
            old(self)@.follows_answer(outcome, action),
    {
        let ghost before = self@;
        self.execution_task = None;
        match outcome {
            ExecutionTaskOutcome::Validated { request, status } => {
                match self.handle_validated(request, status) {
                    Ok(None) => Ok(Action::Continue),
                    Ok(Some(reply)) => Ok(Action::Reply(reply)),
                    Err(error) => Ok(Action::ValidationFailed(error)),
                }
            },
            ExecutionTaskOutcome::FinalizedDelivered { request, status } => {
                match self.handle_finalized_delivered(request, status) {
                    Ok(Delivered::Queued) => Ok(Action::Continue),
                    Ok(Delivered::Redelivered(request)) => Ok(Action::Confirm(request)),
                    Err(error) => Err(error),
                }
            },
            ExecutionTaskOutcome::Forkchoice { target, build, response } => {
                match self.handle_forkchoice_response(target, build, response) {
                    Ok(accepted) => {
                        assert(accepted.acknowledged@ =~= (State {
                            local_state: target,
                            ..before
                        }).acknowledgements());
                        Ok(Action::Accepted(accepted))
                    },
                    Err(error) => Err(error),
                }
            },
        }
    }

    /// Takes an event. An error is fatal: the executor ends, so that consensus
    /// and the execution layer do not diverge.
    pub fn handle_event(&mut self, event: Event<B, V, P, A>) -> (action: Result<
        Action<B, V, P, A>,
        Error,
    >)
        requires
            old(self).wf(),
            event matches Event::Answer(outcome) ==> old(self)@.countable(outcome),
        ensures
            final(self).wf(),
            final(self)@ == old(self)@.after(event),
            old(self)@.follows(event, action),
    {
        match event {
            Event::Answer(outcome) => {
                return self.handle_execution_task_finished(outcome);
            },
            Event::VerificationCanceled => self.cancel_verification(),
            Event::VerificationRetry => self.retry_verification(),
            Event::ConvergenceRetry => self.retry_convergence(),
            Event::VerificationBlock { digest, block } => {
                self.handle_fetched_verification_block(digest, block);
            },
            Event::PayloadJob(block) => {
                if let Some(block) = block {
                    self.retain_built_block(block);
                }
            },
            Event::ConvergenceBlock { digest, block } => {
                self.handle_fetched_convergence_block(digest, block);
            },
            Event::Message(message) => self.handle_message(message),
            Event::MailboxClosed => {
                return Ok(Action::Stop);
            },
            Event::Heartbeat => {
                return Ok(Action::Scheduled(self.send_forkchoice_update_heartbeat()));
            },
        }
        Ok(Action::Continue)
    }
}

} // verus!
