//! Requests to the executor, and the tasks it gives to the execution layer.

use crate::chain::{Block, Context, Nanos, Round};
use crate::engine::{ForkchoiceUpdated, LocalState, PayloadId, PayloadStatus};
use crate::error::ForkchoiceFailure;
use crate::walk::{PayloadRequest, PayloadWalk};
use std::sync::Arc;
use vstd::prelude::*;

verus! {

/// A finalized block to be delivered and then acknowledged.
#[derive(Debug)]
pub struct FinalizedBlockRequest<B, A> {
    pub block: Arc<Block<B>>,
    pub acknowledgment: A,
}

/// A request to build a block on the parent that its context selects.
#[derive(Debug)]
pub struct Build<P> {
    pub context: Context,
    /// The payload's attributes and its subscriber.
    pub payload: P,
}

/// A request of a consensus round, which waits for its answer: to validate the
/// round's proposal, or to build it.
#[derive(Debug)]
pub enum ConsensusRequest<B, V, P> {
    Verify(PayloadRequest<B, V>),
    Build(Build<P>),
}

/// The slot for consensus requests after `request` of `round` arrived.
pub open spec fn queued<B, V, P>(
    slot: Option<(Round, ConsensusRequest<B, V, P>)>,
    round: Round,
    request: ConsensusRequest<B, V, P>,
) -> Option<(Round, ConsensusRequest<B, V, P>)> {
    match slot {
        Some((waiting, _)) if !round.after(waiting) => slot,
        _ => Some((round, request)),
    }
}

/// Queues `request` into `slot`, unless the slot holds a request of the same
/// or a newer round. A request that is superseded, or that comes too late, is
/// dropped with its subscriber, which thereby learns of the failure.
pub fn queue_consensus_request<B, V, P>(
    slot: &mut Option<(Round, ConsensusRequest<B, V, P>)>,
    round: Round,
    request: ConsensusRequest<B, V, P>,
)
    ensures
        *final(slot) == queued(*old(slot), round, request),
{
    let keep = match slot {
        Some((waiting, _)) => !round.is_after(*waiting),
        None => false,
    };
    if !keep {
        *slot = Some((round, request));
    }
}

/// The kind of an execution task.
#[derive(Clone, Copy, Debug, PartialEq, Eq, Structural)]
pub enum ExecutionTaskType {
    Heartbeat,
    Verify,
    Build,
    Deliver,
    Finalize,
    Forkchoice,
}

impl ExecutionTaskType {
    /// The name of the kind.
    pub open spec fn name_of(self) -> Seq<char> {
        match self {
            ExecutionTaskType::Heartbeat => "heartbeat"@,
            ExecutionTaskType::Verify => "verify"@,
            ExecutionTaskType::Build => "build"@,
            ExecutionTaskType::Deliver => "deliver"@,
            ExecutionTaskType::Finalize => "finalize"@,
            ExecutionTaskType::Forkchoice => "forkchoice"@,
        }
    }

    /// The name of the kind.
    pub fn name(self) -> (name: &'static str)
        ensures
            name@ == self.name_of(),
    {
        match self {
            ExecutionTaskType::Heartbeat => "heartbeat",
            ExecutionTaskType::Verify => "verify",
            ExecutionTaskType::Build => "build",
            ExecutionTaskType::Deliver => "deliver",
            ExecutionTaskType::Finalize => "finalize",
            ExecutionTaskType::Forkchoice => "forkchoice",
        }
    }
}

/// A task for the execution layer: one call.
#[derive(Debug)]
pub enum ExecutionTask<B, V, P, A> {
    /// Re-affirm the forkchoice.
    Heartbeat { target: LocalState },
    /// Deliver the cursor of a verification.
    Verify(PayloadWalk<B, V>),
    /// Re-affirm the forkchoice and start a build on its head.
    Build { target: LocalState, build: Build<P> },
    /// Deliver the cursor of the walk towards the parent of a build.
    Deliver(PayloadWalk<B, V>),
    /// Deliver a finalized block.
    Finalize(FinalizedBlockRequest<B, A>),
    /// Update the forkchoice.
    Forkchoice { target: LocalState },
}

/// The task that the execution layer is busy with.
#[derive(Clone, Copy, Debug)]
pub struct InFlightTask {
    pub task_type: ExecutionTaskType,
    /// The forkchoice that the task submits, where it submits one.
    pub target: Option<LocalState>,
}

impl<B, V, P, A> ExecutionTask<B, V, P, A> {
    /// What is remembered of the task while it is in flight.
    pub open spec fn in_flight_of(self) -> InFlightTask {
        match self {
            ExecutionTask::Heartbeat { target } => InFlightTask {
                task_type: ExecutionTaskType::Heartbeat,
                target: Some(target),
            },
            ExecutionTask::Verify(_) => InFlightTask {
                task_type: ExecutionTaskType::Verify,
                target: None,
            },
            ExecutionTask::Build { target, .. } => InFlightTask {
                task_type: ExecutionTaskType::Build,
                target: Some(target),
            },
            ExecutionTask::Deliver(_) => InFlightTask {
                task_type: ExecutionTaskType::Deliver,
                target: None,
            },
            ExecutionTask::Finalize(_) => InFlightTask {
                task_type: ExecutionTaskType::Finalize,
                target: None,
            },
            ExecutionTask::Forkchoice { target } => InFlightTask {
                task_type: ExecutionTaskType::Forkchoice,
                target: Some(target),
            },
        }
    }

    /// What is remembered of the task while it is in flight.
    pub fn in_flight(&self) -> (in_flight: InFlightTask)
        ensures
            in_flight == self.in_flight_of(),
    {
        match self {
            ExecutionTask::Heartbeat { target } => InFlightTask {
                task_type: ExecutionTaskType::Heartbeat,
                target: Some(*target),
            },
            ExecutionTask::Verify(_) => InFlightTask {
                task_type: ExecutionTaskType::Verify,
                target: None,
            },
            ExecutionTask::Build { target, .. } => InFlightTask {
                task_type: ExecutionTaskType::Build,
                target: Some(*target),
            },
            ExecutionTask::Deliver(_) => InFlightTask {
                task_type: ExecutionTaskType::Deliver,
                target: None,
            },
            ExecutionTask::Finalize(_) => InFlightTask {
                task_type: ExecutionTaskType::Finalize,
                target: None,
            },
            ExecutionTask::Forkchoice { target } => InFlightTask {
                task_type: ExecutionTaskType::Forkchoice,
                target: Some(*target),
            },
        }
    }
}

/// What an execution task got back from its call.
#[derive(Debug)]
#[allow(inconsistent_fields)]
pub enum ExecutionTaskOutcome<B, V, P, A> {
    /// A cursor was delivered. The walk comes back for its verdict, unless its
    /// subscriber went away meanwhile; the status comes with the time taken.
    Validated {
        request: Option<PayloadWalk<B, V>>,
        status: Result<(PayloadStatus, Nanos), String>,
    },
    /// A finalized block was delivered. The request comes back to be
    /// acknowledged.
    FinalizedDelivered {
        request: FinalizedBlockRequest<B, A>,
        status: Result<PayloadStatus, String>,
    },
    /// A forkchoice update was answered; the build it carried comes back with
    /// the answer. There is no answer to an update that was stale and was not
    /// submitted.
    Forkchoice {
        target: LocalState,
        build: Option<P>,
        response: Option<Result<ForkchoiceUpdated, ForkchoiceFailure>>,
    },
}

impl<B, V, P, A> ExecutionTaskOutcome<B, V, P, A> {
    /// The name of the kind of outcome.
    pub open spec fn name_of(self) -> Seq<char> {
        match self {
            ExecutionTaskOutcome::Validated { .. } => "validated"@,
            ExecutionTaskOutcome::FinalizedDelivered { .. } => "finalized-delivered"@,
            ExecutionTaskOutcome::Forkchoice { .. } => "forkchoice"@,
        }
    }

    /// The forkchoice that was submitted, where one was.
    pub open spec fn target_of(self) -> Option<LocalState> {
        match self {
            ExecutionTaskOutcome::Forkchoice { target, .. } => Some(target),
            _ => None,
        }
    }

    /// The name of the kind of outcome.
    pub fn name(&self) -> (name: &'static str)
        ensures
            name@ == self.name_of(),
    {
        match self {
            ExecutionTaskOutcome::Validated { .. } => "validated",
            ExecutionTaskOutcome::FinalizedDelivered { .. } => "finalized-delivered",
            ExecutionTaskOutcome::Forkchoice { .. } => "forkchoice",
        }
    }

    /// The forkchoice that was submitted, where one was.
    pub fn target(&self) -> (target: Option<LocalState>)
        ensures
            target == self.target_of(),
    {
        match self {
            ExecutionTaskOutcome::Forkchoice { target, .. } => Some(*target),
            _ => None,
        }
    }
}

/// What a probe meets.
#[derive(Debug)]
pub enum ProbeEvent {
    /// The execution layer answered, or the call failed.
    Answered(Result<(PayloadStatus, Nanos), String>),
    /// The subscriber went away before the answer came. The execution layer
    /// may still process the block.
    SubscriberGone,
}

/// Whether an outcome is the one that a probe ends with.
pub open spec fn probe_outcome<B, V, P, A>(
    walk: PayloadWalk<B, V>,
    event: ProbeEvent,
    outcome: ExecutionTaskOutcome<B, V, P, A>,
) -> bool {
    match event {
        ProbeEvent::Answered(status) => outcome == ExecutionTaskOutcome::<
            B,
            V,
            P,
            A,
        >::Validated { request: Some(walk), status },
        ProbeEvent::SubscriberGone => {
            &&& outcome matches ExecutionTaskOutcome::Validated {
                request: None,
                status: Err(cause),
            }
            &&& cause@ == "verification subscriber went away"@
        },
    }
}

/// Ends a probe. With an answer, the walk comes back; without a subscriber, it
/// is abandoned.
pub fn execute_validation<B, V, P, A>(walk: PayloadWalk<B, V>, event: ProbeEvent) -> (outcome:
    ExecutionTaskOutcome<B, V, P, A>)
    ensures
        probe_outcome(walk, event, outcome),
{
    match event {
        ProbeEvent::Answered(status) => ExecutionTaskOutcome::Validated {
            request: Some(walk),
            status,
        },
        ProbeEvent::SubscriberGone => ExecutionTaskOutcome::Validated {
            request: None,
            status: Err("verification subscriber went away".to_owned()),
        },
    }
}

/// A verdict for the subscriber of a verification: how long the execution
/// layer took to accept the candidate, or that it rejected it.
#[derive(Debug)]
pub struct Reply<V> {
    pub response: V,
    pub verdict: Option<Nanos>,
}

/// A finalized block to be acknowledged.
#[derive(Debug)]
pub struct Acknowledgement<B, A> {
    pub request: FinalizedBlockRequest<B, A>,
    /// Whether this node proposed the block.
    pub proposed_by_self: bool,
}

/// A build that the execution layer has registered, whose payload is to be
/// resolved for its subscriber.
#[derive(Debug)]
pub struct StartPayloadJob<P> {
    pub payload_id: PayloadId,
    pub payload: P,
}

/// What a payload job meets.
#[derive(Debug)]
pub enum PayloadJobEvent<B, Y> {
    /// The subscriber went away before the payload was resolved.
    SubscriberGone,
    /// The payload was resolved, or its build failed; or there is no build
    /// under the identifier.
    Resolved(Option<Result<Y, String>>),
    /// The payload, which holds `block`, was sent to the subscriber.
    Sent { received: bool, block: Arc<Block<B>> },
}

/// What a payload job does next.
#[derive(Debug)]
pub enum PayloadJobAction<B, Y> {
    /// Send the payload to the subscriber.
    Send(Y),
    /// End, and leave the built block behind where a later build may need its
    /// body. Where the payload was not sent, its subscriber is dropped and
    /// thereby learns of the failure.
    Finish(Option<Arc<Block<B>>>),
}

/// What [`run_payload_job`] does next.
pub open spec fn job_action<B, Y>(event: PayloadJobEvent<B, Y>) -> PayloadJobAction<B, Y> {
    match event {
        PayloadJobEvent::Resolved(Some(Ok(payload))) => PayloadJobAction::Send(payload),
        PayloadJobEvent::Sent { received: true, block } => PayloadJobAction::Finish(Some(block)),
        _ => PayloadJobAction::Finish(None),
    }
}

/// Drives a payload job. A payload that was built goes to its subscriber;
/// once the subscriber has received it, it may propose the block, and the body
/// is kept.
pub fn run_payload_job<B, Y>(event: PayloadJobEvent<B, Y>) -> (action: PayloadJobAction<B, Y>)
    ensures
        action == job_action(event),
{
    match event {
        PayloadJobEvent::SubscriberGone => PayloadJobAction::Finish(None),
        PayloadJobEvent::Resolved(Some(Ok(payload))) => PayloadJobAction::Send(payload),
        PayloadJobEvent::Resolved(_) => PayloadJobAction::Finish(None),
        PayloadJobEvent::Sent { received, block } => {
            if received {
                PayloadJobAction::Finish(Some(block))
            } else {
                PayloadJobAction::Finish(None)
            }
        },
    }
}

} // verus!
