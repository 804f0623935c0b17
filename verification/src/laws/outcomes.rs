//! What answers, events and the end of jobs lead to.

use crate::answers::job_started;
use crate::background::Background;
use crate::chain::{Block, Digest, Height, Nanos, NANOS_MAX};
use crate::engine::{ForkchoiceUpdated, LocalState, PayloadStatus};
use crate::error::{Error, ForkchoiceFailure};
use crate::metrics::{depth_of, gauge_value, lag_of};
use crate::run::{Action, Event};
use crate::laws::finality::law_finalized_prefix;
use crate::startup::{
    lookup_step, wait_before_asking, BlockLookup, Config, LookupStep,
    EXECUTION_LAYER_READY_POLL_INTERVAL,
};
use crate::state::{finalized_prefix, State};
use crate::task::{
    job_action, ExecutionTaskOutcome, FinalizedBlockRequest, PayloadJobAction, PayloadJobEvent,
};
use crate::walk::PayloadWalk;
use std::sync::Arc;
use vstd::prelude::*;

verus! {

/// A walk that rests begins anew, without waiting for its timer; any other walk
/// goes on as it is, with its timer.
pub open spec fn woken_up<B, V>(
    walk: Option<PayloadWalk<B, V>>,
    timer: Background<Nanos>,
    after: Option<PayloadWalk<B, V>>,
    after_timer: Background<Nanos>,
) -> bool {
    match walk {
        Some(walk) => {
            &&& walk.step is Retry ==> after == Some(walk.begun_anew()) && after_timer is Idle
            &&& !(walk.step is Retry) ==> after == Some(walk) && after_timer == timer
        },
        None => after is None && after_timer == timer,
    }
}

/// A finalized block that is `VALID` counts as one delivery, becomes the last
/// one delivered where it is higher, wakes the walks, and waits for its
/// acknowledgement unless the tracked finality covers it. The execution layer is
/// free again, and nothing else changes.
pub proof fn law_finalized_block_delivered<B, V, P, A>(
    state: State<B, V, P, A>,
    request: FinalizedBlockRequest<B, A>,
)
    requires
        state.deliveries_since_forkchoice < usize::MAX,
    ensures
        ({
            let next = state.answered(
                ExecutionTaskOutcome::FinalizedDelivered {
                    request,
                    status: Ok(PayloadStatus::Valid),
                },
            );
            let block = request.block;
            &&& next.execution_task is None
            &&& next.deliveries_since_forkchoice == state.deliveries_since_forkchoice + 1
            &&& block.height > state.delivered_finalized.0 ==> next.delivered_finalized == (
                block.height,
                block.digest,
            )
            &&& block.height <= state.delivered_finalized.0 ==> next.delivered_finalized
                == state.delivered_finalized
            &&& block.height > state.local_state.finalized.0 ==> next.pending_acknowledgements
                == state.pending_acknowledgements.push(request)
            &&& block.height <= state.local_state.finalized.0 ==> next.pending_acknowledgements
                == state.pending_acknowledgements
            &&& woken_up(
                state.verification,
                state.verification_retry,
                next.verification,
                next.verification_retry,
            )
            &&& woken_up(
                state.convergence,
                state.convergence_retry,
                next.convergence,
                next.convergence_retry,
            )
            &&& next == (State {
                execution_task: next.execution_task,
                deliveries_since_forkchoice: next.deliveries_since_forkchoice,
                delivered_finalized: next.delivered_finalized,
                pending_acknowledgements: next.pending_acknowledgements,
                verification: next.verification,
                verification_retry: next.verification_retry,
                convergence: next.convergence,
                convergence_retry: next.convergence_retry,
                ..state
            })
        }),
{
}

/// A finalized block that is not answered `VALID`, and an update that fails,
/// leave the state as it was, but for the task in flight.
pub proof fn law_failures_change_nothing<B, V, P, A>(
    state: State<B, V, P, A>,
    outcome: ExecutionTaskOutcome<B, V, P, A>,
)
    requires
        match outcome {
            ExecutionTaskOutcome::Validated { .. } => false,
            ExecutionTaskOutcome::FinalizedDelivered { status, .. } => !(status matches Ok(
                PayloadStatus::Valid,
            )),
            ExecutionTaskOutcome::Forkchoice { response, .. } => match response {
                None => false,
                Some(Err(_)) => true,
                Some(Ok(updated)) => !(updated.payload_status is Valid),
            },
        },
    ensures
        state.answered(outcome) == (State { execution_task: None, ..state }),
{
}

/// An answer to a probe is taken in with the execution layer free again.
pub proof fn law_probe_is_taken_in<B, V, P, A>(
    state: State<B, V, P, A>,
    request: Option<PayloadWalk<B, V>>,
    status: Result<(PayloadStatus, Nanos), String>,
)
    ensures
        state.answered(ExecutionTaskOutcome::Validated { request, status }) == (State {
            execution_task: None,
            ..state
        }).validated(request, status),
        state.after(Event::Answer(ExecutionTaskOutcome::Validated { request, status }))
            == state.answered(ExecutionTaskOutcome::Validated { request, status }),
{
}

/// An update that is answered `VALID`, or was stale, becomes the tracked
/// forkchoice, and the blocks at the front of the queue that it finalizes leave
/// the queue, up to the first one above it. The execution layer is free again,
/// and nothing else changes.
pub proof fn law_accepted_update<B, V, P, A>(
    state: State<B, V, P, A>,
    target: LocalState,
    build: Option<P>,
    response: Option<Result<ForkchoiceUpdated, ForkchoiceFailure>>,
)
    requires
        match response {
            None => true,
            Some(Err(_)) => false,
            Some(Ok(updated)) => updated.payload_status is Valid,
        },
    ensures
        ({
            let next = state.answered(ExecutionTaskOutcome::Forkchoice { target, build, response });
            let before = state.pending_acknowledgements;
            let after = next.pending_acknowledgements;
            let gone = before.len() - after.len();
            &&& next.local_state == target
            &&& next.execution_task is None
            &&& 0 <= gone
            &&& after == before.subrange(gone, before.len() as int)
            &&& forall|i: int|
                0 <= i < gone ==> (#[trigger] before[i]).block.height <= target.finalized.0
            &&& after.len() > 0 ==> after[0].block.height > target.finalized.0
            &&& next == (State {
                local_state: next.local_state,
                execution_task: next.execution_task,
                pending_acknowledgements: next.pending_acknowledgements,
                ..state
            })
        }),
{
    let queue = state.pending_acknowledgements;
    law_finalized_prefix(queue, target.finalized.0);
    let gone = finalized_prefix(queue, target.finalized.0) as int;
    assert(queue.skip(gone) =~= queue.subrange(gone, queue.len() as int));
}

/// An acknowledgement is for the request as it came, and says whether the node
/// proposed the block.
pub proof fn law_acknowledgement<B, V, P, A>(
    state: State<B, V, P, A>,
    request: FinalizedBlockRequest<B, A>,
    canonical: Option<Digest>,
)
    ensures
        state.acknowledgement(request).request == request,
        state.acknowledgement(request).proposed_by_self == state.proposed_by_self(*request.block),
        state.confirmation(request, canonical) matches Ok(acknowledged) ==> canonical == Some(
            request.block.digest,
        ) && acknowledged == state.acknowledgement(request),
        state.confirmation(request, canonical) matches Err(error) ==> canonical != Some(
            request.block.digest,
        ) && error == (Error::FinalizedConflict {
            digest: request.block.digest,
            height: request.block.height,
            canonical,
        }),
{
}

/// What follows the answer to a probe: its verdict goes out, its failure is told
/// without being fatal, or nothing follows.
pub proof fn law_probe_action<B, V, P, A>(
    state: State<B, V, P, A>,
    request: Option<PayloadWalk<B, V>>,
    status: Result<(PayloadStatus, Nanos), String>,
    action: Result<Action<B, V, P, A>, Error>,
)
    requires
        state.follows_answer(ExecutionTaskOutcome::Validated { request, status }, action),
    ensures
        match State::<B, V, P, A>::verdict(request, status) {
            Ok(Some(reply)) => action matches Ok(Action::Reply(told)) && told == reply,
            Ok(None) => action matches Ok(Action::Continue),
            Err(error) => action matches Ok(Action::ValidationFailed(told)) && told == error,
        },
{
}

/// What follows the delivery of a finalized block: a confirmation of that very
/// request where the tracked finality covers it, nothing where it waits, and
/// otherwise the error that names the block and the reason.
pub proof fn law_finalized_action<B, V, P, A>(
    state: State<B, V, P, A>,
    request: FinalizedBlockRequest<B, A>,
    status: Result<PayloadStatus, String>,
    action: Result<Action<B, V, P, A>, Error>,
)
    requires
        state.follows_answer(ExecutionTaskOutcome::FinalizedDelivered { request, status }, action),
    ensures
        match status {
            Ok(PayloadStatus::Valid) => if request.block.height <= state.local_state.finalized.0 {
                action matches Ok(Action::Confirm(told)) && told == request
            } else {
                action matches Ok(Action::Continue)
            },
            Ok(answer) => action matches Err(error) && error == (Error::FinalizedNotValid {
                digest: request.block.digest,
                height: request.block.height,
                status: answer,
            }),
            Err(reason) => action matches Err(error) && error == (Error::FinalizedDeliveryFailed {
                digest: request.block.digest,
                height: request.block.height,
                cause: reason,
            }),
        },
{
}

/// What follows the answer to an update: the blocks that left the queue are
/// acknowledged, in order, and the build is driven on; or the error that names
/// the target and the reason.
pub proof fn law_update_action<B, V, P, A>(
    state: State<B, V, P, A>,
    target: LocalState,
    build: Option<P>,
    response: Option<Result<ForkchoiceUpdated, ForkchoiceFailure>>,
    action: Result<Action<B, V, P, A>, Error>,
)
    requires
        state.follows_answer(ExecutionTaskOutcome::Forkchoice { target, build, response }, action),
    ensures
        ({
            let next = state.answered(ExecutionTaskOutcome::Forkchoice { target, build, response });
            let before = state.pending_acknowledgements;
            let gone = before.len() - next.pending_acknowledgements.len();
            match State::<B, V, P, A>::forkchoice_failure(response) {
                Some(failure) => action matches Err(error) && error == (Error::ForkchoiceDiverged {
                    target,
                    failure,
                }),
                None => {
                    &&& action matches Ok(Action::Accepted(accepted))
                    &&& accepted.job == job_started(build, response)
                    &&& accepted.acknowledged@.len() == gone
                    &&& forall|i: int|
                        0 <= i < gone ==> (#[trigger] accepted.acknowledged@[i]).request
                            == before[i] && accepted.acknowledged@[i].proposed_by_self
                            == state.proposed_by_self(*before[i].block)
                },
            }
        }),
{
    law_finalized_prefix(
        state.pending_acknowledgements,
        target.finalized.0,
    );
}

/// What follows the other events: the heartbeat hands on what the scheduler
/// decided, the end of the messages ends the executor, and nothing follows the
/// rest.
pub proof fn law_event_action<B, V, P, A>(
    state: State<B, V, P, A>,
    event: Event<B, V, P, A>,
    action: Result<Action<B, V, P, A>, Error>,
)
    requires
        state.follows(event, action),
    ensures
        match event {
            Event::Answer(outcome) => state.follows_answer(outcome, action),
            Event::MailboxClosed => action matches Ok(Action::Stop),
            Event::Heartbeat => action matches Ok(Action::Scheduled(scheduled)) && scheduled
                == state.heartbeat_scheduled().1,
            _ => action matches Ok(Action::Continue),
        },
{
}

/// What an event does to the state, where another operation says it: answers
/// are taken in as answers, messages as messages, and the heartbeat as the
/// heartbeat.
pub proof fn law_events_are_taken_in<B, V, P, A>(
    state: State<B, V, P, A>,
    event: Event<B, V, P, A>,
)
    ensures
        event matches Event::Answer(outcome) ==> state.after(event) == state.answered(outcome),
        event matches Event::Message(message) ==> state.after(event) == state.messaged(message),
        event is Heartbeat ==> state.after(event) == state.heartbeat_scheduled().0,
{
}

/// Every answer can be taken in that does not overflow the count of deliveries
/// or the time of a walk; answers to updates always can.
pub proof fn law_answers_are_countable<B, V, P, A>(
    state: State<B, V, P, A>,
    outcome: ExecutionTaskOutcome<B, V, P, A>,
)
    requires
        outcome is Forkchoice || state.deliveries_since_forkchoice < usize::MAX,
        outcome matches ExecutionTaskOutcome::Validated {
            request: Some(walk),
            status: Ok((_, time)),
        } ==> walk.duration + time <= NANOS_MAX,
    ensures
        state.countable(outcome),
{
}

/// The state to start in: nothing waits, nothing runs, nothing is known; head,
/// finalized block and last block delivered are the finalized point; the pending
/// head is the network's finalized tip, whose round is the newest; and the
/// settings are those given.
pub proof fn law_start<B, V, P, A>(config: Config, finalized: (Height, Digest))
    ensures
        ({
            let state = State::<B, V, P, A>::started(config, finalized);
            let tip = config.finalized_tip;
            &&& state.finalized_floor == config.finalized_floor
            &&& state.fcu_heartbeat_interval == config.fcu_heartbeat_interval
            &&& state.public_key == config.public_key
            &&& state.local_state.head == finalized
            &&& state.local_state.finalized == finalized
            &&& state.delivered_finalized == finalized
            &&& state.network_finalized_tip == tip
            &&& state.latest_consensus_round == tip.0
            &&& state.pending_head.round == tip.0
            &&& state.pending_head.height == Some(tip.1)
            &&& state.pending_head.digest == tip.2
            &&& !state.pending_head.requires_delivery
            &&& state.execution_task is None
            &&& state.verification is None
            &&& state.convergence is None
            &&& state.pending_consensus_request is None
            &&& state.fcu_heartbeat_timer is Idle
            &&& state.verification_retry is Idle
            &&& state.convergence_retry is Idle
            &&& state.pending_verification_block is Idle
            &&& state.pending_convergence_block is Idle
            &&& state.deliveries_since_forkchoice == 0
            &&& state.pending_finalizations.len() == 0
            &&& state.pending_acknowledgements.len() == 0
            &&& forall|digest: Digest| !#[trigger] state.known_blocks.contains_key(digest)
            &&& forall|digest: Digest| !#[trigger] state.built_blocks.contains_key(digest)
        }),
{
}

/// The finalized point to start from. A tip below the floor is refused. A floor
/// below the execution layer's finality is the point, with the canonical block
/// there, which is read, and is refused without it. Otherwise the execution
/// layer's own finalized block is the point, and nothing is read.
pub proof fn law_startup(
    config: Config,
    execution_finalized: (Height, Digest),
    canonical: Option<Digest>,
    other: Option<Digest>,
)
    ensures
        ({
            let start = config.start(execution_finalized, canonical);
            let read = config.read_at_start(execution_finalized);
            let (tip, floor) = (config.finalized_tip.1, config.finalized_floor);
            &&& tip < floor ==> start == Err::<(Height, Digest), Error>(
                Error::TipBelowFloor { tip, floor },
            ) && read == Err::<Option<Height>, Error>(Error::TipBelowFloor { tip, floor })
            &&& tip >= floor && floor < execution_finalized.0 ==> read == Ok::<
                Option<Height>,
                Error,
            >(Some(floor)) && match canonical {
                Some(digest) => start == Ok::<(Height, Digest), Error>((floor, digest)),
                None => start == Err::<(Height, Digest), Error>(
                    Error::FloorMissing { floor, execution_finalized: execution_finalized.0 },
                ),
            }
            &&& tip >= floor && floor >= execution_finalized.0 ==> start == Ok::<
                (Height, Digest),
                Error,
            >(execution_finalized) && read == Ok::<Option<Height>, Error>(None)
            &&& read == Ok::<Option<Height>, Error>(None) ==> start == config.start(
                execution_finalized,
                other,
            )
        }),
{
}

/// The execution layer is asked again, after the interval, exactly while it is
/// not ready.
pub proof fn law_waiting_for_execution_layer(ready: bool)
    ensures
        ready ==> wait_before_asking(ready) is None,
        !ready ==> wait_before_asking(ready) == Some(EXECUTION_LAYER_READY_POLL_INTERVAL),
{
}

/// The search for a block ends with the block that was found, on either side;
/// without one it goes on from consensus to its finalizations, and from there to
/// the execution layer under the digest that was finalized; and it fails, with
/// the height and the digest searched for, where a finalization or the block
/// itself is missing.
pub proof fn law_search<B>(height: Height, block: Arc<Block<B>>, digest: Digest)
    ensures
        lookup_step(height, BlockLookup::Consensus(Some(block))) == Ok::<LookupStep<B>, Error>(
            LookupStep::Found(block),
        ),
        lookup_step(height, BlockLookup::<B>::Consensus(None)) == Ok::<LookupStep<B>, Error>(
            LookupStep::AskFinalization,
        ),
        lookup_step(height, BlockLookup::<B>::Finalization(Some(digest))) == Ok::<
            LookupStep<B>,
            Error,
        >(LookupStep::AskExecution(digest)),
        lookup_step(height, BlockLookup::<B>::Finalization(None)) == Err::<LookupStep<B>, Error>(
            Error::FinalizationUnknown { height },
        ),
        lookup_step(height, BlockLookup::Execution { digest, block: Some(block) }) == Ok::<
            LookupStep<B>,
            Error,
        >(LookupStep::Found(block)),
        lookup_step(height, BlockLookup::<B>::Execution { digest, block: None }) == Err::<
            LookupStep<B>,
            Error,
        >(Error::BlockMissing { height, digest }),
{
}

/// A payload that was built is sent as it is. Once it was received, its block is
/// left behind; where it was not received, was not built, or nobody waits for
/// it, nothing is.
pub proof fn law_payload_job<B, Y>(payload: Y, block: Arc<Block<B>>, cause: String)
    ensures
        job_action::<B, Y>(PayloadJobEvent::Resolved(Some(Ok(payload)))) == PayloadJobAction::<
            B,
            Y,
        >::Send(payload),
        job_action::<B, Y>(PayloadJobEvent::Sent { received: true, block }) == PayloadJobAction::<
            B,
            Y,
        >::Finish(Some(block)),
        job_action::<B, Y>(PayloadJobEvent::Sent { received: false, block }) == PayloadJobAction::<
            B,
            Y,
        >::Finish(None),
        job_action::<B, Y>(PayloadJobEvent::Resolved(Some(Err(cause)))) == PayloadJobAction::<
            B,
            Y,
        >::Finish(None),
        job_action::<B, Y>(PayloadJobEvent::Resolved(None)) == PayloadJobAction::<B, Y>::Finish(
            None,
        ),
        job_action::<B, Y>(PayloadJobEvent::SubscriberGone) == PayloadJobAction::<B, Y>::Finish(
            None,
        ),
{
}

/// A gauge holds any number below its limit as it is, and any number up to that
/// of a whole turn.
pub proof fn law_gauge(number: u64)
    ensures
        i64::MIN <= gauge_value(number) <= i64::MAX,
        gauge_value(number) == number || gauge_value(number) + 0x1_0000_0000_0000_0000 == number,
{
}

/// The lag is what the tracked finality lacks to the network's, and nothing
/// where it lacks nothing. The depth is how far the pending head is above the
/// head, below it negative, and is not read while its height is not known.
pub proof fn law_readings(local: LocalState, finalized: Height, pending: Option<Height>)
    ensures
        finalized >= local.finalized.0 ==> local.finalized.0 + lag_of(local, finalized)
            == finalized,
        finalized < local.finalized.0 ==> lag_of(local, finalized) == 0,
        depth_of(local, pending) is None <==> pending is None,
        pending matches Some(height) ==> depth_of(local, pending)->0 + gauge_value(local.head.0)
            == gauge_value(height),
{
}

} // verus!
