//! What is started when, and what is fatal.

use crate::background::Background;
use crate::chain::{Digest, Height};
use crate::engine::{LocalState, PayloadStatus};
use crate::error::Error;
use crate::laws::acknowledgement::law_waiting_block_makes_update_due;
use crate::laws::moves::Move;
use crate::run::Action;
use crate::startup::Config;
use crate::state::{Scheduled, State, DELIVERIES_PER_FORKCHOICE_UPDATE};
use crate::task::{Build, ExecutionTask, ExecutionTaskOutcome};
use crate::walk::PayloadWalk;
use vstd::prelude::*;

verus! {

/// There is one task at a time: nothing is scheduled while a task is in flight,
/// and a scheduled task is in flight from then on.
pub proof fn law_one_task_at_a_time<B, V, P, A>(state: State<B, V, P, A>)
    ensures
        state.execution_task is Some ==> state.scheduled() == (
            state,
            Scheduled::<B, V, P, A>::Idle,
        ),
        state.execution_task is None ==> match state.scheduled().1 {
            Scheduled::Task(task) => state.scheduled().0.execution_task == Some(
                task.in_flight_of(),
            ),
            _ => state.scheduled().0.execution_task is None,
        },
{
}

/// The scheduler is idle only when there is nothing to do: no consensus request
/// can run, no finalized block waits to be delivered, no forkchoice update is
/// due, and no build's parent is to be delivered.
pub proof fn law_idle_means_nothing_to_do<B, V, P, A>(state: State<B, V, P, A>)
    requires
        state.execution_task is None,
    ensures
        state.scheduled().1 is Idle <==> {
            &&& state.consensus_task() is None
            &&& state.pending_finalizations.len() == 0
            &&& !state.forkchoice_due()
            &&& !(state.convergence matches Some(walk) && walk.step is Probe)
        },
{
    let kept = state.overtaken_build_dropped();
    assert(kept.forkchoice_proposed() == state.forkchoice_proposed());
}

/// Finality goes ahead of the delivery of a build's parent: that delivery
/// starts only when no finalized block waits to be delivered, and none for its
/// acknowledgement.
pub proof fn law_finality_before_convergence<B, V, P, A>(
    state: State<B, V, P, A>,
    walk: PayloadWalk<B, V>,
)
    requires
        state.finality_kept(),
        state.scheduled().1 == Scheduled::<B, V, P, A>::Task(ExecutionTask::Deliver(walk)),
    ensures
        state.pending_finalizations.len() == 0,
        state.pending_acknowledgements.len() == 0,
{
    let kept = state.overtaken_build_dropped();
    if state.pending_acknowledgements.len() > 0 {
        law_waiting_block_makes_update_due(kept);
    }
}

/// After a long run of deliveries, no further block is delivered before the
/// forkchoice update that is due, except for a consensus request.
pub proof fn law_update_is_forced<B, V, P, A>(state: State<B, V, P, A>)
    requires
        state.execution_task is None,
        state.consensus_task() is None,
        state.forkchoice_due(),
        state.deliveries_since_forkchoice >= DELIVERIES_PER_FORKCHOICE_UPDATE,
    ensures
        match state.scheduled().1 {
            Scheduled::Task(ExecutionTask::Forkchoice { target }) => state.forkchoice_target(None)
                == Some(target),
            Scheduled::ReadCanonical(height) => state.canonical_wanted() == Some(height),
            _ => false,
        },
{
    let kept = state.overtaken_build_dropped();
    assert(kept.forkchoice_proposed() == state.forkchoice_proposed());
}

/// The deliveries since the last update are forgotten only when an update is on
/// its way.
#[verifier::spinoff_prover]
#[verifier::rlimit(60)]
pub proof fn law_deliveries_count_until_update<B, V, P, A>(
    state: State<B, V, P, A>,
    step: Move<B, V, P, A>,
)
    requires
        state.admits(step),
        state.deliveries_since_forkchoice < usize::MAX,
        state.moved(step).deliveries_since_forkchoice < state.deliveries_since_forkchoice,
    ensures
        state.moved(step).deliveries_since_forkchoice == 0,
        state.execution_task is None,
        state.moved(step).execution_task matches Some(task) && task.task_type is Forkchoice,
{
}

/// A build runs only on its parent: the parent is the pending head, and the
/// head of the execution layer. The update that carries it changes nothing.
pub proof fn law_build_waits_for_parent<B, V, P, A>(
    state: State<B, V, P, A>,
    target: LocalState,
    build: Build<P>,
)
    requires
        state.scheduled().1 == Scheduled::<B, V, P, A>::Task(
            ExecutionTask::Build { target, build },
        ),
    ensures
        build.context.parent.1 == state.pending_head.digest,
        build.context.parent.1 == state.local_state.head.1,
        target == state.local_state,
{
}

/// The forkchoice update that was read for is the one that then starts: where
/// the scheduler asks for a canonical block, an update is due whatever the
/// answer.
pub proof fn law_read_leads_to_update<B, V, P, A>(
    state: State<B, V, P, A>,
    height: Height,
    canonical: Option<Digest>,
)
    requires
        state.scheduled().1 == Scheduled::<B, V, P, A>::ReadCanonical(height),
    ensures
        state.scheduled().0.execution_task is None,
        state.scheduled().0.forkchoice_target(canonical) is Some,
        height == state.delivered_finalized.0,
{
}

/// A heartbeat re-affirms the tracked forkchoice, and only when there is
/// nothing to do: no consensus request can run, no finalized block waits to be
/// delivered, no forkchoice update is due, and no build's parent is to be
/// delivered.
pub proof fn law_heartbeat_changes_nothing<B, V, P, A>(
    state: State<B, V, P, A>,
    target: LocalState,
)
    requires
        state.heartbeat_scheduled().1 == Scheduled::<B, V, P, A>::Task(
            ExecutionTask::Heartbeat { target },
        ),
    ensures
        target == state.local_state,
        state.execution_task is None,
        state.consensus_task() is None,
        state.pending_finalizations.len() == 0,
        !state.forkchoice_due(),
        !(state.convergence matches Some(walk) && walk.step is Probe),
{
    let elapsed = State { fcu_heartbeat_timer: Background::Idle, ..state };
    assert(elapsed.forkchoice_proposed() == state.forkchoice_proposed());
    law_idle_means_nothing_to_do(elapsed);
}

/// What is fatal: a finalized block that is not answered `VALID`, and a
/// forkchoice update that is submitted and not answered `VALID`, or that cannot
/// be submitted; and a finalized block that was delivered again, at or below
/// the tracked finality, and is not the execution layer's canonical block at
/// its height. No answer to a verification is, nor one to the delivery of a
/// build's parent.
pub proof fn law_what_is_fatal<B, V, P, A>(
    state: State<B, V, P, A>,
    outcome: ExecutionTaskOutcome<B, V, P, A>,
    action: Result<Action<B, V, P, A>, Error>,
    canonical: Option<Digest>,
)
    requires
        state.follows_answer(outcome, action),
    ensures
        action is Err <==> match outcome {
            ExecutionTaskOutcome::Validated { .. } => false,
            ExecutionTaskOutcome::FinalizedDelivered { status, .. } => !(status matches Ok(
                PayloadStatus::Valid,
            )),
            ExecutionTaskOutcome::Forkchoice { response, .. } => match response {
                None => false,
                Some(Err(_)) => true,
                Some(Ok(updated)) => !(updated.payload_status is Valid),
            },
        },
        action matches Ok(Action::Confirm(_)) <==> (outcome matches
            ExecutionTaskOutcome::FinalizedDelivered { request, status: Ok(PayloadStatus::Valid) }
            && request.block.height <= state.local_state.finalized.0),
        action matches Ok(Action::Confirm(request)) ==> {
            &&& outcome matches ExecutionTaskOutcome::FinalizedDelivered { request: delivered, .. }
            &&& request == delivered
            &&& state.answered(outcome).confirmation(request, canonical) is Err <==> canonical
                != Some(request.block.digest)
        },
{
}

/// The executor starts from the lower of the finalized floor and the execution
/// layer's own finality, and the floor is not above the network's finalized
/// tip.
pub proof fn law_start_point(
    config: Config,
    execution_finalized: (Height, Digest),
    canonical: Option<Digest>,
)
    requires
        config.start(execution_finalized, canonical) is Ok,
    ensures
        ({
            let start = config.start(execution_finalized, canonical)->Ok_0;
            &&& config.finalized_floor <= config.finalized_tip.1
            &&& start.0 == if config.finalized_floor < execution_finalized.0 {
                config.finalized_floor
            } else {
                execution_finalized.0
            }
            &&& start.0 <= config.finalized_floor
        }),
{
}

} // verus!
