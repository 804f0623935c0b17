//! What goes before what.

use crate::background::Background;
use crate::chain::{Digest, Height, Nanos, Round};
use crate::engine::LocalState;
use crate::state::{Scheduled, State, DELIVERIES_PER_FORKCHOICE_UPDATE};
use crate::task::{Build, ConsensusRequest, ExecutionTask, ExecutionTaskType, InFlightTask};
use crate::walk::{PayloadRequest, PayloadWalk};
use vstd::prelude::*;

verus! {

impl<B, V, P, A> State<B, V, P, A> {
    /// Whether the verification that has begun is to be probed.
    pub open spec fn verification_ready(self) -> bool {
        self.verification matches Some(walk) && walk.step is Probe
    }

    /// Whether a verification waits in the slot, and none has begun.
    pub open spec fn verification_can_begin(self) -> bool {
        &&& self.verification is None
        &&& self.pending_consensus_request matches Some((_, ConsensusRequest::Verify(_)))
    }

    /// Whether a build waits in the slot whose parent is selected and is the
    /// head.
    pub open spec fn build_can_begin(self) -> bool {
        &&& self.pending_consensus_request matches Some((_, ConsensusRequest::Build(build)))
        &&& build.context.parent.1 == self.pending_head.digest
        &&& build.context.parent.1 == self.local_state.head.1
    }

    /// Whether no consensus request can run.
    pub open spec fn no_request_can_run(self) -> bool {
        &&& !self.verification_ready()
        &&& !self.verification_can_begin()
        &&& !self.build_can_begin()
    }

    /// Whether a build waits in the slot whose parent is not selected any more.
    pub open spec fn build_is_overtaken(self) -> bool {
        &&& self.pending_consensus_request matches Some((_, ConsensusRequest::Build(build)))
        &&& build.context.parent.1 != self.pending_head.digest
    }
}

/// Whether the update that is due has been scheduled: it is on its way, and the
/// count of deliveries begins anew; or the canonical block that it depends on is
/// to be read first, and nothing has changed yet.
pub open spec fn update_scheduled<B, V, P, A>(state: State<B, V, P, A>) -> bool {
    let (next, scheduled) = state.scheduled();
    match state.canonical_wanted() {
        Some(height) => {
            &&& scheduled == Scheduled::<B, V, P, A>::ReadCanonical(height)
            &&& next.execution_task is None
            &&& next.deliveries_since_forkchoice == state.deliveries_since_forkchoice
        },
        None => {
            &&& scheduled matches Scheduled::Task(ExecutionTask::Forkchoice { target })
            &&& state.forkchoice_target(None) == Some(target)
            &&& next.execution_task == Some(
                InFlightTask { task_type: ExecutionTaskType::Forkchoice, target: Some(target) },
            )
            &&& next.deliveries_since_forkchoice == 0
        },
    }
}

/// A verification that has begun goes on before anything else, with the very
/// walk that was kept.
pub proof fn law_begun_verification_goes_first<B, V, P, A>(
    state: State<B, V, P, A>,
    walk: PayloadWalk<B, V>,
)
    requires
        state.execution_task is None,
        state.verification == Some(walk),
        walk.step is Probe,
    ensures
        state.scheduled().1 == Scheduled::<B, V, P, A>::Task(ExecutionTask::Verify(walk)),
        state.scheduled().0 == (State {
            verification: None,
            execution_task: Some(
                InFlightTask { task_type: ExecutionTaskType::Verify, target: None },
            ),
            ..state
        }),
{
}

/// A verification that waits in the slot begins at once where none has begun,
/// whatever else waits: it probes its own block first, with the request as it
/// came.
pub proof fn law_waiting_verification_begins<B, V, P, A>(
    state: State<B, V, P, A>,
    round: Round,
    request: PayloadRequest<B, V>,
)
    requires
        state.execution_task is None,
        state.verification is None,
        state.pending_consensus_request == Some(
            (round, ConsensusRequest::<B, V, P>::Verify(request)),
        ),
    ensures
        state.scheduled().1 matches Scheduled::Task(ExecutionTask::Verify(walk)) && {
            &&& walk.request == request
            &&& walk.cursor == request.block
            &&& walk.step is Probe
            &&& walk.duration == 0
            &&& !walk.reprobed
        },
        state.scheduled().0 == (State {
            pending_consensus_request: None,
            execution_task: Some(
                InFlightTask { task_type: ExecutionTaskType::Verify, target: None },
            ),
            ..state
        }),
{
}

/// A build that waits in the slot begins at once where its parent is selected
/// and is the head, and no verification is to be probed, whatever else waits:
/// it re-affirms the tracked forkchoice and carries the build as it came.
pub proof fn law_waiting_build_begins<B, V, P, A>(
    state: State<B, V, P, A>,
    round: Round,
    build: Build<P>,
)
    requires
        state.execution_task is None,
        !state.verification_ready(),
        state.pending_consensus_request == Some(
            (round, ConsensusRequest::<B, V, P>::Build(build)),
        ),
        build.context.parent.1 == state.pending_head.digest,
        build.context.parent.1 == state.local_state.head.1,
    ensures
        state.scheduled().1 == Scheduled::<B, V, P, A>::Task(
            ExecutionTask::Build { target: state.local_state, build },
        ),
        state.scheduled().0 == (State {
            pending_consensus_request: None,
            execution_task: Some(
                InFlightTask {
                    task_type: ExecutionTaskType::Build,
                    target: Some(state.local_state),
                },
            ),
            ..state
        }),
{
}

/// A request leaves the slot only by being started, or where it is a build whose
/// parent is not selected any more and no verification is to be probed. A
/// verification that waits while another one has begun stays, and so does a
/// build that waits for its parent to be the head.
pub proof fn law_requests_stay_queued<B, V, P, A>(state: State<B, V, P, A>)
    ensures
        ({
            let (next, scheduled) = state.scheduled();
            let before = state.pending_consensus_request;
            let after = next.pending_consensus_request;
            &&& after == before || after is None
            &&& after != before ==> {
                ||| before matches Some((_, ConsensusRequest::Verify(request))) && (
                scheduled matches Scheduled::Task(ExecutionTask::Verify(walk)) && walk.request
                    == request)
                ||| before matches Some((_, ConsensusRequest::Build(build))) && (
                scheduled matches Scheduled::Task(
                    ExecutionTask::Build { build: started, .. },
                ) && started == build)
                ||| state.build_is_overtaken()
            }
            &&& state.execution_task is None && !state.verification_ready()
                && state.build_is_overtaken() ==> after is None
        }),
{
}

/// Where no consensus request can run, a long run of deliveries forces the
/// update that is due before anything else.
pub proof fn law_forced_update_goes_first<B, V, P, A>(state: State<B, V, P, A>)
    requires
        state.execution_task is None,
        state.no_request_can_run(),
        state.deliveries_since_forkchoice >= DELIVERIES_PER_FORKCHOICE_UPDATE,
        state.forkchoice_target(None) is Some,
    ensures
        update_scheduled(state),
{
    let kept = state.overtaken_build_dropped();
    assert(kept.forkchoice_proposed() == state.forkchoice_proposed());
}

/// Where no consensus request can run and no update is forced, the finalized
/// block that has waited longest is delivered next, whatever else waits.
pub proof fn law_finalized_deliveries_go_next<B, V, P, A>(state: State<B, V, P, A>)
    requires
        state.execution_task is None,
        state.no_request_can_run(),
        state.deliveries_since_forkchoice < DELIVERIES_PER_FORKCHOICE_UPDATE
            || state.forkchoice_target(None) is None,
        state.pending_finalizations.len() > 0,
    ensures
        state.scheduled().1 == Scheduled::<B, V, P, A>::Task(
            ExecutionTask::Finalize(state.pending_finalizations[0]),
        ),
        state.scheduled().0.execution_task == Some(
            InFlightTask { task_type: ExecutionTaskType::Finalize, target: None },
        ),
        state.scheduled().0.pending_finalizations == state.pending_finalizations.drop_first(),
{
    let kept = state.overtaken_build_dropped();
    assert(kept.forkchoice_proposed() == state.forkchoice_proposed());
    assert(state.pending_finalizations.skip(1) =~= state.pending_finalizations.drop_first());
}

/// Where no consensus request can run and no finalized block is to be delivered,
/// the update that is due goes next if delivered blocks wait for it.
pub proof fn law_finalizing_update_goes_next<B, V, P, A>(state: State<B, V, P, A>)
    requires
        state.execution_task is None,
        state.no_request_can_run(),
        state.pending_finalizations.len() == 0,
        state.pending_acknowledgements.len() > 0,
        state.forkchoice_target(None) is Some,
    ensures
        update_scheduled(state),
{
    let kept = state.overtaken_build_dropped();
    assert(kept.forkchoice_proposed() == state.forkchoice_proposed());
}

/// Where no consensus request can run, no finalized block is to be delivered,
/// and no update is forced or waited for, the walk towards a build's parent goes
/// on, ahead of the update that moves the head.
pub proof fn law_convergence_goes_next<B, V, P, A>(
    state: State<B, V, P, A>,
    walk: PayloadWalk<B, V>,
)
    requires
        state.execution_task is None,
        state.no_request_can_run(),
        state.pending_finalizations.len() == 0,
        state.forkchoice_target(None) is None || (state.deliveries_since_forkchoice
            < DELIVERIES_PER_FORKCHOICE_UPDATE && state.pending_acknowledgements.len() == 0),
        state.convergence == Some(walk),
        walk.step is Probe,
    ensures
        state.scheduled().1 == Scheduled::<B, V, P, A>::Task(ExecutionTask::Deliver(walk)),
        state.scheduled().0.convergence is None,
        state.scheduled().0.execution_task == Some(
            InFlightTask { task_type: ExecutionTaskType::Deliver, target: None },
        ),
{
    let kept = state.overtaken_build_dropped();
    assert(kept.forkchoice_proposed() == state.forkchoice_proposed());
}

/// Where nothing else is to be done, the update that is due goes out; and where
/// none is due either, nothing does.
pub proof fn law_head_update_goes_last<B, V, P, A>(state: State<B, V, P, A>)
    requires
        state.execution_task is None,
        state.no_request_can_run(),
        state.pending_finalizations.len() == 0,
        !(state.convergence matches Some(walk) && walk.step is Probe),
    ensures
        state.forkchoice_target(None) is Some ==> update_scheduled(state),
        state.forkchoice_target(None) is None ==> state.scheduled().1 is Idle
            && state.scheduled().0.execution_task is None,
{
    let kept = state.overtaken_build_dropped();
    assert(kept.forkchoice_proposed() == state.forkchoice_proposed());
}

/// The scheduler touches the consensus slot, the queue of finalized blocks, the
/// walks, the count of deliveries, and the task in flight, and each of them only
/// for the task that it starts. With a task in flight it touches nothing.
pub proof fn law_scheduler_touches_little<B, V, P, A>(state: State<B, V, P, A>)
    ensures
        ({
            let (next, scheduled) = state.scheduled();
            &&& next == (State {
                pending_consensus_request: next.pending_consensus_request,
                pending_finalizations: next.pending_finalizations,
                verification: next.verification,
                convergence: next.convergence,
                deliveries_since_forkchoice: next.deliveries_since_forkchoice,
                execution_task: next.execution_task,
                ..state
            })
            &&& state.execution_task is Some ==> next == state && scheduled is Idle
            &&& !(scheduled matches Scheduled::Task(ExecutionTask::Finalize(_)))
                ==> next.pending_finalizations == state.pending_finalizations
            &&& !(scheduled matches Scheduled::Task(ExecutionTask::Verify(_)))
                ==> next.verification == state.verification
            &&& !(scheduled matches Scheduled::Task(ExecutionTask::Deliver(_)))
                ==> next.convergence == state.convergence
            &&& !(scheduled matches Scheduled::Task(ExecutionTask::Forkchoice { .. }))
                ==> next.deliveries_since_forkchoice == state.deliveries_since_forkchoice
            &&& next.execution_task is Some <==> state.execution_task is Some
                || scheduled is Task
        }),
{
}

/// A task in flight is remembered by its kind, and by its forkchoice where it
/// has one.
pub proof fn law_task_in_flight<B, V, P, A>(
    state: State<B, V, P, A>,
    task: ExecutionTask<B, V, P, A>,
)
    ensures
        state.busy_with(task) == (State {
            execution_task: state.busy_with(task).execution_task,
            ..state
        }),
        state.busy_with(task).execution_task matches Some(kept) && match task {
            ExecutionTask::Heartbeat { target } => kept.task_type is Heartbeat && kept.target
                == Some(target),
            ExecutionTask::Verify(_) => kept.task_type is Verify && kept.target is None,
            ExecutionTask::Build { target, .. } => kept.task_type is Build && kept.target == Some(
                target,
            ),
            ExecutionTask::Deliver(_) => kept.task_type is Deliver && kept.target is None,
            ExecutionTask::Finalize(_) => kept.task_type is Finalize && kept.target is None,
            ExecutionTask::Forkchoice { target } => kept.task_type is Forkchoice && kept.target
                == Some(target),
        },
{
}

/// The heartbeat timer runs exactly while no task is in flight and no finalized
/// block waits to be delivered, whatever request waits. It is started once, with
/// the interval, and is not started again while it runs. Nothing else changes.
pub proof fn law_heartbeat_timer_runs_while_idle<B, V, P, A>(state: State<B, V, P, A>)
    ensures
        ({
            let next = state.heartbeat_timer_updated();
            let idle = state.execution_task is None && state.pending_finalizations.len() == 0;
            &&& next.fcu_heartbeat_timer.wanted() is Some <==> idle
            &&& idle && state.fcu_heartbeat_timer is Idle ==> next.fcu_heartbeat_timer
                == Background::Ordered(state.fcu_heartbeat_interval)
            &&& idle && !(state.fcu_heartbeat_timer is Idle) ==> next.fcu_heartbeat_timer
                == state.fcu_heartbeat_timer
            &&& next == (State { fcu_heartbeat_timer: next.fcu_heartbeat_timer, ..state })
        }),
{
}

/// When the heartbeat timer goes off, the scheduler runs; and where it finds
/// nothing to do for an execution layer that is free, the tracked forkchoice is
/// re-affirmed. The timer has ended either way.
pub proof fn law_heartbeat_follows_scheduler<B, V, P, A>(state: State<B, V, P, A>)
    ensures
        ({
            let (next, scheduled) = state.heartbeat_scheduled();
            let elapsed = State { fcu_heartbeat_timer: Background::<Nanos>::Idle, ..state };
            let (otherwise, found) = elapsed.scheduled();
            &&& next.fcu_heartbeat_timer is Idle
            &&& state.execution_task is Some ==> next == elapsed && scheduled is Idle
            &&& !(found is Idle) ==> (next, scheduled) == (otherwise, found)
            &&& state.execution_task is None && found is Idle ==> {
                &&& scheduled == Scheduled::<B, V, P, A>::Task(
                    ExecutionTask::Heartbeat { target: state.local_state },
                )
                &&& next == (State {
                    execution_task: Some(
                        InFlightTask {
                            task_type: ExecutionTaskType::Heartbeat,
                            target: Some(state.local_state),
                        },
                    ),
                    ..otherwise
                })
            }
        }),
{
}

/// An update is started exactly where there is a next forkchoice, and for it.
/// It is remembered with its target, and the count of deliveries begins anew.
/// Nothing else changes; and nothing does where none is started.
pub proof fn law_started_update<B, V, P, A>(
    state: State<B, V, P, A>,
    canonical: Option<Digest>,
    target: LocalState,
)
    ensures
        ({
            let (next, started) = state.forkchoice_started(canonical);
            &&& state.forkchoice_target(canonical) is None ==> next == state && started is None
            &&& state.forkchoice_target(canonical) == Some(target) ==> {
                &&& started == Some(ExecutionTask::<B, V, P, A>::Forkchoice { target })
                &&& next == state.updating_forkchoice(target)
            }
        }),
        state.updating_forkchoice(target) == (State {
            deliveries_since_forkchoice: 0,
            execution_task: Some(
                InFlightTask { task_type: ExecutionTaskType::Forkchoice, target: Some(target) },
            ),
            ..state
        }),
{
}

/// During the backfill an update is scheduled after a block exactly where one is
/// due, and enough blocks were delivered or the block is the one at the floor.
pub proof fn law_backfill_update<B, V, P, A>(state: State<B, V, P, A>, height: Height)
    ensures
        ({
            let (next, scheduled) = state.backfill_scheduled(height);
            let wanted = (state.deliveries_since_forkchoice >= DELIVERIES_PER_FORKCHOICE_UPDATE
                || height == state.finalized_floor) && state.forkchoice_target(None) is Some;
            &&& scheduled is Idle <==> !wanted
            &&& scheduled is Idle ==> next == state
            &&& wanted && state.canonical_wanted() is Some ==> next == state && scheduled
                == Scheduled::<B, V, P, A>::ReadCanonical(state.delivered_finalized.0)
            &&& wanted && state.canonical_wanted() is None ==> (scheduled matches Scheduled::Task(
                ExecutionTask::Forkchoice { target },
            ) && state.forkchoice_target(None) == Some(target) && next
                == state.updating_forkchoice(target))
        }),
{
}

} // verus!
