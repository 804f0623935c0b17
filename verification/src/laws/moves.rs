//! Runs of the executor, move by move.

use crate::chain::{Digest, Height};
use crate::engine::PayloadStatus;
use crate::run::Event;
use crate::state::State;
use crate::task::{ExecutionTask, ExecutionTaskOutcome, FinalizedBlockRequest};
use vstd::prelude::*;

verus! {

/// One thing that happens to the executor: a part of an iteration, or an
/// event.
pub enum Move<B, V, P, A> {
    Prune,
    PrepareWalks { subscriber_gone: bool },
    UpdateFetches,
    BeginFetches,
    BeginTimers,
    Schedule,
    StartForkchoice { canonical: Option<Digest> },
    UpdateHeartbeatTimer,
    Meet(Event<B, V, P, A>),
    Backfill(FinalizedBlockRequest<B, A>),
    BackfillForkchoice { height: Height },
}

impl<B, V, P, A> Move<B, V, P, A> {
    /// The answer that a move brings, if it brings one.
    pub open spec fn answer(self) -> Option<ExecutionTaskOutcome<B, V, P, A>> {
        match self {
            Move::Meet(Event::Answer(outcome)) => Some(outcome),
            _ => None,
        }
    }

    /// The blocks that a move proves executed: a `VALID` answer names a block
    /// and, where the block came with its walk, the block's parent.
    pub open spec fn proven(self) -> Set<Digest> {
        match self.answer() {
            Some(ExecutionTaskOutcome::Validated {
                request: Some(walk),
                status: Ok((PayloadStatus::Valid, _)),
            }) => set![walk.cursor.digest, walk.cursor.parent_digest],
            Some(ExecutionTaskOutcome::FinalizedDelivered {
                request,
                status: Ok(PayloadStatus::Valid),
            }) => set![request.block.digest],
            _ => set![],
        }
    }
}

impl<B, V, P, A> State<B, V, P, A> {
    /// The state after a move.
    pub open spec fn moved(self, step: Move<B, V, P, A>) -> State<B, V, P, A> {
        match step {
            Move::Prune => self.pruned(),
            Move::PrepareWalks { subscriber_gone } => self.walks_prepared(subscriber_gone),
            Move::UpdateFetches => self.fetches_updated(),
            Move::BeginFetches => State {
                pending_verification_block: self.pending_verification_block.begun(),
                pending_convergence_block: self.pending_convergence_block.begun(),
                ..self
            },
            Move::BeginTimers => State {
                verification_retry: self.verification_retry.begun(),
                convergence_retry: self.convergence_retry.begun(),
                fcu_heartbeat_timer: self.fcu_heartbeat_timer.begun(),
                ..self
            },
            Move::Schedule => self.scheduled().0,
            Move::StartForkchoice { canonical } => self.forkchoice_started(canonical).0,
            Move::UpdateHeartbeatTimer => self.heartbeat_timer_updated(),
            Move::Meet(event) => self.after(event),
            Move::Backfill(request) => self.busy_with(ExecutionTask::Finalize(request)),
            Move::BackfillForkchoice { height } => self.backfill_scheduled(height).0,
        }
    }

    /// Whether a move can happen: no task starts while one is in flight, an
    /// answer comes only while one is, about the forkchoice that the task was
    /// given, if any, and a walk that comes back has its cursor at its candidate
    /// or below it.
    pub open spec fn admits(self, step: Move<B, V, P, A>) -> bool {
        match step {
            Move::StartForkchoice { .. } => self.execution_task is None,
            Move::Backfill(_) => self.execution_task is None,
            Move::BackfillForkchoice { .. } => self.execution_task is None,
            Move::Meet(Event::Answer(outcome)) => {
                &&& self.execution_task is Some
                &&& self.execution_task->0.target == outcome.target_of()
                &&& outcome matches ExecutionTaskOutcome::Validated { request: Some(walk), .. }
                    ==> walk.wf()
            },
            _ => true,
        }
    }

    /// The state after the moves of a run.
    pub open spec fn run(self, moves: Seq<Move<B, V, P, A>>) -> State<B, V, P, A>
        decreases moves.len(),
    {
        if moves.len() == 0 {
            self
        } else {
            self.run(moves.drop_last()).moved(moves.last())
        }
    }

    /// Whether the moves of a run can happen, one after the other.
    pub open spec fn admits_run(self, moves: Seq<Move<B, V, P, A>>) -> bool
        decreases moves.len(),
    {
        moves.len() > 0 ==> self.admits_run(moves.drop_last()) && self.run(
            moves.drop_last(),
        ).admits(moves.last())
    }
}

} // verus!
