//! What the execution layer is given to do next.

use crate::actor::Actor;
use crate::background::Background;
use crate::chain::{Digest, Height};
use crate::engine::LocalState;
use crate::state::{Scheduled, State, DELIVERIES_PER_FORKCHOICE_UPDATE};
use crate::task::{ConsensusRequest, ExecutionTask};
use crate::walk::{PayloadWalk, WalkStep};
use vstd::prelude::*;

verus! {

impl<B, V, P, A> Actor<B, V, P, A> {
    /// The next forkchoice as far as the state tells.
    fn proposed_forkchoice(&self) -> (proposed: LocalState)
        requires
            self.wf(),
        ensures
            proposed == self@.forkchoice_proposed(),
    {
        let target = self.local_state.update_finalized(
            self.delivered_finalized.0,
            self.delivered_finalized.1,
        );
        match self.known_height(self.pending_head.digest) {
            Some(height) => target.update_head(height, self.pending_head.digest),
            None => target,
        }
    }

    /// The height whose canonical block the next forkchoice depends on:
    /// finality advances beneath a head that stays, and that head must descend
    /// from the finalized block.
    pub fn canonical_read(&self) -> (height: Option<Height>)
        requires
            self.wf(),
        ensures
            height == self@.canonical_wanted(),
    {
        let target = self.proposed_forkchoice();
        let local = self.local_state;
        let finality_stays = target.finalized.0 == local.finalized.0 && target.finalized.1
            == local.finalized.1;
        let head_stays = target.head.0 == local.head.0 && target.head.1 == local.head.1;
        if !finality_stays && head_stays {
            Some(self.delivered_finalized.0)
        } else {
            None
        }
    }

    /// The next forkchoice, if it differs from the tracked one: the delivered
    /// finalized block, and the pending head once it is proven executed. Where
    /// finality advances beneath a head that stays, the head gives way to the
    /// finalized block unless it descends from it.
    ///
    /// `canonical` is the execution layer's canonical block at the height that
    /// [`Actor::canonical_read`] asks for; where it asks for none, it is not
    /// looked at.
    pub fn next_forkchoice_target(&self, canonical: Option<Digest>) -> (target: Option<LocalState>)
        requires
            self.wf(),
        ensures
            target == self@.forkchoice_target(canonical),
    {
        let (finalized_height, finalized_digest) = self.delivered_finalized;
        let mut target = self.proposed_forkchoice();
        if self.canonical_read().is_some() {
            let head_descends_from_finalized = match canonical {
                Some(digest) => digest == finalized_digest,
                None => false,
            };
            if !head_descends_from_finalized {
                target = target.update_head(finalized_height, finalized_digest);
            }
        }
        if target == self.local_state {
            None
        } else {
            Some(target)
        }
    }

    /// Starts the next forkchoice update, if one is due. The count of
    /// deliveries is cleared only once an update is on its way.
    pub fn start_forkchoice_update(&mut self, canonical: Option<Digest>) -> (started: Option<
        ExecutionTask<B, V, P, A>,
    >)
        requires
            old(self).wf(),
            old(self).execution_task is None,
        ensures
            final(self).wf(),
            (final(self)@, started) == old(self)@.forkchoice_started(canonical),
    {
        match self.next_forkchoice_target(canonical) {
            Some(target) => {
                self.deliveries_since_forkchoice = 0;
                let task = ExecutionTask::Forkchoice { target };
                self.set_execution_task(&task);
                Some(task)
            },
            None => None,
        }
    }

    /// Schedules the forkchoice update, if one is due.
    pub(crate) fn schedule_forkchoice_update(&mut self) -> (scheduled: Option<Scheduled<B, V, P, A>>)
        requires
            old(self).wf(),
            old(self).execution_task is None,
        ensures
            final(self).wf(),
            if old(self)@.forkchoice_due() {
                &&& scheduled == Some(old(self)@.forkchoice_scheduled().1)
                &&& final(self)@ == old(self)@.forkchoice_scheduled().0
            } else {
                scheduled is None && final(self)@ == old(self)@
            },
    {
        if let Some(height) = self.canonical_read() {
            return Some(Scheduled::ReadCanonical(height));
        }
        match self.start_forkchoice_update(None) {
            Some(task) => Some(Scheduled::Task(task)),
            None => None,
        }
    }

    /// Schedules the consensus request that can run now. A waiting build whose
    /// parent is not the pending head any more is dropped; one whose parent is
    /// the pending head waits until it is the head.
    fn schedule_consensus_request(&mut self) -> (task: Option<ExecutionTask<B, V, P, A>>)
        requires
            old(self).wf(),
            old(self).execution_task is None,
        ensures
            final(self).wf(),
            task == old(self)@.consensus_task(),
            match task {
                Some(task) => final(self)@ == old(self)@.consensus_task_started(task),
                None => final(self)@ == old(self)@.overtaken_build_dropped(),
            },
    {
        let ready = match &self.verification {
            Some(walk) => walk.step == WalkStep::Probe,
            None => false,
        };
        if ready {
            if let Some(walk) = self.verification.take() {
                let task = ExecutionTask::Verify(walk);
                self.set_execution_task(&task);
                return Some(task);
            }
        }
        match self.pending_consensus_request.take() {
            Some((round, ConsensusRequest::Verify(request))) => {
                if self.verification.is_none() {
                    let task = ExecutionTask::Verify(PayloadWalk::new(request));
                    self.set_execution_task(&task);
                    return Some(task);
                }
                self.pending_consensus_request = Some((round, ConsensusRequest::Verify(request)));
            },
            Some((round, ConsensusRequest::Build(build))) => {
                if build.context.parent.1 == self.pending_head.digest {
                    if self.local_state.head.1 == self.pending_head.digest {
                        let task = ExecutionTask::Build { target: self.local_state, build };
                        self.set_execution_task(&task);
                        return Some(task);
                    }
                    self.pending_consensus_request = Some((round, ConsensusRequest::Build(build)));
                }
            },
            None => {},
        }
        None
    }

    /// Picks the next task: a consensus request, the forkchoice update forced
    /// by a long run of deliveries, finalized deliveries, the forkchoice update
    /// that finalizes them, the delivery of a build's parent, the forkchoice
    /// update that moves the head. Finality goes first, so that a long run of
    /// notarized deliveries never holds up acknowledgements; deliveries go
    /// before the update, so that one update covers a whole run.
    pub fn start_next_execution_task(&mut self) -> (scheduled: Scheduled<B, V, P, A>)
        requires
            old(self).wf(),
        ensures
            final(self).wf(),
            (final(self)@, scheduled) == old(self)@.scheduled(),
    {
        if self.execution_task.is_some() {
            return Scheduled::Idle;
        }
        if let Some(task) = self.schedule_consensus_request() {
            return Scheduled::Task(task);
        }
        if self.deliveries_since_forkchoice >= DELIVERIES_PER_FORKCHOICE_UPDATE {
            if let Some(scheduled) = self.schedule_forkchoice_update() {
                return scheduled;
            }
        }
        let ghost waiting = self.pending_finalizations@;
        if let Some(request) = self.pending_finalizations.pop_front() {
            assert(self.pending_finalizations@ =~= waiting.skip(1));
            let task = ExecutionTask::Finalize(request);
            self.set_execution_task(&task);
            return Scheduled::Task(task);
        }
        if self.pending_acknowledgements.len() > 0 {
            if let Some(scheduled) = self.schedule_forkchoice_update() {
                return scheduled;
            }
        }
        let ready = match &self.convergence {
            Some(walk) => walk.step == WalkStep::Probe,
            None => false,
        };
        if ready {
            if let Some(walk) = self.convergence.take() {
                let task = ExecutionTask::Deliver(walk);
                self.set_execution_task(&task);
                return Scheduled::Task(task);
            }
        }
        match self.schedule_forkchoice_update() {
            Some(scheduled) => scheduled,
            None => Scheduled::Idle,
        }
    }

    /// Lets the heartbeat timer run while the execution layer has nothing to
    /// do, and only then.
    pub fn update_fcu_heartbeat_timer(&mut self)
        requires
            old(self).wf(),
        ensures
            final(self).wf(),
            final(self)@ == old(self)@.heartbeat_timer_updated(),
    {
        if self.execution_task.is_none() && self.pending_finalizations.len() == 0 {
            self.arm_fcu_heartbeat_timer();
        } else {
            self.disarm_fcu_heartbeat_timer();
        }
    }

    /// Starts the heartbeat timer, unless it is running.
    pub(crate) fn arm_fcu_heartbeat_timer(&mut self)
        requires
            old(self).wf(),
        ensures
            final(self).wf(),
            final(self)@ == (State {
                fcu_heartbeat_timer: if old(self).fcu_heartbeat_timer is Idle {
                    Background::Ordered(old(self).fcu_heartbeat_interval)
                } else {
                    old(self).fcu_heartbeat_timer
                },
                ..old(self)@
            }),
    {
        if self.fcu_heartbeat_timer.is_idle() {
            self.fcu_heartbeat_timer = Background::Ordered(self.fcu_heartbeat_interval);
        }
    }

    /// Stops the heartbeat timer.
    pub(crate) fn disarm_fcu_heartbeat_timer(&mut self)
        requires
            old(self).wf(),
        ensures
            final(self).wf(),
            final(self)@ == (State { fcu_heartbeat_timer: Background::Idle, ..old(self)@ }),
    {
        self.fcu_heartbeat_timer = Background::Idle;
    }

    /// Re-affirms the tracked forkchoice, unless the scheduler finds something
    /// else to do: a waiting build must not suppress the delivery of its
    /// parent.
    pub fn send_forkchoice_update_heartbeat(&mut self) -> (scheduled: Scheduled<B, V, P, A>)
        requires
            old(self).wf(),
        ensures
            final(self).wf(),
            (final(self)@, scheduled) == old(self)@.heartbeat_scheduled(),
    {
        self.fcu_heartbeat_timer = Background::Idle;
        if self.execution_task.is_some() {
            return Scheduled::Idle;
        }
        match self.start_next_execution_task() {
            Scheduled::Idle => {
                let task = ExecutionTask::Heartbeat { target: self.local_state };
                self.set_execution_task(&task);
                Scheduled::Task(task)
            },
            scheduled => scheduled,
        }
    }
}

} // verus!
