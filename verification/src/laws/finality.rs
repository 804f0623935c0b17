//! The order of finality.

use crate::background::Background;
use crate::chain::{Digest, Height};
use crate::engine::{submission, LocalState};
use crate::laws::moves::Move;
use crate::mailbox::Message;
use crate::run::Event;
use crate::startup::Config;
use crate::state::{finalized_prefix, State};
use crate::task::{ExecutionTaskOutcome, FinalizedBlockRequest};
use vstd::prelude::*;

verus! {

/// Whether a queue of finalized blocks is in height order.
pub open spec fn in_height_order<B, A>(queue: Seq<FinalizedBlockRequest<B, A>>) -> bool {
    forall|i: int, j: int|
        0 <= i <= j < queue.len() ==> (#[trigger] queue[i]).block.height <= (
        #[trigger] queue[j]).block.height
}

impl<B, V, P, A> State<B, V, P, A> {
    /// Where finality stands. The finalized block is never above the head, in
    /// the tracked forkchoice and in the one in flight. The tracked finality
    /// is behind what was delivered, and a forkchoice in flight lies between
    /// the two. The blocks that wait for their acknowledgement were delivered,
    /// and the first of them is above the tracked finality.
    pub open spec fn finality_kept(self) -> bool {
        &&& self.local_state.finalized.0 <= self.local_state.head.0
        &&& self.local_state.finalized.0 <= self.delivered_finalized.0
        &&& self.execution_task matches Some(task) ==> (task.target matches Some(target) ==> {
            &&& target.finalized.0 <= target.head.0
            &&& self.local_state.finalized.0 <= target.finalized.0 <= self.delivered_finalized.0
        })
        &&& forall|i: int|
            0 <= i < self.pending_acknowledgements.len() ==> (
            #[trigger] self.pending_acknowledgements[i]).block.height
                <= self.delivered_finalized.0
        &&& self.pending_acknowledgements.len() > 0 ==> self.local_state.finalized.0
            < self.pending_acknowledgements[0].block.height
    }

    /// Whether finalized blocks come as they should: they are delivered in
    /// height order, none above the network's finalized tip, whose height does
    /// not decrease.
    pub open spec fn trusts(self, step: Move<B, V, P, A>) -> bool {
        match step {
            Move::Meet(Event::Answer(ExecutionTaskOutcome::FinalizedDelivered { request, .. })) => {
                self.delivered_finalized.0 <= request.block.height <= self.network_finalized_tip.1
            },
            Move::Meet(Event::Message(Message::Tip { round, height, .. })) => round.after(
                self.network_finalized_tip.0,
            ) ==> self.network_finalized_tip.1 <= height,
            _ => true,
        }
    }

    /// Whether finalized blocks come as they should in all moves of a run.
    pub open spec fn trusts_run(self, moves: Seq<Move<B, V, P, A>>) -> bool
        decreases moves.len(),
    {
        moves.len() > 0 ==> self.trusts_run(moves.drop_last()) && self.run(
            moves.drop_last(),
        ).trusts(moves.last())
    }

    /// What follows where finalized blocks come as they should: the blocks
    /// that wait for their acknowledgement are in height order, and what was
    /// delivered, and so the tracked finality, is not ahead of the network's.
    pub open spec fn finality_ordered(self) -> bool {
        &&& self.finality_kept()
        &&& in_height_order(self.pending_acknowledgements)
        &&& self.delivered_finalized.0 <= self.network_finalized_tip.1
    }
}

/// How the front of a queue is told apart: all of it stands at or below
/// `height`, and the next block, if there is one, above. In a queue in height
/// order, so do all the blocks after it.
pub proof fn law_finalized_prefix<B, A>(queue: Seq<FinalizedBlockRequest<B, A>>, height: Height)
    ensures
        finalized_prefix(queue, height) <= queue.len(),
        forall|i: int|
            0 <= i < finalized_prefix(queue, height) ==> (#[trigger] queue[i]).block.height
                <= height,
        finalized_prefix(queue, height) < queue.len() ==> queue[finalized_prefix(
            queue,
            height,
        ) as int].block.height > height,
        in_height_order(queue) ==> forall|i: int|
            finalized_prefix(queue, height) <= i < queue.len() ==> (
            #[trigger] queue[i]).block.height > height,
    decreases queue.len(),
{
    if queue.len() > 0 && queue[0].block.height <= height {
        let rest = queue.skip(1);
        law_finalized_prefix(rest, height);
        assert forall|i: int| 0 <= i < finalized_prefix(queue, height) implies (
        #[trigger] queue[i]).block.height <= height by {
            if i > 0 {
                assert(rest[i - 1] == queue[i]);
            }
        }
    }
    let front = finalized_prefix(queue, height) as int;
    if in_height_order(queue) && front < queue.len() {
        assert forall|i: int| front <= i < queue.len() implies (#[trigger] queue[i]).block.height
            > height by {
            assert(queue[front].block.height <= queue[i].block.height);
        }
    }
}

/// The next forkchoice finalizes the last finalized block delivered, and does
/// not finalize above its head.
pub(crate) proof fn lemma_target_kept<B, V, P, A>(
    state: State<B, V, P, A>,
    canonical: Option<Digest>,
)
    requires
        state.finality_kept(),
    ensures
        ({
            let proposed = state.forkchoice_proposed();
            &&& proposed.finalized.0 <= proposed.head.0
            &&& proposed.finalized.0 == state.delivered_finalized.0
        }),
        state.forkchoice_target(canonical) matches Some(target) ==> {
            &&& target.finalized.0 <= target.head.0
            &&& target.finalized.0 == state.delivered_finalized.0
        },
{
}

/// The scheduler keeps finality, and leaves the tracked forkchoice alone.
#[verifier::spinoff_prover]
#[verifier::rlimit(60)]
proof fn lemma_schedule_kept<B, V, P, A>(state: State<B, V, P, A>)
    requires
        state.finality_kept(),
    ensures
        ({
            let next = state.scheduled().0;
            &&& next.finality_kept()
            &&& next.local_state == state.local_state
            &&& next.delivered_finalized == state.delivered_finalized
            &&& next.pending_acknowledgements == state.pending_acknowledgements
            &&& next.network_finalized_tip == state.network_finalized_tip
        }),
        ({
            let next = state.heartbeat_scheduled().0;
            &&& next.finality_kept()
            &&& next.local_state == state.local_state
            &&& next.delivered_finalized == state.delivered_finalized
            &&& next.pending_acknowledgements == state.pending_acknowledgements
            &&& next.network_finalized_tip == state.network_finalized_tip
        }),
{
    let elapsed = State { fcu_heartbeat_timer: Background::Idle, ..state };
    lemma_target_kept(state.overtaken_build_dropped(), None);
    lemma_target_kept(elapsed.overtaken_build_dropped(), None);
}

/// An accepted forkchoice update keeps finality, and the order of what waits.
#[verifier::spinoff_prover]
#[verifier::rlimit(60)]
proof fn lemma_forkchoice_kept<B, V, P, A>(state: State<B, V, P, A>, target: LocalState)
    requires
        state.finality_kept(),
        state.execution_task is None,
        target.finalized.0 <= target.head.0,
        state.local_state.finalized.0 <= target.finalized.0 <= state.delivered_finalized.0,
    ensures
        state.forkchoice_accepted(target).finality_kept(),
        in_height_order(state.pending_acknowledgements) ==> in_height_order(
            state.forkchoice_accepted(target).pending_acknowledgements,
        ),
{
    let queue = state.pending_acknowledgements;
    law_finalized_prefix(queue, target.finalized.0);
    let front = finalized_prefix(queue, target.finalized.0) as int;
    let rest = queue.skip(front);
    assert forall|i: int| 0 <= i < rest.len() implies (#[trigger] rest[i]).block.height
        <= state.delivered_finalized.0 by {
        assert(rest[i] == queue[front + i]);
    }
    if in_height_order(queue) {
        assert forall|i: int, j: int| 0 <= i <= j < rest.len() implies (
        #[trigger] rest[i]).block.height <= (#[trigger] rest[j]).block.height by {
            assert(queue[front + i].block.height <= queue[front + j].block.height);
        }
    }
}

/// An answer keeps finality, and moves the tracked one forwards if at all.
#[verifier::spinoff_prover]
#[verifier::rlimit(60)]
proof fn lemma_answer_kept<B, V, P, A>(
    state: State<B, V, P, A>,
    outcome: ExecutionTaskOutcome<B, V, P, A>,
)
    requires
        state.finality_kept(),
        state.admits(Move::Meet(Event::Answer(outcome))),
    ensures
        state.answered(outcome).finality_kept(),
        state.local_state.finalized.0 <= state.answered(outcome).local_state.finalized.0,
{
    match outcome {
        ExecutionTaskOutcome::Forkchoice { target, .. } => {
            lemma_forkchoice_kept(state.task_finished(), target);
        },
        _ => {},
    }
}

/// A move keeps finality, and moves the tracked one forwards if at all.
#[verifier::spinoff_prover]
#[verifier::rlimit(60)]
proof fn lemma_move_kept<B, V, P, A>(state: State<B, V, P, A>, step: Move<B, V, P, A>)
    requires
        state.finality_kept(),
        state.admits(step),
    ensures
        state.moved(step).finality_kept(),
        state.local_state.finalized.0 <= state.moved(step).local_state.finalized.0,
{
    match step {
        Move::Schedule => {
            lemma_schedule_kept(state);
        },
        Move::Meet(Event::Heartbeat) => {
            lemma_schedule_kept(state);
        },
        Move::StartForkchoice { canonical } => {
            lemma_target_kept(state, canonical);
        },
        Move::BackfillForkchoice { .. } => {
            lemma_target_kept(state, None);
        },
        Move::Meet(Event::Answer(outcome)) => {
            lemma_answer_kept(state, outcome);
        },
        _ => {},
    }
}

/// Throughout a run, the finalized block is never above the head, neither in
/// the tracked forkchoice nor in the one in flight, and the tracked finality is
/// not ahead of what was delivered.
pub proof fn law_finalized_never_above_head<B, V, P, A>(
    start: State<B, V, P, A>,
    moves: Seq<Move<B, V, P, A>>,
)
    requires
        start.finality_kept(),
        start.admits_run(moves),
    ensures
        ({
            let end = start.run(moves);
            &&& end.local_state.finalized.0 <= end.local_state.head.0
            &&& end.finality_kept()
        }),
    decreases moves.len(),
{
    if moves.len() > 0 {
        let rest = moves.drop_last();
        law_finalized_never_above_head(start, rest);
        lemma_move_kept(start.run(rest), moves.last());
    }
}

/// The tracked finality never moves backwards.
pub proof fn law_finality_is_monotonic<B, V, P, A>(
    start: State<B, V, P, A>,
    moves: Seq<Move<B, V, P, A>>,
)
    requires
        start.finality_kept(),
        start.admits_run(moves),
    ensures
        start.local_state.finalized.0 <= start.run(moves).local_state.finalized.0,
    decreases moves.len(),
{
    if moves.len() > 0 {
        let rest = moves.drop_last();
        law_finality_is_monotonic(start, rest);
        law_finalized_never_above_head(start, rest);
        lemma_move_kept(start.run(rest), moves.last());
    }
}

/// An answer keeps the order of finality.
#[verifier::spinoff_prover]
#[verifier::rlimit(60)]
proof fn lemma_answer_ordered<B, V, P, A>(
    state: State<B, V, P, A>,
    outcome: ExecutionTaskOutcome<B, V, P, A>,
)
    requires
        state.finality_ordered(),
        state.admits(Move::Meet(Event::Answer(outcome))),
        state.trusts(Move::Meet(Event::Answer(outcome))),
    ensures
        state.answered(outcome).finality_ordered(),
{
    lemma_answer_kept(state, outcome);
    match outcome {
        ExecutionTaskOutcome::Forkchoice { target, .. } => {
            lemma_forkchoice_kept(state.task_finished(), target);
        },
        _ => {},
    }
}

/// A move keeps the order of finality.
#[verifier::spinoff_prover]
#[verifier::rlimit(60)]
proof fn lemma_move_ordered<B, V, P, A>(state: State<B, V, P, A>, step: Move<B, V, P, A>)
    requires
        state.finality_ordered(),
        state.admits(step),
        state.trusts(step),
    ensures
        state.moved(step).finality_ordered(),
{
    lemma_move_kept(state, step);
    match step {
        Move::Schedule => {
            lemma_schedule_kept(state);
        },
        Move::Meet(Event::Heartbeat) => {
            lemma_schedule_kept(state);
        },
        Move::Meet(Event::Answer(outcome)) => {
            lemma_answer_ordered(state, outcome);
        },
        _ => {},
    }
}

/// The tracked forkchoice changes only by an answer to a forkchoice update: one
/// that was accepted, or was stale and not submitted, becomes the tracked
/// forkchoice. Nothing else touches it.
#[verifier::spinoff_prover]
#[verifier::rlimit(60)]
pub proof fn law_only_accepted_updates_are_tracked<B, V, P, A>(
    state: State<B, V, P, A>,
    step: Move<B, V, P, A>,
)
    ensures
        state.moved(step).local_state == (match step {
            Move::Meet(
                Event::Answer(ExecutionTaskOutcome::Forkchoice { target, response, .. }),
            ) => if State::<B, V, P, A>::forkchoice_failure(response) is None {
                target
            } else {
                state.local_state
            },
            _ => state.local_state,
        }),
{
}

/// Where finalized blocks come as they should, the order of finality holds
/// throughout a run.
pub proof fn law_finality_stays_ordered<B, V, P, A>(
    start: State<B, V, P, A>,
    moves: Seq<Move<B, V, P, A>>,
)
    requires
        start.finality_ordered(),
        start.admits_run(moves),
        start.trusts_run(moves),
    ensures
        start.run(moves).finality_ordered(),
    decreases moves.len(),
{
    if moves.len() > 0 {
        let rest = moves.drop_last();
        law_finality_stays_ordered(start, rest);
        lemma_move_ordered(start.run(rest), moves.last());
    }
}

/// The order of finality holds at the start.
pub proof fn law_start_is_ordered<B, V, P, A>(
    config: Config,
    execution_finalized: (Height, Digest),
    canonical: Option<Digest>,
)
    requires
        config.start(execution_finalized, canonical) is Ok,
    ensures
        State::<B, V, P, A>::started(
            config,
            config.start(execution_finalized, canonical)->Ok_0,
        ).finality_ordered(),
{
}

/// No update that is submitted moves the execution layer's finality backwards:
/// what it finalizes is above the execution layer's finalized height, or is the
/// very block finalized there.
pub proof fn law_submission_keeps_finality(
    target: LocalState,
    execution_finalized: Height,
    canonical: Result<Option<Digest>, String>,
)
    requires
        submission(target, execution_finalized, canonical) is Send,
    ensures
        execution_finalized <= target.finalized.0,
        execution_finalized == target.finalized.0 ==> canonical == Ok::<Option<Digest>, String>(
            Some(target.finalized.1),
        ),
{
}

/// An update is passed over only where it would move the execution layer's
/// finality backwards, and never where the execution layer has finalized
/// another block.
pub proof fn law_only_stale_updates_are_skipped(
    target: LocalState,
    execution_finalized: Height,
    canonical: Result<Option<Digest>, String>,
)
    ensures
        submission(target, execution_finalized, canonical) is Skip <==> {
            &&& target.finalized.0 < execution_finalized
            &&& canonical == Ok::<Option<Digest>, String>(Some(target.finalized.1))
        },
{
}

} // verus!
