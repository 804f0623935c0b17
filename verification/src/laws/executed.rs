//! Forkchoice updates name only executed blocks.

use crate::background::Background;
use crate::chain::{Digest, Height};
use crate::engine::LocalState;
use crate::laws::moves::Move;
use crate::run::Event;
use crate::startup::Config;
use crate::state::State;
use crate::task::ExecutionTaskOutcome;
use vstd::prelude::*;

verus! {

/// The blocks that the moves of a run prove executed.
pub open spec fn proven_by<B, V, P, A>(moves: Seq<Move<B, V, P, A>>) -> Set<Digest>
    decreases moves.len(),
{
    if moves.len() == 0 {
        set![]
    } else {
        proven_by(moves.drop_last()).union(moves.last().proven())
    }
}

/// Whether a forkchoice names only blocks of a set.
pub open spec fn forkchoice_names(forkchoice: LocalState, blocks: Set<Digest>) -> bool {
    blocks.contains(forkchoice.head.1) && blocks.contains(forkchoice.finalized.1)
}

impl<B, V, P, A> State<B, V, P, A> {
    /// Whether everything that a forkchoice can be made of is in a set of
    /// blocks: the tracked forkchoice, the last finalized block delivered, the
    /// blocks known, and the forkchoice in flight.
    pub open spec fn names_only(self, blocks: Set<Digest>) -> bool {
        &&& forkchoice_names(self.local_state, blocks)
        &&& blocks.contains(self.delivered_finalized.1)
        &&& forall|digest: Digest| #[trigger]
            self.known_blocks.contains_key(digest) ==> blocks.contains(digest)
        &&& self.execution_task matches Some(task) ==> (task.target matches Some(target)
            ==> forkchoice_names(target, blocks))
    }
}

/// A forkchoice update that is due names only blocks from which the state can
/// make one.
proof fn lemma_target_names<B, V, P, A>(
    state: State<B, V, P, A>,
    canonical: Option<Digest>,
    blocks: Set<Digest>,
)
    requires
        state.names_only(blocks),
    ensures
        forkchoice_names(state.forkchoice_proposed(), blocks),
        state.forkchoice_target(canonical) matches Some(target) ==> forkchoice_names(
            target,
            blocks,
        ),
{
}

/// What the scheduler starts names only blocks named before.
#[verifier::spinoff_prover]
#[verifier::rlimit(60)]
proof fn lemma_schedule_names<B, V, P, A>(state: State<B, V, P, A>, blocks: Set<Digest>)
    requires
        state.names_only(blocks),
    ensures
        state.scheduled().0.names_only(blocks),
        state.heartbeat_scheduled().0.names_only(blocks),
{
    let elapsed = State { fcu_heartbeat_timer: Background::Idle, ..state };
    lemma_target_names(state.overtaken_build_dropped(), None, blocks);
    lemma_target_names(elapsed.overtaken_build_dropped(), None, blocks);
}

/// An answer adds to what the state names only the blocks that it proves
/// executed.
#[verifier::spinoff_prover]
#[verifier::rlimit(60)]
proof fn lemma_answer_names<B, V, P, A>(
    state: State<B, V, P, A>,
    outcome: ExecutionTaskOutcome<B, V, P, A>,
    blocks: Set<Digest>,
)
    requires
        state.names_only(blocks),
        state.admits(Move::Meet(Event::Answer(outcome))),
    ensures
        state.answered(outcome).names_only(
            blocks.union(Move::Meet(Event::Answer(outcome)).proven()),
        ),
{
}

/// What a state names within some blocks, it names within more.
proof fn lemma_names_within_more<B, V, P, A>(
    state: State<B, V, P, A>,
    blocks: Set<Digest>,
    more: Set<Digest>,
)
    requires
        state.names_only(blocks),
    ensures
        state.names_only(blocks.union(more)),
{
}

/// A move that is no answer names only blocks named before.
#[verifier::spinoff_prover]
#[verifier::rlimit(60)]
proof fn lemma_other_move_names<B, V, P, A>(
    state: State<B, V, P, A>,
    step: Move<B, V, P, A>,
    blocks: Set<Digest>,
)
    requires
        state.names_only(blocks),
        state.admits(step),
        step.answer() is None,
    ensures
        state.moved(step).names_only(blocks),
{
    match step {
        Move::Schedule => {
            lemma_schedule_names(state, blocks);
        },
        Move::Meet(Event::Heartbeat) => {
            lemma_schedule_names(state, blocks);
        },
        Move::StartForkchoice { canonical } => {
            lemma_target_names(state, canonical, blocks);
        },
        Move::BackfillForkchoice { .. } => {
            lemma_target_names(state, None, blocks);
        },
        _ => {},
    }
}

/// A move keeps what the state names within the blocks named before and those
/// that the move proves executed.
proof fn lemma_move_names<B, V, P, A>(
    state: State<B, V, P, A>,
    step: Move<B, V, P, A>,
    blocks: Set<Digest>,
)
    requires
        state.names_only(blocks),
        state.admits(step),
    ensures
        state.moved(step).names_only(blocks.union(step.proven())),
{
    match step.answer() {
        Some(outcome) => {
            lemma_answer_names(state, outcome, blocks);
        },
        None => {
            lemma_other_move_names(state, step, blocks);
            lemma_names_within_more(state.moved(step), blocks, step.proven());
        },
    }
}

/// Forkchoice updates only ever name blocks that are executed: those that were
/// at the start, and those that a `VALID` answer for the block or its child
/// proved executed since. This covers the update in flight and the tracked
/// forkchoice.
pub proof fn law_forkchoice_names_executed_blocks<B, V, P, A>(
    start: State<B, V, P, A>,
    moves: Seq<Move<B, V, P, A>>,
    executed: Set<Digest>,
)
    requires
        start.names_only(executed),
        start.admits_run(moves),
    ensures
        start.run(moves).names_only(executed.union(proven_by(moves))),
    decreases moves.len(),
{
    if moves.len() == 0 {
        assert(executed.union(proven_by(moves)) =~= executed);
    } else {
        let rest = moves.drop_last();
        law_forkchoice_names_executed_blocks(start, rest, executed);
        lemma_move_names(
            start.run(rest),
            moves.last(),
            executed.union(proven_by(rest)),
        );
        assert(executed.union(proven_by(rest)).union(moves.last().proven()) =~= executed.union(
            proven_by(moves),
        ));
    }
}

/// At the start, everything that a forkchoice can be made of is the finalized
/// point that the executor starts from.
pub proof fn law_start_names_finalized_point<B, V, P, A>(
    config: Config,
    finalized: (Height, Digest),
)
    ensures
        State::<B, V, P, A>::started(config, finalized).names_only(set![finalized.1]),
{
}

} // verus!
