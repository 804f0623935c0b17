//! The climb from the tracked finality to the finalized floor.

use crate::chain::{Digest, Height};
use crate::engine::{ForkchoiceUpdated, PayloadStatus};
use crate::error::ForkchoiceFailure;
use crate::laws::finality::law_finalized_prefix;
use crate::laws::moves::Move;
use crate::run::Event;
use crate::startup::Config;
use crate::state::{finalized_prefix, Scheduled, State, DELIVERIES_PER_FORKCHOICE_UPDATE};
use crate::task::{ExecutionTaskOutcome, FinalizedBlockRequest};
use vstd::prelude::*;

verus! {

/// One step of the climb: a block, which is delivered and is `VALID`, and what
/// the execution layer says where an update follows.
pub struct BackfillStep<B, A> {
    pub request: FinalizedBlockRequest<B, A>,
    /// Its canonical block at the height, where that is asked for.
    pub canonical: Option<Digest>,
    /// Its answer to the update; none where the update is stale.
    pub response: Option<Result<ForkchoiceUpdated, ForkchoiceFailure>>,
}

impl<B, V, P, A> State<B, V, P, A> {
    /// The heights that the backfill goes through after `last`, or from the
    /// beginning.
    pub open spec fn backfill_heights(self, last: Option<Height>) -> Seq<Height>
        decreases
            self.finalized_floor - (match last {
                Some(height) => height,
                None => self.local_state.finalized.0,
            }),
    {
        match self.backfill_height(last) {
            Some(height) => seq![height] + self.backfill_heights(Some(height)),
            None => Seq::empty(),
        }
    }

    /// The state once the block of a step was delivered.
    pub open spec fn backfill_delivered(self, request: FinalizedBlockRequest<B, A>) -> State<
        B,
        V,
        P,
        A,
    > {
        self.moved(Move::Backfill(request)).moved(
            Move::Meet(
                Event::Answer(
                    ExecutionTaskOutcome::FinalizedDelivered {
                        request,
                        status: Ok(PayloadStatus::Valid),
                    },
                ),
            ),
        )
    }

    /// Whether an update follows the delivery of a step's block.
    #[verifier::opaque]
    pub open spec fn backfill_updates(self, request: FinalizedBlockRequest<B, A>) -> bool {
        !(self.backfill_delivered(request).backfill_scheduled(request.block.height).1 is Idle)
    }

    /// The state after one step of the climb.
    #[verifier::opaque]
    pub open spec fn backfill_step(self, step: BackfillStep<B, A>) -> State<B, V, P, A> {
        let height = step.request.block.height;
        let delivered = self.backfill_delivered(step.request);
        let scheduled = delivered.moved(Move::BackfillForkchoice { height });
        let updating = match delivered.backfill_scheduled(height).1 {
            Scheduled::ReadCanonical(_) => scheduled.moved(
                Move::StartForkchoice { canonical: step.canonical },
            ),
            _ => scheduled,
        };
        match updating.execution_task {
            Some(task) => match task.target {
                Some(target) => updating.moved(
                    Move::Meet(
                        Event::Answer(
                            ExecutionTaskOutcome::Forkchoice {
                                target,
                                build: None,
                                response: step.response,
                            },
                        ),
                    ),
                ),
                None => updating,
            },
            None => updating,
        }
    }

    /// The state after the steps of a climb.
    pub open spec fn backfilled(self, steps: Seq<BackfillStep<B, A>>) -> State<B, V, P, A>
        decreases steps.len(),
    {
        if steps.len() == 0 {
            self
        } else {
            self.backfilled(steps.drop_last()).backfill_step(steps.last())
        }
    }

    /// Whether steps are the beginning of a climb: their blocks stand at the
    /// heights to backfill, in order, and no update fails.
    pub open spec fn climbs(self, steps: Seq<BackfillStep<B, A>>) -> bool {
        &&& steps.len() <= self.backfill_heights(None).len()
        &&& forall|i: int|
            0 <= i < steps.len() ==> (#[trigger] steps[i]).request.block.height
                == self.backfill_heights(None)[i] && Self::forkchoice_failure(
                steps[i].response,
            ) is None
    }

    /// Whether the climb can begin: nothing is in flight and nothing waits.
    pub open spec fn ready_to_climb(self) -> bool {
        &&& self.execution_task is None
        &&& self.delivered_finalized.0 == self.local_state.finalized.0
        &&& self.pending_acknowledgements.len() == 0
        &&& self.deliveries_since_forkchoice == 0
    }
}

/// The backfill begins just above the tracked finality and goes on just above
/// the last height, as long as that does not take it above the floor.
pub proof fn law_next_backfill_height<B, V, P, A>(
    state: State<B, V, P, A>,
    last: Option<Height>,
    reached: Height,
)
    requires
        last matches Some(height) ==> height == reached,
        last is None ==> state.local_state.finalized.0 == reached,
    ensures
        ({
            let next = state.backfill_height(last);
            &&& reached < state.finalized_floor ==> next is Some && next->0 == reached + 1
            &&& reached >= state.finalized_floor ==> next is None
        }),
{
}

/// The heights to backfill after `last` ascend one by one to the floor.
proof fn lemma_heights<B, V, P, A>(state: State<B, V, P, A>, last: Height)
    requires
        last <= state.finalized_floor,
    ensures
        ({
            let heights = state.backfill_heights(Some(last));
            &&& heights.len() == state.finalized_floor - last
            &&& forall|i: int| 0 <= i < heights.len() ==> #[trigger] heights[i] == last + 1 + i
        }),
    decreases state.finalized_floor - last,
{
    if last < state.finalized_floor {
        let next = (last + 1) as u64;
        lemma_heights(state, next);
        let heights = state.backfill_heights(Some(last));
        let rest = state.backfill_heights(Some(next));
        assert(heights == seq![next] + rest);
        assert forall|i: int| 0 <= i < heights.len() implies #[trigger] heights[i] == last + 1
            + i by {
            if i > 0 {
                assert(heights[i] == rest[i - 1]);
            }
        }
    }
}

/// The backfill goes through each height from just above the tracked finality
/// to the floor, once each and ascending. Where the tracked finality is at the
/// floor or above it, it goes through none.
pub proof fn law_backfill_heights<B, V, P, A>(state: State<B, V, P, A>)
    ensures
        ({
            let heights = state.backfill_heights(None);
            let start = state.local_state.finalized.0;
            &&& heights.len() == if start < state.finalized_floor {
                state.finalized_floor - start
            } else {
                0
            }
            &&& forall|i: int| 0 <= i < heights.len() ==> #[trigger] heights[i] == start + 1 + i
        }),
{
    let start = state.local_state.finalized.0;
    if start < state.finalized_floor {
        lemma_heights(state, start);
        assert(state.backfill_heights(None) == state.backfill_heights(Some(start)));
    }
}

/// The climb can begin at the start.
pub proof fn law_start_is_ready_to_climb<B, V, P, A>(
    config: Config,
    finalized: (Height, Digest),
)
    ensures
        State::<B, V, P, A>::started(config, finalized).ready_to_climb(),
{
}

/// How many blocks wait for an update after so many steps of a climb.
pub open spec fn waiting_after(taken: int, total: int) -> int {
    if taken == total {
        0
    } else {
        taken % (DELIVERIES_PER_FORKCHOICE_UPDATE as int)
    }
}

/// One step of the climb, after some blocks were delivered since the last
/// update.
#[verifier::spinoff_prover]
#[verifier::rlimit(60)]
proof fn lemma_backfill_step<B, V, P, A>(
    state: State<B, V, P, A>,
    step: BackfillStep<B, A>,
    waiting: int,
)
    requires
        state.execution_task is None,
        0 <= waiting < DELIVERIES_PER_FORKCHOICE_UPDATE,
        state.deliveries_since_forkchoice == waiting,
        state.pending_acknowledgements.len() == waiting,
        state.local_state.finalized.0 == state.delivered_finalized.0 - waiting,
        forall|i: int|
            0 <= i < state.pending_acknowledgements.len() ==> (
            #[trigger] state.pending_acknowledgements[i]).block.height
                <= state.delivered_finalized.0,
        step.request.block.height == state.delivered_finalized.0 + 1,
        State::<B, V, P, A>::forkchoice_failure(step.response) is None,
    ensures
        ({
            let next = state.backfill_step(step);
            let block = step.request.block;
            let updates = waiting + 1 == DELIVERIES_PER_FORKCHOICE_UPDATE || block.height
                == state.finalized_floor;
            let left = if updates {
                0
            } else {
                waiting + 1
            };
            &&& state.backfill_updates(step.request) == updates
            &&& next.finalized_floor == state.finalized_floor
            &&& next.execution_task is None
            &&& next.delivered_finalized == (block.height, block.digest)
            &&& next.deliveries_since_forkchoice == left
            &&& next.pending_acknowledgements.len() == left
            &&& next.local_state.finalized.0 == block.height - left
            &&& updates ==> next.local_state.finalized == (block.height, block.digest)
            &&& forall|i: int|
                0 <= i < next.pending_acknowledgements.len() ==> (
                #[trigger] next.pending_acknowledgements[i]).block.height <= block.height
        }),
{
    reveal(State::backfill_updates);
    reveal(State::backfill_step);
    let block = step.request.block;
    let delivered = state.backfill_delivered(step.request);
    let queue = delivered.pending_acknowledgements;
    assert(queue == state.pending_acknowledgements.push(step.request));
    assert(delivered.delivered_finalized == (block.height, block.digest));
    assert(delivered.forkchoice_due());
    assert forall|i: int| 0 <= i < queue.len() implies (#[trigger] queue[i]).block.height
        <= block.height by {
        if i < waiting {
            assert(queue[i] == state.pending_acknowledgements[i]);
        }
    }
    law_finalized_prefix(queue, block.height);
    assert(finalized_prefix(queue, block.height) == queue.len()) by {
        let front = finalized_prefix(queue, block.height) as int;
        if front < queue.len() {
            assert(queue[front].block.height <= block.height);
        }
    }
    assert(queue.skip(queue.len() as int).len() == 0);
}

/// The climb to the finalized floor. Each block is delivered at the next
/// height; an update follows after every eighth delivery, and at the floor, and
/// at no other; it finalizes all that was delivered. In between, the blocks
/// since the last update wait for the next. At the floor nothing waits any
/// more, nothing is in flight, and the block at the floor is finalized.
pub proof fn law_backfill_climbs_to_floor<B, V, P, A>(
    state: State<B, V, P, A>,
    steps: Seq<BackfillStep<B, A>>,
)
    requires
        state.ready_to_climb(),
        state.climbs(steps),
    ensures
        ({
            let end = state.backfilled(steps);
            let start = state.local_state.finalized.0;
            let taken = steps.len() as int;
            let total = state.backfill_heights(None).len() as int;
            let waiting = waiting_after(taken, total);
            &&& end.finalized_floor == state.finalized_floor
            &&& end.execution_task is None
            &&& end.delivered_finalized.0 == start + taken
            &&& end.local_state.finalized.0 == start + taken - waiting
            &&& end.pending_acknowledgements.len() == waiting
            &&& end.deliveries_since_forkchoice == waiting
            &&& forall|i: int|
                0 <= i < waiting ==> (#[trigger] end.pending_acknowledgements[i]).block.height
                    <= start + taken
            &&& taken > 0 ==> {
                let before = state.backfilled(steps.drop_last());
                let last = steps.last().request;
                &&& end.delivered_finalized == (last.block.height, last.block.digest)
                &&& before.backfill_updates(last) <==> taken
                    % (DELIVERIES_PER_FORKCHOICE_UPDATE as int) == 0 || taken == total
                &&& before.backfill_updates(last) ==> end.local_state.finalized == (
                    last.block.height,
                    last.block.digest,
                )
                &&& taken == total ==> last.block.height == state.finalized_floor
            }
        }),
    decreases steps.len(),
{
    law_backfill_heights(state);
    if steps.len() > 0 {
        let rest = steps.drop_last();
        assert(state.climbs(rest)) by {
            assert forall|i: int| 0 <= i < rest.len() implies (
            #[trigger] rest[i]).request.block.height == state.backfill_heights(None)[i]
                && State::<B, V, P, A>::forkchoice_failure(rest[i].response) is None by {
                assert(rest[i] == steps[i]);
            }
        }
        law_backfill_climbs_to_floor(state, rest);
        let taken = steps.len() as int;
        let total = state.backfill_heights(None).len() as int;
        assert(steps.last() == steps[taken - 1]);
        lemma_backfill_step(
            state.backfilled(rest),
            steps.last(),
            waiting_after(taken - 1, total),
        );
    }
}

} // verus!
