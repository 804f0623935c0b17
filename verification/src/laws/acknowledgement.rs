//! How finalized blocks come to be acknowledged.

use crate::chain::Digest;
use crate::engine::{LocalState, PayloadStatus};
use crate::laws::finality::{in_height_order, law_finalized_prefix, lemma_target_kept};
use crate::laws::moves::Move;
use crate::mailbox::Message;
use crate::run::Event;
use crate::state::{finalized_prefix, Scheduled, State};
use crate::task::{Acknowledgement, ExecutionTask, ExecutionTaskOutcome};
use vstd::prelude::*;

verus! {

/// Finalized blocks are acknowledged when the update that finalizes them is
/// accepted, and not before: of the blocks that wait, those at or below the
/// accepted finality are acknowledged, all of them and in order, and those
/// above go on waiting.
pub proof fn law_acknowledged_when_finalized<B, V, P, A>(
    state: State<B, V, P, A>,
    target: LocalState,
)
    requires
        in_height_order(state.pending_acknowledgements),
    ensures
        ({
            let accepted = State { local_state: target, ..state };
            let acknowledged = accepted.acknowledgements();
            let waiting = state.forkchoice_accepted(target).pending_acknowledgements;
            &&& acknowledged.map_values(
                |ack: Acknowledgement<B, A>| ack.request,
            ) + waiting == state.pending_acknowledgements
            &&& forall|i: int|
                0 <= i < acknowledged.len() ==> (#[trigger] acknowledged[i]).request.block.height
                    <= target.finalized.0
            &&& forall|i: int|
                0 <= i < waiting.len() ==> (#[trigger] waiting[i]).block.height
                    > target.finalized.0
        }),
{
    let queue = state.pending_acknowledgements;
    law_finalized_prefix(queue, target.finalized.0);
    let accepted = State { local_state: target, ..state };
    let acknowledged = accepted.acknowledgements();
    let waiting = state.forkchoice_accepted(target).pending_acknowledgements;
    assert(acknowledged.map_values(|ack: Acknowledgement<B, A>| ack.request) + waiting
        =~= queue);
}

/// One update covers all that was delivered: once it is accepted, no block that
/// was delivered before it was made goes on waiting.
pub proof fn law_one_update_covers_all_deliveries<B, V, P, A>(
    state: State<B, V, P, A>,
    canonical: Option<Digest>,
)
    requires
        state.finality_kept(),
        state.forkchoice_target(canonical) is Some,
    ensures
        ({
            let target = state.forkchoice_target(canonical)->0;
            &&& target.finalized.0 == state.delivered_finalized.0
            &&& state.updating_forkchoice(target).deliveries_since_forkchoice == 0
            &&& state.forkchoice_accepted(target).pending_acknowledgements.len() == 0
        }),
{
    lemma_target_kept(state, canonical);
    let target = state.forkchoice_target(canonical)->0;
    let queue = state.pending_acknowledgements;
    law_finalized_prefix(queue, target.finalized.0);
    let front = finalized_prefix(queue, target.finalized.0) as int;
    if front < queue.len() {
        assert(queue[front].block.height <= state.delivered_finalized.0);
    }
}

/// A block that waits for its acknowledgement makes a forkchoice update due.
pub proof fn law_waiting_block_makes_update_due<B, V, P, A>(state: State<B, V, P, A>)
    requires
        state.finality_kept(),
        state.pending_acknowledgements.len() > 0,
    ensures
        state.forkchoice_due(),
{
    assert(state.local_state.finalized.0 < state.pending_acknowledgements[0].block.height);
    lemma_target_kept(state, None);
}

/// No finalized block is lost on its way: it enters at the end of the queue of
/// blocks to deliver, leaves it at the front as the task that delivers it,
/// enters at the end of the queue of blocks that wait for their acknowledgement
/// unless it is final already, and leaves that queue by being acknowledged.
/// Nothing else touches the two queues.
#[verifier::spinoff_prover]
#[verifier::rlimit(60)]
pub proof fn law_no_finalized_block_is_lost<B, V, P, A>(
    state: State<B, V, P, A>,
    step: Move<B, V, P, A>,
)
    ensures
        ({
            let next = state.moved(step);
            let to_deliver = state.pending_finalizations;
            let waiting = state.pending_acknowledgements;
            match step {
                Move::Meet(Event::Message(Message::Finalized(request))) => {
                    &&& next.pending_finalizations == to_deliver.push(request)
                    &&& next.pending_acknowledgements == waiting
                },
                Move::Schedule => {
                    &&& match state.scheduled().1 {
                        Scheduled::Task(ExecutionTask::Finalize(request)) => seq![request]
                            + next.pending_finalizations == to_deliver,
                        _ => next.pending_finalizations == to_deliver,
                    }
                    &&& next.pending_acknowledgements == waiting
                },
                Move::Meet(Event::Heartbeat) => {
                    &&& match state.heartbeat_scheduled().1 {
                        Scheduled::Task(ExecutionTask::Finalize(request)) => seq![request]
                            + next.pending_finalizations == to_deliver,
                        _ => next.pending_finalizations == to_deliver,
                    }
                    &&& next.pending_acknowledgements == waiting
                },
                Move::Meet(
                    Event::Answer(
                        ExecutionTaskOutcome::FinalizedDelivered {
                            request,
                            status: Ok(PayloadStatus::Valid),
                        },
                    ),
                ) => {
                    &&& next.pending_finalizations == to_deliver
                    &&& next.pending_acknowledgements == if request.block.height
                        <= state.local_state.finalized.0 {
                        waiting
                    } else {
                        waiting.push(request)
                    }
                },
                Move::Meet(
                    Event::Answer(ExecutionTaskOutcome::Forkchoice { target, response, .. }),
                ) => {
                    &&& next.pending_finalizations == to_deliver
                    &&& if State::<B, V, P, A>::forkchoice_failure(response) is None {
                        let accepted = State { local_state: target, ..state };
                        accepted.acknowledgements().map_values(
                            |ack: Acknowledgement<B, A>| ack.request,
                        ) + next.pending_acknowledgements == waiting
                    } else {
                        next.pending_acknowledgements == waiting
                    }
                },
                _ => {
                    &&& next.pending_finalizations == to_deliver
                    &&& next.pending_acknowledgements == waiting
                },
            }
        }),
{
    let to_deliver = state.pending_finalizations;
    let waiting = state.pending_acknowledgements;
    if to_deliver.len() > 0 {
        assert(seq![to_deliver[0]] + to_deliver.skip(1) =~= to_deliver);
    }
    if let Move::Meet(Event::Answer(ExecutionTaskOutcome::Forkchoice { target, response, .. })) =
        step {
        law_finalized_prefix(waiting, target.finalized.0);
        let accepted = State { local_state: target, ..state };
        assert(accepted.acknowledgements().map_values(|ack: Acknowledgement<B, A>| ack.request)
            + accepted.acknowledged().pending_acknowledgements =~= waiting);
    }
}

} // verus!
