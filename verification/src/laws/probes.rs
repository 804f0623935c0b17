//! How walks begin and move, and what each answer to a probe does.

use crate::background::Background;
use crate::chain::{height_below, Block, Digest, Height, Nanos, NANOS_MAX};
use crate::engine::PayloadStatus;
use crate::error::Error;
use crate::state::{PendingHead, State, CONVERGENCE_RETRY_INTERVAL};
use crate::task::{probe_outcome, ExecutionTaskOutcome, ProbeEvent};
use crate::walk::{after_fetch, PayloadRequest, PayloadWalk, WalkStep};
use std::sync::Arc;
use vstd::prelude::*;

verus! {

/// The height below a height is one less, and the lowest height is below
/// itself.
pub proof fn law_height_below(height: Height)
    ensures
        height > 0 ==> height_below(height) + 1 == height,
        height == 0 ==> height_below(height) == 0,
{
}

/// A walk begins at the block of its request, with the request as it is, and no
/// time spent.
pub proof fn law_walk_begins<B, V>(request: PayloadRequest<B, V>)
    ensures
        ({
            let walk = PayloadWalk::begun(request);
            &&& walk.request == request
            &&& walk.cursor == request.block
            &&& walk.step is Probe
            &&& walk.duration == 0
            &&& !walk.reprobed
        }),
{
}

/// The walk towards a build's parent begins at that parent. Nobody waits for its
/// verdict, no validator set goes with it, and the round of the block below
/// comes from the block's own context.
pub proof fn law_convergence_begins<B, V>(block: Arc<Block<B>>)
    ensures
        ({
            let walk = PayloadWalk::<B, V>::converging(block);
            &&& walk.request.block == block
            &&& walk.cursor == block
            &&& walk.request.response is None
            &&& walk.request.validator_set is None
            &&& walk.request.parent_round.epoch == block.context.round.epoch
            &&& walk.request.parent_round.view == block.context.parent.0
            &&& walk.step is Probe
            &&& walk.duration == 0
            &&& !walk.reprobed
        }),
{
}

/// A walk is at its candidate where the cursor has the candidate's digest. What
/// lies below the cursor is the cursor's parent: at the candidate under the
/// round that its request gives, further down under the round that the cursor's
/// own context gives. The validator set goes with the candidate alone.
pub proof fn law_walk_cursor<B, V>(walk: PayloadWalk<B, V>)
    ensures
        walk.at_candidate() <==> walk.cursor.digest == walk.request.block.digest,
        ({
            let (round, digest) = walk.cursor_parent();
            &&& digest == walk.cursor.parent_digest
            &&& walk.at_candidate() ==> round == walk.request.parent_round
            &&& !walk.at_candidate() ==> round.epoch == walk.cursor.context.round.epoch
                && round.view == walk.cursor.context.parent.0
        }),
        walk.at_candidate() ==> walk.set_delivered() == walk.request.validator_set,
        !walk.at_candidate() ==> walk.set_delivered() is None,
{
}

/// A walk that goes back, or begins anew, is at its candidate, is to be probed,
/// and keeps its request and the time it took. It is told apart whether an
/// answer led back.
pub proof fn law_walk_goes_back<B, V>(walk: PayloadWalk<B, V>)
    ensures
        walk.back_at_candidate().cursor == walk.request.block,
        walk.back_at_candidate().request == walk.request,
        walk.back_at_candidate().duration == walk.duration,
        walk.back_at_candidate().step is Probe,
        walk.back_at_candidate().reprobed,
        walk.begun_anew().cursor == walk.request.block,
        walk.begun_anew().request == walk.request,
        walk.begun_anew().duration == walk.duration,
        walk.begun_anew().step is Probe,
        !walk.begun_anew().reprobed,
{
}

/// A fetched ancestor continues the walk exactly where it is the block asked for
/// and stands just below the cursor; any other ends the walk. Without a block
/// the walk waits on, and a block that comes without a walk begins none. Time,
/// request and mark stay.
pub proof fn law_fetched_ancestor<B, V>(
    walk: PayloadWalk<B, V>,
    digest: Digest,
    block: Arc<Block<B>>,
)
    ensures
        after_fetch(Some(walk), digest, None) == Some(walk),
        after_fetch(None::<PayloadWalk<B, V>>, digest, Some(block)) is None,
        after_fetch(None::<PayloadWalk<B, V>>, digest, None) is None,
        ({
            let next = after_fetch(Some(walk), digest, Some(block));
            &&& next is Some <==> block.digest == digest && walk.cursor.height == block.height + 1
            &&& next matches Some(next) ==> {
                &&& next.cursor == block
                &&& next.step is Probe
                &&& next.request == walk.request
                &&& next.duration == walk.duration
                &&& next.reprobed == walk.reprobed
            }
        }),
{
}

/// Whether `next` goes on in the place of `walk`: a verification always does,
/// the walk towards a build's parent as long as that parent is the pending head.
/// The other walk is left alone.
pub open spec fn goes_on<B, V, P, A>(
    before: State<B, V, P, A>,
    after: State<B, V, P, A>,
    walk: PayloadWalk<B, V>,
    next: PayloadWalk<B, V>,
) -> bool {
    if walk.request.response is Some {
        after.verification == Some(next) && after.convergence == before.convergence
    } else if walk.request.block.digest == before.pending_head.digest {
        after.convergence == Some(next) && after.verification == before.verification
    } else {
        after.convergence == before.convergence && after.verification == before.verification
    }
}

/// Whether the walk that was probed has ended, and the walks that are kept are
/// left alone.
pub open spec fn has_ended<B, V, P, A>(
    before: State<B, V, P, A>,
    after: State<B, V, P, A>,
) -> bool {
    after.convergence == before.convergence && after.verification == before.verification
}

/// Every answer to a probe counts as one delivery, whatever it says, and also
/// where the subscriber went away. Beyond the count, an answer touches the
/// walks, the blocks known, and the height of the pending head, and nothing
/// else.
pub proof fn law_every_probe_counts<B, V, P, A>(
    state: State<B, V, P, A>,
    request: Option<PayloadWalk<B, V>>,
    status: Result<(PayloadStatus, Nanos), String>,
)
    requires
        state.deliveries_since_forkchoice < usize::MAX,
    ensures
        ({
            let next = state.validated(request, status);
            &&& next.deliveries_since_forkchoice == state.deliveries_since_forkchoice + 1
            &&& next == (State {
                deliveries_since_forkchoice: next.deliveries_since_forkchoice,
                verification: next.verification,
                convergence: next.convergence,
                convergence_retry: next.convergence_retry,
                known_blocks: next.known_blocks,
                pending_head: next.pending_head,
                ..state
            })
            &&& next.pending_head == (PendingHead {
                height: next.pending_head.height,
                ..state.pending_head
            })
            &&& request is None ==> next == (State {
                deliveries_since_forkchoice: next.deliveries_since_forkchoice,
                ..state
            })
        }),
{
}

/// `VALID` proves the block and its parent executed. Those of the two that stand
/// above the finalized tip are remembered with their heights, and the one that
/// is the pending head tells that head's height; all other blocks that are known
/// stay so. An ancestor's answer leads back to the candidate with the time
/// added; the candidate's own ends the walk.
pub proof fn law_valid_probe<B, V, P, A>(
    state: State<B, V, P, A>,
    walk: PayloadWalk<B, V>,
    time: Nanos,
    digest: Digest,
)
    requires
        walk.duration + time <= NANOS_MAX,
    ensures
        ({
            let next = state.validated(Some(walk), Ok((PayloadStatus::Valid, time)));
            let block = walk.cursor;
            let tip = state.network_finalized_tip.1;
            let itself = digest == block.digest && block.height > tip;
            let parent = digest == block.parent_digest && block.height > tip + 1;
            &&& next.known_blocks.contains_key(digest) <==> itself || parent
                || state.known_blocks.contains_key(digest)
            &&& itself && !parent ==> next.known_blocks[digest] == block.height
            &&& parent ==> next.known_blocks[digest] == block.height - 1
            &&& !itself && !parent && state.known_blocks.contains_key(digest)
                ==> next.known_blocks[digest] == state.known_blocks[digest]
            &&& state.pending_head.digest == block.parent_digest ==> next.pending_head.height
                == Some(height_below(block.height))
            &&& state.pending_head.digest == block.digest && block.digest != block.parent_digest
                ==> next.pending_head.height == Some(block.height)
            &&& state.pending_head.digest != block.digest && state.pending_head.digest
                != block.parent_digest ==> next.pending_head == state.pending_head
            &&& next.convergence_retry == state.convergence_retry
            &&& walk.at_candidate() ==> has_ended(state, next)
            &&& !walk.at_candidate() ==> goes_on(
                state,
                next,
                walk,
                PayloadWalk {
                    cursor: walk.request.block,
                    step: WalkStep::Probe,
                    duration: (walk.duration + time) as u128,
                    reprobed: true,
                    ..walk
                },
            )
        }),
{
}

/// `INVALID` proves nothing executed. An ancestor's answer leads back to the
/// candidate with the time added; the candidate's own ends a verification, and
/// lets the walk towards a build's parent rest for the long interval.
pub proof fn law_invalid_probe<B, V, P, A>(
    state: State<B, V, P, A>,
    walk: PayloadWalk<B, V>,
    reason: String,
    time: Nanos,
)
    requires
        walk.duration + time <= NANOS_MAX,
    ensures
        ({
            let status = PayloadStatus::Invalid { validation_error: reason };
            let next = state.validated(Some(walk), Ok((status, time)));
            let pauses = walk.at_candidate() && walk.request.response is None
                && walk.request.block.digest == state.pending_head.digest;
            &&& next.known_blocks == state.known_blocks
            &&& next.pending_head == state.pending_head
            &&& !walk.at_candidate() ==> goes_on(
                state,
                next,
                walk,
                PayloadWalk {
                    cursor: walk.request.block,
                    step: WalkStep::Probe,
                    duration: (walk.duration + time) as u128,
                    reprobed: true,
                    ..walk
                },
            )
            &&& walk.at_candidate() && !pauses ==> has_ended(state, next)
            &&& pauses ==> next.verification == state.verification && next.convergence == Some(
                PayloadWalk {
                    step: WalkStep::Retry,
                    duration: (walk.duration + time) as u128,
                    ..walk
                },
            )
            &&& next.convergence_retry == if pauses {
                Background::Ordered(CONVERGENCE_RETRY_INTERVAL)
            } else {
                state.convergence_retry
            }
        }),
{
}

/// `SYNCING` takes back what was known of the block and its parent. The walk
/// asks for the parent, with the time added; if its candidate was probed again
/// already, it rests instead.
pub proof fn law_syncing_probe<B, V, P, A>(
    state: State<B, V, P, A>,
    walk: PayloadWalk<B, V>,
    time: Nanos,
    digest: Digest,
)
    requires
        walk.duration + time <= NANOS_MAX,
    ensures
        ({
            let next = state.validated(Some(walk), Ok((PayloadStatus::Syncing, time)));
            let taken_back = digest == walk.cursor.digest || digest == walk.cursor.parent_digest;
            &&& next.known_blocks.contains_key(digest) <==> !taken_back
                && state.known_blocks.contains_key(digest)
            &&& next.known_blocks.contains_key(digest) ==> next.known_blocks[digest]
                == state.known_blocks[digest]
            &&& next.pending_head == state.pending_head
            &&& next.convergence_retry == state.convergence_retry
            &&& goes_on(
                state,
                next,
                walk,
                PayloadWalk {
                    step: if walk.reprobed {
                        WalkStep::Retry
                    } else {
                        WalkStep::Parent
                    },
                    duration: (walk.duration + time) as u128,
                    ..walk
                },
            )
        }),
{
}

/// A delivery that failed, or was `ACCEPTED` without being executed, proves
/// nothing. It ends a verification, and lets the walk towards a build's parent
/// rest where it is, for the long interval, as long as that parent is the
/// pending head.
pub proof fn law_unexecuted_probe<B, V, P, A>(
    state: State<B, V, P, A>,
    walk: PayloadWalk<B, V>,
    status: Result<(PayloadStatus, Nanos), String>,
)
    requires
        status matches Ok((answer, time)) ==> answer is Accepted && walk.duration + time
            <= NANOS_MAX,
    ensures
        ({
            let next = state.validated(Some(walk), status);
            let pauses = walk.request.response is None && walk.request.block.digest
                == state.pending_head.digest;
            let spent = match status {
                Ok((_, time)) => (walk.duration + time) as u128,
                Err(_) => walk.duration,
            };
            &&& next.known_blocks == state.known_blocks
            &&& next.pending_head == state.pending_head
            &&& !pauses ==> has_ended(state, next)
            &&& pauses ==> next.verification == state.verification && next.convergence == Some(
                PayloadWalk { step: WalkStep::Retry, duration: spent, ..walk },
            )
            &&& next.convergence_retry == if pauses {
                Background::Ordered(CONVERGENCE_RETRY_INTERVAL)
            } else {
                state.convergence_retry
            }
        }),
{
}

/// What the subscriber learns of a probe. A failed delivery and an `ACCEPTED`
/// answer are failures, each of its own. The candidate's `VALID` answers with
/// the time of all calls, its `INVALID` without one, both to the subscriber of
/// the request; everything else answers nothing.
pub proof fn law_verdicts<B, V, P, A>(
    walk: PayloadWalk<B, V>,
    status: Result<(PayloadStatus, Nanos), String>,
)
    requires
        status matches Ok((_, time)) ==> walk.duration + time <= NANOS_MAX,
    ensures
        State::<B, V, P, A>::verdict(None, status) matches Ok(None),
        ({
            let answer = State::<B, V, P, A>::verdict(Some(walk), status);
            match status {
                Err(cause) => answer matches Err(Error::DeliveryFailed { cause: told }) && told
                    == cause,
                Ok((PayloadStatus::Accepted, _)) => answer matches Err(
                    Error::AcceptedWithoutExecution,
                ),
                Ok((PayloadStatus::Syncing, _)) => answer matches Ok(None),
                Ok((status, time)) => {
                    let resolves = walk.at_candidate() && walk.request.response is Some;
                    &&& !resolves ==> (answer matches Ok(None))
                    &&& resolves ==> {
                        &&& answer matches Ok(Some(reply))
                        &&& reply.response == walk.request.response->0
                        &&& status is Valid ==> reply.verdict is Some && reply.verdict->0
                            == walk.duration + time
                        &&& status is Invalid ==> reply.verdict is None
                    }
                },
            }
        }),
{
}

/// A probe that is answered hands its walk back with the answer; one whose
/// subscriber went away hands nothing back.
pub proof fn law_probe_outcome<B, V, P, A>(
    walk: PayloadWalk<B, V>,
    status: Result<(PayloadStatus, Nanos), String>,
    outcome: ExecutionTaskOutcome<B, V, P, A>,
)
    ensures
        probe_outcome(walk, ProbeEvent::Answered(status), outcome) ==> (outcome matches
            ExecutionTaskOutcome::Validated { request: Some(back), status: answer } && back == walk
            && answer == status),
        probe_outcome(walk, ProbeEvent::SubscriberGone, outcome) ==> (outcome matches
            ExecutionTaskOutcome::Validated { request: None, status: Err(_) }),
{
}

} // verus!
