//! Verifications, and the delivery of a build's parent.

use crate::background::Background;
use crate::chain::{height_below, Block, Digest, Nanos};
use crate::engine::PayloadStatus;
use crate::laws::moves::Move;
use crate::mailbox::Message;
use crate::run::Event;
use crate::state::{PendingHead, Scheduled, State, CONVERGENCE_RETRY_INTERVAL};
use crate::task::{ConsensusRequest, ExecutionTask, ExecutionTaskOutcome, FinalizedBlockRequest};
use crate::walk::{after_fetch, PayloadWalk};
use std::sync::Arc;
use vstd::prelude::*;

verus! {

/// The scheduler keeps the walks apart.
#[verifier::spinoff_prover]
#[verifier::rlimit(60)]
proof fn lemma_schedule_wf<B, V, P, A>(state: State<B, V, P, A>)
    requires
        state.wf(),
    ensures
        state.scheduled().0.wf(),
        state.heartbeat_scheduled().0.wf(),
{
}

/// An answer keeps the walks apart.
#[verifier::spinoff_prover]
#[verifier::rlimit(60)]
proof fn lemma_answer_wf<B, V, P, A>(
    state: State<B, V, P, A>,
    outcome: ExecutionTaskOutcome<B, V, P, A>,
)
    requires
        state.wf(),
        outcome matches ExecutionTaskOutcome::Validated { request: Some(walk), .. } ==> walk.wf(),
    ensures
        state.answered(outcome).wf(),
{
}

/// A message keeps the walks apart.
#[verifier::spinoff_prover]
#[verifier::rlimit(60)]
proof fn lemma_message_wf<B, V, P, A>(
    state: State<B, V, P, A>,
    message: Message<B, V, P, A>,
)
    requires
        state.wf(),
    ensures
        state.messaged(message).wf(),
{
}

/// A move keeps the walks apart.
#[verifier::spinoff_prover]
#[verifier::rlimit(60)]
proof fn lemma_move_wf<B, V, P, A>(state: State<B, V, P, A>, step: Move<B, V, P, A>)
    requires
        state.wf(),
        state.admits(step),
    ensures
        state.moved(step).wf(),
{
    match step {
        Move::Schedule => {
            lemma_schedule_wf(state);
        },
        Move::Meet(Event::Heartbeat) => {
            lemma_schedule_wf(state);
        },
        Move::Meet(Event::Answer(outcome)) => {
            lemma_answer_wf(state, outcome);
        },
        Move::Meet(Event::Message(message)) => {
            lemma_message_wf(state, message);
        },
        _ => {},
    }
}

/// The two kinds of walks stay apart throughout a run, and every cursor is the
/// candidate or stands below it.
pub proof fn law_walks_stay_apart<B, V, P, A>(
    start: State<B, V, P, A>,
    moves: Seq<Move<B, V, P, A>>,
)
    requires
        start.wf(),
        start.admits_run(moves),
    ensures
        start.run(moves).wf(),
    decreases moves.len(),
{
    if moves.len() > 0 {
        let rest = moves.drop_last();
        law_walks_stay_apart(start, rest);
        lemma_move_wf(start.run(rest), moves.last());
    }
}

/// A verification probes its candidate first.
pub proof fn law_candidate_is_probed_first<B, V, P, A>(
    state: State<B, V, P, A>,
    walk: PayloadWalk<B, V>,
)
    requires
        state.verification is None,
        state.scheduled().1 == Scheduled::<B, V, P, A>::Task(ExecutionTask::Verify(walk)),
    ensures
        state.pending_consensus_request matches Some((_, ConsensusRequest::Verify(request)))
            && walk.request == request && walk.cursor == request.block,
{
}

/// Only the candidate's own `VALID` or `INVALID` answer resolves a
/// verification; `VALID` resolves it with the time its calls took.
pub proof fn law_only_the_candidate_resolves<B, V, P, A>(
    request: Option<PayloadWalk<B, V>>,
    status: Result<(PayloadStatus, Nanos), String>,
)
    requires
        State::<B, V, P, A>::verdict(request, status) matches Ok(Some(_)),
    ensures
        ({
            let reply = State::<B, V, P, A>::verdict(request, status)->Ok_0->0;
            &&& request is Some
            &&& request->0.at_candidate()
            &&& request->0.request.response == Some(reply.response)
            &&& status matches Ok((PayloadStatus::Valid, time)) ==> reply.verdict == Some(
                (request->0.duration + time) as Nanos,
            )
            &&& !(status matches Ok((PayloadStatus::Valid, _))) ==> reply.verdict is None && (
            status matches Ok((PayloadStatus::Invalid { .. }, _)))
        }),
{
}

/// The candidate's own `VALID` or `INVALID` answer resolves a verification.
pub proof fn law_the_candidate_resolves<B, V, P, A>(
    walk: PayloadWalk<B, V>,
    status: PayloadStatus,
    time: Nanos,
)
    requires
        walk.request.response is Some,
        walk.at_candidate(),
        status is Valid || status is Invalid,
    ensures
        State::<B, V, P, A>::verdict(Some(walk), Ok((status, time))) matches Ok(Some(_)),
{
}

/// No validation changes which head is pending; it can only tell its height.
pub proof fn law_validation_keeps_pending_head<B, V, P, A>(
    state: State<B, V, P, A>,
    request: Option<PayloadWalk<B, V>>,
    status: Result<(PayloadStatus, Nanos), String>,
)
    ensures
        state.validated(request, status).pending_head == (PendingHead {
            height: state.validated(request, status).pending_head.height,
            ..state.pending_head
        }),
{
}

/// A walk goes down one block at a time: an ancestor that continues it is the
/// block asked for, just below the cursor.
pub proof fn law_walk_descends_by_one<B, V>(
    walk: PayloadWalk<B, V>,
    digest: Digest,
    block: Arc<Block<B>>,
)
    ensures
        after_fetch(Some(walk), digest, Some(block)) matches Some(next) ==> {
            &&& next.cursor == block
            &&& next.cursor.digest == digest
            &&& next.cursor.height + 1 == walk.cursor.height
            &&& next.step is Probe
            &&& next.request == walk.request
        },
{
}

/// Walks leave finalized history alone: an ancestor that a walk asks for stands
/// above the network's finalized tip and is not the tip.
pub proof fn law_fetches_stay_above_finality<B, V, P, A>(
    state: State<B, V, P, A>,
    subscriber_gone: bool,
)
    ensures
        ({
            let ready = state.walks_prepared(subscriber_gone);
            let tip = state.network_finalized_tip;
            &&& ready.verification matches Some(walk) ==> walk.step is Parent ==> {
                &&& height_below(walk.cursor.height) > tip.1
                &&& walk.cursor.parent_digest != tip.2
            }
            &&& ready.convergence matches Some(walk) ==> walk.step is Parent ==> {
                &&& height_below(walk.cursor.height) > tip.1
                &&& walk.cursor.parent_digest != tip.2
            }
        }),
{
}

/// No ancestry is fetched ahead: the fetch of the verification is for the
/// parent of its cursor, while it waits for that parent, and there is none
/// otherwise. The fetch for a build is for the build's parent, before its walk
/// has begun, or for the parent of that walk's cursor, while it waits for it.
pub proof fn law_no_ancestry_is_prefetched<B, V, P, A>(state: State<B, V, P, A>)
    ensures
        ({
            let fetching = state.fetches_updated();
            match fetching.pending_verification_block.wanted() {
                Some(fetch) => {
                    &&& fetching.verification matches Some(walk)
                    &&& walk.step is Parent
                    &&& fetch.digest == walk.cursor.parent_digest
                },
                None => !(fetching.verification matches Some(walk) && walk.step is Parent),
            }
        }),
        ({
            let fetching = state.fetches_updated();
            fetching.pending_convergence_block.wanted() matches Some(fetch) ==> {
                &&& fetching.needs_parent()
                &&& match fetching.convergence {
                    None => fetch.digest == fetching.pending_head.digest,
                    Some(walk) => walk.step is Parent && fetch.digest
                        == walk.cursor.parent_digest,
                }
            }
        }),
{
}

/// A build on a block that this node built itself needs no fetch: the body is
/// kept, and its delivery begins with it.
pub proof fn law_own_proposal_is_not_fetched<B, V, P, A>(
    state: State<B, V, P, A>,
    block: Arc<Block<B>>,
)
    requires
        state.convergence is None,
        state.pending_head.digest == block.digest,
        state.needs_parent(),
    ensures
        ({
            let fetching = state.block_built(block).fetches_updated();
            &&& fetching.convergence == Some(PayloadWalk::<B, V>::converging(block))
            &&& fetching.pending_convergence_block is Idle
        }),
{
}

/// A walk that rests is not forgotten: its timer runs.
pub proof fn law_resting_walks_have_timers<B, V, P, A>(
    state: State<B, V, P, A>,
    subscriber_gone: bool,
)
    ensures
        ({
            let ready = state.walks_prepared(subscriber_gone);
            &&& ready.verification matches Some(walk) ==> walk.step is Retry
                ==> ready.verification_retry.wanted() is Some
            &&& ready.convergence matches Some(walk) ==> walk.step is Retry
                ==> ready.convergence_retry.wanted() is Some
        }),
{
}

/// A walk that rests, or waits for an ancestor, takes no part in scheduling,
/// and no other verification starts meanwhile.
pub proof fn law_waiting_walk_is_not_probed<B, V, P, A>(state: State<B, V, P, A>)
    requires
        state.verification matches Some(walk) && !(walk.step is Probe),
    ensures
        !(state.scheduled().1 matches Scheduled::Task(ExecutionTask::Verify(_))),
        state.scheduled().0.verification == state.verification,
{
}

/// `SYNCING` asks for the parent of the cursor; but a candidate that is still
/// `SYNCING` after it was probed again rests. This holds of a verification, and
/// of the delivery of a build's parent as long as that is the pending head.
pub proof fn law_syncing_candidate_rests<B, V, P, A>(
    state: State<B, V, P, A>,
    walk: PayloadWalk<B, V>,
    time: Nanos,
)
    requires
        walk.request.response is None ==> walk.request.block.digest
            == state.pending_head.digest,
    ensures
        ({
            let answered = state.validated(Some(walk), Ok((PayloadStatus::Syncing, time)));
            let goes_on = if walk.request.response is Some {
                answered.verification
            } else {
                answered.convergence
            };
            &&& goes_on matches Some(next)
            &&& next.request == walk.request
            &&& next.cursor == walk.cursor
            &&& walk.reprobed ==> next.step is Retry
            &&& !walk.reprobed ==> next.step is Parent
        }),
{
}

/// An ancestor's `VALID` or `INVALID` answer leads back to the candidate. This
/// holds of a verification, and of the delivery of a build's parent as long as
/// that is the pending head.
pub proof fn law_ancestor_answer_leads_back<B, V, P, A>(
    state: State<B, V, P, A>,
    walk: PayloadWalk<B, V>,
    status: PayloadStatus,
    time: Nanos,
)
    requires
        walk.request.response is None ==> walk.request.block.digest
            == state.pending_head.digest,
        !walk.at_candidate(),
        status is Valid || status is Invalid,
    ensures
        ({
            let answered = state.validated(Some(walk), Ok((status, time)));
            let goes_on = if walk.request.response is Some {
                answered.verification
            } else {
                answered.convergence
            };
            &&& goes_on matches Some(next)
            &&& next.request == walk.request
            &&& next.cursor == walk.request.block
            &&& next.step is Probe
            &&& next.reprobed
        }),
{
}

/// The delivery of a build's parent is tried again, as long as that parent is
/// the pending head, where the parent is rejected, or where the delivery of the
/// parent or of one of its ancestors fails or is only `ACCEPTED`: it rests on a
/// timer, and then begins anew at the parent.
pub proof fn law_rejected_delivery_is_retried<B, V, P, A>(
    state: State<B, V, P, A>,
    walk: PayloadWalk<B, V>,
    status: Result<(PayloadStatus, Nanos), String>,
)
    requires
        walk.request.response is None,
        walk.request.block.digest == state.pending_head.digest,
        status matches Ok((answer, _)) ==> answer is Accepted || (answer is Invalid
            && walk.at_candidate()),
    ensures
        ({
            let answered = state.validated(Some(walk), status);
            let retried = answered.convergence_retried();
            &&& answered.convergence matches Some(resting)
            &&& resting.request == walk.request
            &&& resting.step is Retry
            &&& answered.convergence_retry == Background::Ordered(
                CONVERGENCE_RETRY_INTERVAL,
            )
            &&& retried.convergence matches Some(next)
            &&& next.request == walk.request
            &&& next.cursor == walk.request.block
            &&& next.step is Probe
        }),
{
}

/// Finality wakes all resting walks: they begin anew at their candidates.
pub proof fn law_finality_wakes_walks<B, V, P, A>(
    state: State<B, V, P, A>,
    request: FinalizedBlockRequest<B, A>,
)
    ensures
        ({
            let delivered = state.finalized_delivered(request);
            &&& delivered.verification matches Some(walk) ==> !(walk.step is Retry)
            &&& delivered.convergence matches Some(walk) ==> !(walk.step is Retry)
            &&& state.verification matches Some(walk) ==> walk.step is Retry
                ==> delivered.verification == Some(walk.begun_anew())
            &&& state.convergence matches Some(walk) ==> walk.step is Retry
                ==> delivered.convergence == Some(walk.begun_anew())
        }),
{
}

} // verus!
