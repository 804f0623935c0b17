//! What is kept, what rests, and what is fetched between two tasks.

use crate::background::Background;
use crate::chain::{Block, Digest, Height, Nanos, Round};
use crate::run::Event;
use crate::state::{
    fetch_for, BlockFetch, PendingHead, State, VERIFICATION_RETRY_INTERVAL,
};
use crate::walk::{after_fetch, PayloadWalk, WalkStep};
use std::sync::Arc;
use vstd::prelude::*;

verus! {

/// Ordered work is handed out once, and then goes on being wanted: work that has
/// begun is the work that was ordered, and is not handed out again. Nothing else
/// is handed out, and nothing else becomes of a slot whose work begins.
pub proof fn law_work_begins_once<T: Copy>(slot: Background<T>)
    ensures
        slot is Ordered ==> slot.handed_out() == slot.wanted(),
        !(slot is Ordered) ==> slot.handed_out() is None,
        slot.begun().handed_out() is None,
        slot.begun().wanted() == slot.wanted(),
        !(slot.begun() is Ordered),
        slot.begun().begun() == slot.begun(),
        slot is Idle <==> slot.wanted() is None,
{
}

/// An iteration is four steps, one after the other: what finality has overtaken
/// is forgotten, the walks are made ready, the fetches follow them, and the
/// scheduler runs on what these have left.
pub proof fn law_iteration<B, V, P, A>(state: State<B, V, P, A>, subscriber_gone: bool)
    ensures
        ({
            let pruned = state.pruned();
            let ready = pruned.walks_prepared(subscriber_gone);
            let fetching = ready.fetches_updated();
            state.iteration_begun(subscriber_gone) == fetching.scheduled()
        }),
{
}

/// The gauges read the height of the pending head once finality has had its say:
/// the tip's height where the head is the tip or is overtaken by it, and
/// otherwise the height that was known before the iteration, if any.
pub proof fn law_height_observed<B, V, P, A>(state: State<B, V, P, A>)
    ensures
        ({
            let (round, height, digest) = state.network_finalized_tip;
            let overtaken = state.pending_head.digest == digest
                || !state.pending_head.round.after(round);
            &&& overtaken ==> state.height_observed() == Some(height)
            &&& !overtaken ==> state.height_observed() == state.pending_head.height
        }),
{
}

/// Forgetting what finality has overtaken touches the blocks known, the blocks
/// built, the pending head, and the walk towards a build's parent with its
/// timer, and nothing else. Blocks above the finalized tip are kept as they
/// are, all others are forgotten.
pub proof fn law_pruned_blocks<B, V, P, A>(state: State<B, V, P, A>, digest: Digest)
    ensures
        ({
            let next = state.pruned();
            let tip = state.network_finalized_tip.1;
            let known = state.known_blocks;
            let built = state.built_blocks;
            &&& next.known_blocks.contains_key(digest) <==> known.contains_key(digest)
                && known[digest] > tip
            &&& next.known_blocks.contains_key(digest) ==> next.known_blocks[digest]
                == known[digest]
            &&& next.built_blocks.contains_key(digest) <==> built.contains_key(digest)
                && built[digest].height > tip
            &&& next.built_blocks.contains_key(digest) ==> next.built_blocks[digest]
                == built[digest]
            &&& next == (State {
                known_blocks: next.known_blocks,
                built_blocks: next.built_blocks,
                pending_head: next.pending_head,
                convergence: next.convergence,
                convergence_retry: next.convergence_retry,
                ..state
            })
        }),
{
}

/// The pending head stays while it is of a newer round than the finalized tip.
/// If it is the tip, it stays and has the tip's height. Otherwise the tip takes
/// its place.
pub proof fn law_pruned_head<B, V, P, A>(state: State<B, V, P, A>)
    ensures
        ({
            let head = state.pending_head;
            let next = state.pruned().pending_head;
            let (round, height, digest) = state.network_finalized_tip;
            &&& head.digest == digest ==> next == (PendingHead { height: Some(height), ..head })
            &&& head.digest != digest && head.round.after(round) ==> next == head
            &&& head.digest != digest && !head.round.after(round) ==> {
                &&& next.digest == digest
                &&& next.round == round
                &&& next.height == Some(height)
                &&& !next.requires_delivery
            }
        }),
{
}

/// The walk towards a build's parent goes on, with its timer, exactly while the
/// pending head has to be delivered, is not known to be executed, and is the
/// block that the walk is towards.
pub proof fn law_pruned_convergence<B, V, P, A>(state: State<B, V, P, A>)
    ensures
        ({
            let next = state.pruned();
            let head = next.pending_head;
            let wanted = head.requires_delivery && next.height_known(head.digest) is None && (
            state.convergence matches Some(walk) ==> walk.request.block.digest == head.digest);
            &&& wanted ==> next.convergence == state.convergence && next.convergence_retry
                == state.convergence_retry
            &&& !wanted ==> next.convergence is None && next.convergence_retry is Idle
        }),
{
}

/// Whether a walk rests instead of asking for its next ancestor: that ancestor
/// is the finalized tip, or stands no higher.
pub open spec fn rests_at<B, V>(walk: PayloadWalk<B, V>, tip: (Round, Height, Digest)) -> bool {
    &&& walk.step is Parent
    &&& walk.cursor.parent_digest == tip.2 || walk.cursor.height <= tip.1 + 1
}

/// Whether a walk and its timer have been made ready.
pub open spec fn made_ready<B, V>(
    walk: Option<PayloadWalk<B, V>>,
    timer: Background<Nanos>,
    tip: (Round, Height, Digest),
    ready: Option<PayloadWalk<B, V>>,
    ready_timer: Background<Nanos>,
) -> bool {
    &&& walk is None ==> ready is None && ready_timer == timer
    &&& walk matches Some(walk) ==> {
        &&& rests_at(walk, tip) ==> ready == Some(PayloadWalk { step: WalkStep::Retry, ..walk })
        &&& !rests_at(walk, tip) ==> ready == Some(walk)
        &&& (walk.step is Retry || rests_at(walk, tip)) && timer is Idle ==> ready_timer
            == Background::Ordered(VERIFICATION_RETRY_INTERVAL)
        &&& !(walk.step is Retry || rests_at(walk, tip)) || !(timer is Idle) ==> ready_timer
            == timer
    }
}

/// Making the walks ready ends a verification whose subscriber went away, with
/// its timer; lets a walk rest that has come down to finality; and starts the
/// timer of a walk that rests, unless it runs. Nothing else changes.
pub proof fn law_walks_made_ready<B, V, P, A>(state: State<B, V, P, A>, subscriber_gone: bool)
    ensures
        ({
            let next = state.walks_prepared(subscriber_gone);
            let tip = state.network_finalized_tip;
            let canceled = subscriber_gone && (state.verification matches Some(walk)
                && walk.request.response is Some);
            &&& canceled ==> next.verification is None && next.verification_retry is Idle
            &&& !canceled ==> made_ready(
                state.verification,
                state.verification_retry,
                tip,
                next.verification,
                next.verification_retry,
            )
            &&& made_ready(
                state.convergence,
                state.convergence_retry,
                tip,
                next.convergence,
                next.convergence_retry,
            )
            &&& next == (State {
                verification: next.verification,
                verification_retry: next.verification_retry,
                convergence: next.convergence,
                convergence_retry: next.convergence_retry,
                ..state
            })
        }),
{
}

/// A fetch follows what is wanted: nothing is fetched where nothing is wanted; a
/// fetch of the wanted block goes on as it is; any other makes room for a fetch
/// of the wanted block, under its round.
pub proof fn law_fetch_follows(pending: Background<BlockFetch>, round: Round, digest: Digest)
    ensures
        fetch_for(pending, None) is Idle,
        ({
            let next = fetch_for(pending, Some((round, digest)));
            let same = pending.wanted() matches Some(fetch) && fetch.digest == digest;
            &&& same ==> next == pending
            &&& !same ==> next == Background::Ordered(BlockFetch { round, digest })
        }),
{
}

/// The fetches follow the walks. The verification fetches the parent of its
/// cursor while it asks for it, and nothing else.
pub proof fn law_verification_fetch<B, V, P, A>(state: State<B, V, P, A>)
    ensures
        ({
            let next = state.fetches_updated();
            let fetch = next.pending_verification_block;
            match state.verification {
                Some(walk) => {
                    &&& walk.step is Parent ==> fetch == fetch_for(
                        state.pending_verification_block,
                        Some(walk.cursor_parent()),
                    )
                    &&& !(walk.step is Parent) ==> fetch is Idle
                },
                None => fetch is Idle,
            }
        }),
{
}

/// What is fetched for a build. Nothing is while the pending head need not be
/// delivered, is known to be executed, is the finalized tip, or while a block is
/// being delivered for a build already. Otherwise a walk fetches the parent of
/// its cursor while it asks for it; without a walk, the pending head's own body
/// is fetched, unless this node built that block: the walk then begins with the
/// body at hand, and the head's height is known.
pub proof fn law_convergence_fetch<B, V, P, A>(state: State<B, V, P, A>)
    ensures
        ({
            let next = state.fetches_updated();
            let head = state.pending_head;
            let fetch = next.pending_convergence_block;
            let delivering = state.execution_task matches Some(task) && task.task_type is Deliver;
            let needed = head.requires_delivery && state.height_known(head.digest) is None
                && head.digest != state.network_finalized_tip.2 && !delivering;
            let at_hand = needed && state.convergence is None
                && state.built_blocks.contains_key(head.digest);
            &&& !needed ==> fetch is Idle
            &&& at_hand ==> {
                let block = state.built_blocks[head.digest];
                &&& fetch is Idle
                &&& next.convergence == Some(PayloadWalk::<B, V>::converging(block))
                &&& next.pending_head == (PendingHead { height: Some(block.height), ..head })
            }
            &&& !at_hand ==> next.convergence == state.convergence && next.pending_head == head
            &&& needed && !at_hand ==> match state.convergence {
                None => fetch == fetch_for(
                    state.pending_convergence_block,
                    Some((head.round, head.digest)),
                ),
                Some(walk) => {
                    &&& walk.step is Parent ==> fetch == fetch_for(
                        state.pending_convergence_block,
                        Some(walk.cursor_parent()),
                    )
                    &&& !(walk.step is Parent) ==> fetch is Idle
                },
            }
            &&& next == (State {
                pending_verification_block: next.pending_verification_block,
                pending_convergence_block: next.pending_convergence_block,
                convergence: next.convergence,
                pending_head: next.pending_head,
                ..state
            })
        }),
{
}

/// When the timer of the verification goes off, the verification begins anew;
/// when that of the walk towards a build's parent does, that walk does. The
/// timer has ended, and nothing else changes.
pub proof fn law_retries<B, V, P, A>(state: State<B, V, P, A>)
    ensures
        state.after(Event::VerificationRetry) == (State {
            verification: match state.verification {
                Some(walk) => Some(walk.begun_anew()),
                None => None,
            },
            verification_retry: Background::Idle,
            ..state
        }),
        state.after(Event::ConvergenceRetry) == (State {
            convergence: match state.convergence {
                Some(walk) => Some(walk.begun_anew()),
                None => None,
            },
            convergence_retry: Background::Idle,
            ..state
        }),
{
}

/// A verification whose subscriber went away ends, with its timer, and nothing
/// else changes.
pub proof fn law_cancellation<B, V, P, A>(state: State<B, V, P, A>)
    ensures
        state.after(Event::VerificationCanceled) == (State {
            verification: None,
            verification_retry: Background::Idle,
            ..state
        }),
{
}

/// A block that was fetched for the verification goes to the verification, and
/// its fetch has ended. Nothing else changes.
pub proof fn law_verification_block<B, V, P, A>(
    state: State<B, V, P, A>,
    digest: Digest,
    block: Option<Arc<Block<B>>>,
)
    ensures
        state.after(Event::VerificationBlock { digest, block }) == (State {
            verification: after_fetch(state.verification, digest, block),
            pending_verification_block: Background::Idle,
            ..state
        }),
{
}

/// A block that was fetched for a build goes to the walk, if there is one.
/// Otherwise it is the pending head: where it is the block asked for and above
/// the finalized tip, its walk begins and its height is known; where finality
/// has overtaken it, the finalized tip takes its place; another block is
/// discarded. The fetch has ended in any case, and nothing else changes.
pub proof fn law_convergence_block<B, V, P, A>(
    state: State<B, V, P, A>,
    digest: Digest,
    block: Option<Arc<Block<B>>>,
)
    ensures
        ({
            let next = state.after(Event::ConvergenceBlock { digest, block });
            let (round, height, tip) = state.network_finalized_tip;
            let head = state.pending_head;
            let itself = block matches Some(block) && block.digest == digest;
            &&& next.pending_convergence_block is Idle
            &&& state.convergence is Some ==> next.pending_head == head && next.convergence
                == after_fetch(state.convergence, digest, block)
            &&& state.convergence is None && !itself ==> next.convergence is None
                && next.pending_head == head
            &&& state.convergence is None && itself && block->0.height > height ==> {
                &&& next.convergence == Some(PayloadWalk::<B, V>::converging(block->0))
                &&& next.pending_head == (PendingHead { height: Some(block->0.height), ..head })
            }
            &&& state.convergence is None && itself && block->0.height <= height ==> {
                &&& next.convergence is None
                &&& next.pending_head.round == round
                &&& next.pending_head.height == Some(height)
                &&& next.pending_head.digest == tip
                &&& !next.pending_head.requires_delivery
            }
            &&& next == (State {
                convergence: next.convergence,
                pending_head: next.pending_head,
                pending_convergence_block: next.pending_convergence_block,
                ..state
            })
        }),
{
}

/// A block that this node built is kept under its digest, and nothing else
/// changes; a payload job that leaves no block behind changes nothing, nor does
/// the end of the messages.
pub proof fn law_built_block<B, V, P, A>(
    state: State<B, V, P, A>,
    block: Arc<Block<B>>,
    digest: Digest,
)
    ensures
        ({
            let next = state.after(Event::PayloadJob(Some(block)));
            &&& next.built_blocks.contains_key(digest) <==> digest == block.digest
                || state.built_blocks.contains_key(digest)
            &&& digest == block.digest ==> next.built_blocks[digest] == block
            &&& digest != block.digest && state.built_blocks.contains_key(digest)
                ==> next.built_blocks[digest] == state.built_blocks[digest]
            &&& next == (State { built_blocks: next.built_blocks, ..state })
        }),
        state.after(Event::PayloadJob(None)) == state,
        state.after(Event::MailboxClosed) == state,
{
}

} // verus!
