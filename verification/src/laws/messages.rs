//! What messages do.

use crate::chain::{Block, Context, Digest, Height, Round};
use crate::mailbox::Message;
use crate::state::{Scheduled, State};
use crate::task::{Build, ConsensusRequest, ExecutionTask, FinalizedBlockRequest};
use std::sync::Arc;
use vstd::prelude::*;

verus! {

/// Epochs order rounds first, and views within one epoch.
pub proof fn law_epochs_before_views(a: Round, b: Round)
    ensures
        a.epoch > b.epoch ==> a.after(b),
        a.epoch == b.epoch ==> (a.after(b) <==> a.view > b.view),
        a.epoch < b.epoch ==> !a.after(b),
{
}

/// A parent was notarized in the epoch of its child's round, in the view that
/// the context gives.
pub proof fn law_parent_round(context: Context)
    ensures
        context.parent_round_of().epoch == context.round.epoch,
        context.parent_round_of().view == context.parent.0,
{
}

/// What a message selects: its round, the view and the digest of the selected
/// block, and whether that has to be delivered. Builds and verifications select
/// their parents, a report of the finalized tip selects the tip.
pub open spec fn selected_by<B, V, P, A>(message: Message<B, V, P, A>) -> Option<
    (Round, u64, Digest, bool),
> {
    match message {
        Message::Build { build, .. } => Some(
            (build.context.round, build.context.parent.0, build.context.parent.1, true),
        ),
        Message::VerifyBlock { context, .. } => Some(
            (context.round, context.parent.0, context.parent.1, false),
        ),
        Message::Tip { round, digest, .. } => Some((round, round.view, digest, false)),
        Message::Finalized(_) => None,
    }
}

/// A message of the newest round, or of the same round again, selects its block
/// as the head, in that round's epoch, and only builds ask for its delivery. Its
/// height is the one under which it is known to be executed, or the one that
/// was known of it as the head already; otherwise it is not known. A message of
/// an older round, and one that selects nothing, leave the head and the newest
/// round as they are.
pub proof fn law_message_selects_head<B, V, P, A>(
    state: State<B, V, P, A>,
    message: Message<B, V, P, A>,
)
    ensures
        ({
            let next = state.messaged(message);
            match selected_by(message) {
                None => next.pending_head == state.pending_head && next.latest_consensus_round
                    == state.latest_consensus_round,
                Some((round, view, digest, deliver)) => {
                    &&& state.latest_consensus_round.after(round) ==> next.pending_head
                        == state.pending_head && next.latest_consensus_round
                        == state.latest_consensus_round
                    &&& !state.latest_consensus_round.after(round) ==> {
                        let known = state.height_known(digest);
                        &&& next.latest_consensus_round == round
                        &&& next.pending_head.round.epoch == round.epoch
                        &&& next.pending_head.round.view == view
                        &&& next.pending_head.digest == digest
                        &&& next.pending_head.requires_delivery == deliver
                        &&& known is Some ==> next.pending_head.height == known
                        &&& known is None && state.pending_head.digest == digest
                            ==> next.pending_head.height == state.pending_head.height
                        &&& known is None && state.pending_head.digest != digest
                            ==> next.pending_head.height is None
                    }
                },
            }
        }),
{
}

/// A request to verify takes the slot unless a request of the same or a newer
/// round is there. It keeps the block, the validator set and the subscriber of
/// its message, and the round of the block's parent.
pub proof fn law_verification_is_queued<B, V, P, A>(
    state: State<B, V, P, A>,
    context: Context,
    block: Arc<Block<B>>,
    validator_set: Option<Vec<[u8; 32]>>,
    response: V,
)
    ensures
        ({
            let next = state.messaged(
                Message::VerifyBlock { context, block, validator_set, response },
            );
            let newer = state.pending_consensus_request matches Some((waiting, _))
                ==> context.round.after(waiting);
            &&& !newer ==> next.pending_consensus_request == state.pending_consensus_request
            &&& newer ==> {
                &&& next.pending_consensus_request matches Some(
                    (round, ConsensusRequest::Verify(request)),
                )
                &&& round == context.round
                &&& request.block == block
                &&& request.validator_set == validator_set
                &&& request.response == Some(response)
                &&& request.parent_round.epoch == context.round.epoch
                &&& request.parent_round.view == context.parent.0
            }
        }),
{
}

/// The first probe of a verification delivers the block of its message with the
/// validator set of its message, and the verdict goes to the subscriber of its
/// message.
pub proof fn law_first_probe_is_of_the_message<B, V, P, A>(
    state: State<B, V, P, A>,
    context: Context,
    block: Arc<Block<B>>,
    validator_set: Option<Vec<[u8; 32]>>,
    response: V,
)
    requires
        state.execution_task is None,
        state.verification is None,
        state.pending_consensus_request matches Some((waiting, _)) ==> context.round.after(
            waiting,
        ),
    ensures
        ({
            let queued = state.messaged(
                Message::VerifyBlock { context, block, validator_set, response },
            );
            &&& queued.scheduled().1 matches Scheduled::Task(ExecutionTask::Verify(walk))
            &&& walk.cursor == block
            &&& walk.request.block == block
            &&& walk.set_delivered() == validator_set
            &&& walk.request.response == Some(response)
        }),
{
}

/// A request to build takes the slot unless a request of the same or a newer
/// round is there, or nobody waits for the build any more. It is kept as it
/// came.
pub proof fn law_build_is_queued<B, V, P, A>(
    state: State<B, V, P, A>,
    build: Build<P>,
    subscriber_gone: bool,
)
    ensures
        ({
            let next = state.messaged(Message::Build { build, subscriber_gone });
            let newer = state.pending_consensus_request matches Some((waiting, _))
                ==> build.context.round.after(waiting);
            &&& newer && !subscriber_gone ==> next.pending_consensus_request == Some(
                (build.context.round, ConsensusRequest::<B, V, P>::Build(build)),
            )
            &&& !newer || subscriber_gone ==> next.pending_consensus_request
                == state.pending_consensus_request
        }),
{
}

/// A report of a newer round moves the finalized tip; any other leaves it. It
/// queues nothing.
pub proof fn law_tip_is_reported<B, V, P, A>(
    state: State<B, V, P, A>,
    round: Round,
    height: Height,
    digest: Digest,
)
    ensures
        ({
            let next = state.messaged(Message::Tip { round, height, digest });
            &&& round.after(state.network_finalized_tip.0) ==> next.network_finalized_tip == (
                round,
                height,
                digest,
            )
            &&& !round.after(state.network_finalized_tip.0) ==> next.network_finalized_tip
                == state.network_finalized_tip
            &&& next.pending_consensus_request == state.pending_consensus_request
        }),
{
}

/// A finalized block is queued last, and nothing else changes.
pub proof fn law_finalized_block_is_queued<B, V, P, A>(
    state: State<B, V, P, A>,
    request: FinalizedBlockRequest<B, A>,
)
    ensures
        state.messaged(Message::Finalized(request)) == (State {
            pending_finalizations: state.pending_finalizations.push(request),
            ..state
        }),
{
}

/// Requests touch the slot, the head and the newest round, and nothing else; a
/// report of the finalized tip touches the tip in place of the slot.
pub proof fn law_messages_touch_little<B, V, P, A>(
    state: State<B, V, P, A>,
    message: Message<B, V, P, A>,
)
    requires
        !(message is Finalized),
    ensures
        ({
            let next = state.messaged(message);
            &&& next == (State {
                pending_consensus_request: next.pending_consensus_request,
                pending_head: next.pending_head,
                latest_consensus_round: next.latest_consensus_round,
                network_finalized_tip: next.network_finalized_tip,
                ..state
            })
            &&& !(message is Tip) ==> next.network_finalized_tip == state.network_finalized_tip
        }),
{
}

} // verus!
