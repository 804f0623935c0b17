//! Which forkchoice comes next, and what becomes of it.

use crate::answers::job_started;
use crate::chain::{Block, Digest, Height};
use crate::engine::{
    attempted, read_for_staleness, staleness, submission, ForkchoiceUpdated, LocalState,
    Submission,
};
use crate::error::ForkchoiceFailure;
use crate::state::State;
use vstd::prelude::*;

verus! {

/// The height under which a block is known to be executed: as the head, else as
/// the finalized block, else as the last finalized block delivered, else as a
/// block that a `VALID` answer proved executed. Of no other block a height is
/// known.
pub proof fn law_known_height<B, V, P, A>(state: State<B, V, P, A>, digest: Digest)
    ensures
        ({
            let known = state.height_known(digest);
            let (head, finalized) = (state.local_state.head, state.local_state.finalized);
            let delivered = state.delivered_finalized;
            let named = head.1 == digest || finalized.1 == digest || delivered.1 == digest;
            &&& known is Some <==> named || state.known_blocks.contains_key(digest)
            &&& head.1 == digest ==> known == Some(head.0)
            &&& head.1 != digest && finalized.1 == digest ==> known == Some(finalized.0)
            &&& head.1 != digest && finalized.1 != digest && delivered.1 == digest ==> known
                == Some(delivered.0)
            &&& !named && known is Some ==> known == Some(state.known_blocks[digest])
        }),
{
}

/// The finalized tip moves forwards and never back, to the block that was
/// given, and takes the head along where the head would be left at or below
/// it.
pub proof fn law_finalized_tip_moves_forwards(local: LocalState, height: Height, digest: Digest)
    ensures
        ({
            let updated = local.with_finalized(height, digest);
            &&& height <= local.finalized.0 ==> updated == local
            &&& height > local.finalized.0 ==> updated.finalized == (height, digest)
            &&& height > local.finalized.0 && height < local.head.0 ==> updated.head == local.head
            &&& height > local.finalized.0 && height >= local.head.0 ==> updated.head
                == updated.finalized
        }),
{
}

/// The head moves to any block above the finalized tip, be it above the head or
/// below it, and back onto the finalized tip; anywhere else it does not. The
/// finalized tip stays.
pub proof fn law_head_moves_above_finality(local: LocalState, height: Height, digest: Digest)
    ensures
        ({
            let updated = local.with_head(height, digest);
            &&& updated.finalized == local.finalized
            &&& height > local.finalized.0 ==> updated.head == (height, digest)
            &&& (height, digest) == local.finalized ==> updated.head == local.finalized
            &&& height < local.finalized.0 ==> updated.head == local.head
            &&& height == local.finalized.0 && digest != local.finalized.1 ==> updated.head
                == local.head
        }),
{
}

/// The next forkchoice differs from the tracked one, where there is one, and
/// finalizes the last finalized block delivered, unless that is not ahead of
/// the tracked finality: finality then stays. Where finality advances there is
/// one.
pub proof fn law_next_forkchoice_finalizes<B, V, P, A>(
    state: State<B, V, P, A>,
    canonical: Option<Digest>,
)
    ensures
        ({
            let local = state.local_state;
            let delivered = state.delivered_finalized;
            let target = state.forkchoice_target(canonical);
            &&& delivered.0 > local.finalized.0 ==> target is Some && target->0.finalized
                == delivered
            &&& delivered.0 <= local.finalized.0 && target is Some ==> target->0.finalized
                == local.finalized
            &&& target is Some ==> target->0 != local
        }),
{
}

impl<B, V, P, A> State<B, V, P, A> {
    /// The higher of the tracked finality and the last finalized block
    /// delivered.
    pub open spec fn finality_to_be(self) -> (Height, Digest) {
        if self.delivered_finalized.0 > self.local_state.finalized.0 {
            self.delivered_finalized
        } else {
            self.local_state.finalized
        }
    }

    /// Whether the selected head can be the head: it is known to be executed,
    /// and is above the finality to be, or is the block to be finalized.
    pub open spec fn selected_head_counts(self) -> bool {
        self.height_known(self.pending_head.digest) matches Some(height) && (height
            > self.finality_to_be().0 || (height, self.pending_head.digest)
            == self.finality_to_be())
    }
}

/// The head that consensus selects is named: once it can be the head, and is not
/// the head already, an update is due, and it names the selected block as the
/// head. This holds wherever the head is; a head above the selected one gives
/// way too.
pub proof fn law_selected_head_is_named<B, V, P, A>(
    state: State<B, V, P, A>,
    height: Height,
    canonical: Option<Digest>,
)
    requires
        state.selected_head_counts(),
        state.height_known(state.pending_head.digest) == Some(height),
        state.local_state.head != (height, state.pending_head.digest),
    ensures
        state.forkchoice_target(canonical) matches Some(target) && target.head == (
            height,
            state.pending_head.digest,
        ),
{
}

/// A selected head that cannot be the head is passed over, and one that is the
/// head already asks for nothing. The head then stays as long as it can: it
/// gives way to the finalized block where that is not below it, and where
/// finality advances beneath it and the execution layer's canonical block is
/// not the finalized one.
pub proof fn law_head_stays_where_it_can<B, V, P, A>(
    state: State<B, V, P, A>,
    canonical: Option<Digest>,
)
    requires
        !state.selected_head_counts() || (state.height_known(state.pending_head.digest) == Some(
            state.local_state.head.0,
        ) && state.pending_head.digest == state.local_state.head.1),
        state.local_state.finalized.0 <= state.local_state.head.0,
    ensures
        ({
            let local = state.local_state;
            let delivered = state.delivered_finalized;
            let target = state.forkchoice_target(canonical);
            let advances = delivered.0 > local.finalized.0;
            &&& target is Some <==> advances
            &&& advances && delivered.0 < local.head.0 && canonical == Some(delivered.1)
                ==> target->0.head == local.head
            &&& advances && delivered.0 < local.head.0 && canonical != Some(delivered.1)
                ==> target->0.head == delivered
            &&& advances && delivered.0 >= local.head.0 ==> target->0.head == delivered
        }),
{
}

/// An update is due exactly where there is a next forkchoice. The execution
/// layer's canonical block matters only where it is asked for, and it is asked
/// for at the height that the update finalizes.
pub proof fn law_canonical_block_matters_where_read<B, V, P, A>(
    state: State<B, V, P, A>,
    one: Option<Digest>,
    other: Option<Digest>,
)
    ensures
        state.forkchoice_due() <==> state.forkchoice_target(one) is Some,
        state.canonical_wanted() is None ==> state.forkchoice_target(one)
            == state.forkchoice_target(other),
        state.canonical_wanted() matches Some(height) ==> {
            &&& height == state.delivered_finalized.0
            &&& state.forkchoice_target(Some(state.delivered_finalized.1)) matches Some(target)
            &&& target.head == state.local_state.head
            &&& one != Some(state.delivered_finalized.1) ==> (state.forkchoice_target(
                one,
            ) matches Some(target) && target.head == state.delivered_finalized)
        },
{
}

/// An update is sent where it finalizes above the execution layer's finality,
/// or the very block that is finalized there; below it is skipped; and it fails
/// where the execution layer's canonical block is unknown, missing, or another
/// one. What is sent names the head, and the finalized block, which is the safe
/// block too.
pub proof fn law_submission(
    target: LocalState,
    execution_finalized: Height,
    canonical: Result<Option<Digest>, String>,
)
    ensures
        ({
            let decided = submission(target, execution_finalized, canonical);
            let height = target.finalized.0;
            &&& decided matches Submission::Send(state) ==> state.head_block_hash
                == target.head.1 && state.safe_block_hash == target.finalized.1
                && state.finalized_block_hash == target.finalized.1
            &&& execution_finalized < height ==> decided is Send
            &&& execution_finalized >= height ==> match canonical {
                Err(cause) => decided == Submission::Fail(
                    ForkchoiceFailure::CanonicalRead { height, cause },
                ),
                Ok(None) => decided == Submission::Fail(
                    ForkchoiceFailure::CanonicalMissing { height, execution_finalized },
                ),
                Ok(Some(digest)) => {
                    &&& digest != target.finalized.1 ==> decided == Submission::Fail(
                        ForkchoiceFailure::Conflict {
                            height,
                            finalized: target.finalized.1,
                            canonical: digest,
                        },
                    )
                    &&& digest == target.finalized.1 ==> (decided is Skip
                        <==> execution_finalized > height) && (decided is Send
                        <==> execution_finalized == height)
                },
            }
        }),
{
}

/// The stale check agrees with what is submitted: stale is what is skipped, and
/// a failing check is a failed update.
pub proof fn law_stale_is_skipped(
    target: LocalState,
    execution_finalized: Height,
    canonical: Result<Option<Digest>, String>,
)
    ensures
        match submission(target, execution_finalized, canonical) {
            Submission::Send(_) => staleness(target, execution_finalized, canonical) == Ok::<
                bool,
                ForkchoiceFailure,
            >(false),
            Submission::Skip => staleness(target, execution_finalized, canonical) == Ok::<
                bool,
                ForkchoiceFailure,
            >(true),
            Submission::Fail(failure) => staleness(target, execution_finalized, canonical) == Err::<
                bool,
                ForkchoiceFailure,
            >(failure),
        },
{
}

/// The canonical block matters to the stale check only where it is read, and it
/// is read at the finalized height of the target, wherever the execution layer
/// has finalized that high.
pub proof fn law_stale_read(
    target: LocalState,
    execution_finalized: Height,
    one: Result<Option<Digest>, String>,
    other: Result<Option<Digest>, String>,
)
    ensures
        ({
            let read = read_for_staleness(target, execution_finalized);
            &&& read is Some <==> execution_finalized >= target.finalized.0
            &&& read matches Some(height) ==> height == target.finalized.0
            &&& read is None ==> staleness(target, execution_finalized, one) == staleness(
                target,
                execution_finalized,
                other,
            )
        }),
{
}

/// An update goes out for its target, with the build it carries as long as
/// somebody waits for that build, and is submitted by the same rules with a
/// build and without.
pub proof fn law_attempt<P>(
    target: LocalState,
    build: Option<P>,
    subscriber_gone: bool,
    execution_finalized: Height,
    canonical: Result<Option<Digest>, String>,
)
    ensures
        ({
            let attempt = attempted(target, build, subscriber_gone, execution_finalized, canonical);
            &&& attempt.target == target
            &&& subscriber_gone ==> attempt.build is None
            &&& !subscriber_gone ==> attempt.build == build
            &&& attempt.submission == submission(target, execution_finalized, canonical)
        }),
{
}

/// An update fails where it could not be submitted and where it is not answered
/// `VALID`, with the reason at hand; an update that is answered `VALID`, and a
/// stale one that was not submitted, do not fail.
pub proof fn law_update_failures<B, V, P, A>(
    response: Option<Result<ForkchoiceUpdated, ForkchoiceFailure>>,
)
    ensures
        ({
            let failure = State::<B, V, P, A>::forkchoice_failure(response);
            match response {
                None => failure is None,
                Some(Err(reason)) => failure == Some(reason),
                Some(Ok(updated)) => {
                    &&& updated.payload_status is Valid <==> failure is None
                    &&& failure is Some ==> failure == Some(
                        ForkchoiceFailure::NotValid(updated.payload_status),
                    )
                },
            }
        }),
{
}

/// A build is driven on exactly where an answer names its payload, and it is
/// driven on under that name for its own subscriber.
pub proof fn law_build_is_driven_on<P>(
    build: Option<P>,
    response: Option<Result<ForkchoiceUpdated, ForkchoiceFailure>>,
)
    ensures
        ({
            let job = job_started(build, response);
            &&& job is Some <==> build is Some && (response matches Some(Ok(updated))
                && updated.payload_id is Some)
            &&& job matches Some(started) ==> {
                &&& Some(started.payload) == build
                &&& response matches Some(Ok(updated)) && updated.payload_id == Some(
                    started.payload_id,
                )
            }
        }),
{
}

/// A block is this node's own where the node has a key, and it is the key of
/// the block's proposer.
pub proof fn law_own_blocks<B, V, P, A>(state: State<B, V, P, A>, block: Block<B>)
    ensures
        state.public_key is None ==> !state.proposed_by_self(block),
        block.proposer is None ==> !state.proposed_by_self(block),
        state.public_key is Some && block.proposer is Some ==> (state.proposed_by_self(block)
            <==> block.proposer->0 == state.public_key->0),
{
}

} // verus!
