//! The order of rounds, and the head that they select.

use crate::chain::{Digest, Height, Round};
use crate::laws::moves::Move;
use crate::run::Event;
use crate::startup::Config;
use crate::state::{PendingHead, State};
use crate::task::{queued, ConsensusRequest, ExecutionTaskOutcome};
use vstd::prelude::*;

verus! {

/// Rounds are totally ordered.
pub proof fn law_rounds_are_totally_ordered(a: Round, b: Round, c: Round)
    ensures
        !a.after(a),
        a.after(b) && b.after(c) ==> a.after(c),
        a.after(b) || b.after(a) || a == b,
        !(a.after(b) && b.after(a)),
{
}

/// The slot for consensus requests holds the newest request, and of one round
/// the first.
pub proof fn law_newest_request_is_queued<B, V, P>(
    slot: Option<(Round, ConsensusRequest<B, V, P>)>,
    round: Round,
    request: ConsensusRequest<B, V, P>,
)
    ensures
        ({
            let after = queued(slot, round, request);
            &&& after is Some
            &&& !round.after((after->0).0)
            &&& slot matches Some((waiting, _)) ==> !waiting.after((after->0).0)
            &&& slot matches Some((waiting, _)) ==> !round.after(waiting) ==> after == slot
        }),
{
}

/// The slot for consensus requests after a series of requests.
pub open spec fn all_queued<B, V, P>(
    slot: Option<(Round, ConsensusRequest<B, V, P>)>,
    requests: Seq<(Round, ConsensusRequest<B, V, P>)>,
) -> Option<(Round, ConsensusRequest<B, V, P>)>
    decreases requests.len(),
{
    if requests.len() == 0 {
        slot
    } else {
        queued(
            all_queued(slot, requests.drop_last()),
            requests.last().0,
            requests.last().1,
        )
    }
}

/// Whether the request at `at` is the first one of the highest round.
pub open spec fn first_of_highest<B, V, P>(
    requests: Seq<(Round, ConsensusRequest<B, V, P>)>,
    at: int,
) -> bool {
    &&& 0 <= at < requests.len()
    &&& forall|i: int|
        0 <= i < requests.len() ==> !(#[trigger] requests[i]).0.after(requests[at].0)
    &&& forall|i: int| 0 <= i < at ==> requests[at].0.after((#[trigger] requests[i]).0)
}

/// After any series of requests, a slot that was empty holds the first request
/// of the highest round.
pub proof fn law_first_of_highest_round_is_queued<B, V, P>(
    requests: Seq<(Round, ConsensusRequest<B, V, P>)>,
) -> (at: int)
    requires
        requests.len() > 0,
    ensures
        first_of_highest(requests, at),
        all_queued(None, requests) == Some(requests[at]),
    decreases requests.len(),
{
    let rest = requests.drop_last();
    let last = requests.len() - 1;
    if rest.len() == 0 {
        last
    } else {
        let before = law_first_of_highest_round_is_queued(rest);
        assert(forall|i: int| 0 <= i < rest.len() ==> rest[i] == requests[i]);
        if requests[last].0.after(requests[before].0) {
            assert forall|i: int| 0 <= i < last implies requests[last].0.after(
                (#[trigger] requests[i]).0,
            ) by {
                assert(!rest[i].0.after(rest[before].0));
            }
            last
        } else {
            before
        }
    }
}

impl<B, V, P, A> State<B, V, P, A> {
    /// Whether no round is newer than the newest observed: neither that of the
    /// finalized tip nor that of the waiting request.
    pub open spec fn rounds_ordered(self) -> bool {
        &&& !self.network_finalized_tip.0.after(self.latest_consensus_round)
        &&& self.pending_consensus_request matches Some((round, _)) ==> !round.after(
            self.latest_consensus_round,
        )
    }
}

/// The scheduler leaves the newest round and the tip alone, and queues no
/// request.
#[verifier::spinoff_prover]
#[verifier::rlimit(60)]
proof fn lemma_schedule_rounds<B, V, P, A>(state: State<B, V, P, A>)
    requires
        state.rounds_ordered(),
    ensures
        ({
            let next = state.scheduled().0;
            &&& next.rounds_ordered()
            &&& next.latest_consensus_round == state.latest_consensus_round
            &&& next.network_finalized_tip == state.network_finalized_tip
        }),
        ({
            let next = state.heartbeat_scheduled().0;
            &&& next.rounds_ordered()
            &&& next.latest_consensus_round == state.latest_consensus_round
            &&& next.network_finalized_tip == state.network_finalized_tip
        }),
{
}

/// An answer leaves the rounds alone.
#[verifier::spinoff_prover]
#[verifier::rlimit(60)]
proof fn lemma_answer_rounds<B, V, P, A>(
    state: State<B, V, P, A>,
    outcome: ExecutionTaskOutcome<B, V, P, A>,
)
    requires
        state.rounds_ordered(),
    ensures
        ({
            let next = state.answered(outcome);
            &&& next.rounds_ordered()
            &&& next.latest_consensus_round == state.latest_consensus_round
            &&& next.network_finalized_tip == state.network_finalized_tip
        }),
{
}

/// A move keeps the order of rounds.
#[verifier::spinoff_prover]
#[verifier::rlimit(60)]
proof fn lemma_move_rounds<B, V, P, A>(state: State<B, V, P, A>, step: Move<B, V, P, A>)
    requires
        state.rounds_ordered(),
    ensures
        state.moved(step).rounds_ordered(),
        !state.latest_consensus_round.after(state.moved(step).latest_consensus_round),
        !state.network_finalized_tip.0.after(state.moved(step).network_finalized_tip.0),
{
    match step {
        Move::Schedule => {
            lemma_schedule_rounds(state);
        },
        Move::Meet(Event::Heartbeat) => {
            lemma_schedule_rounds(state);
        },
        Move::Meet(Event::Answer(outcome)) => {
            lemma_answer_rounds(state, outcome);
        },
        _ => {},
    }
}

/// Rounds never go back: neither the newest observed nor that of the finalized
/// tip; and the newest observed stays the newest of all.
pub proof fn law_rounds_never_go_back<B, V, P, A>(
    start: State<B, V, P, A>,
    moves: Seq<Move<B, V, P, A>>,
)
    requires
        start.rounds_ordered(),
    ensures
        start.run(moves).rounds_ordered(),
        !start.latest_consensus_round.after(start.run(moves).latest_consensus_round),
        !start.network_finalized_tip.0.after(start.run(moves).network_finalized_tip.0),
    decreases moves.len(),
{
    if moves.len() > 0 {
        let rest = moves.drop_last();
        law_rounds_never_go_back(start, rest);
        lemma_move_rounds(start.run(rest), moves.last());
    }
}

/// Only messages are observed for their rounds: nothing else changes the newest
/// round or the finalized tip, neither the end of a request nor its
/// cancellation.
#[verifier::spinoff_prover]
#[verifier::rlimit(60)]
pub proof fn law_only_messages_are_observed<B, V, P, A>(
    state: State<B, V, P, A>,
    step: Move<B, V, P, A>,
)
    requires
        !(step matches Move::Meet(Event::Message(_))),
    ensures
        state.moved(step).latest_consensus_round == state.latest_consensus_round,
        state.moved(step).network_finalized_tip == state.network_finalized_tip,
{
}

/// Only messages select another head, besides finality that overtakes it: when
/// what it has overtaken is forgotten, or when the block fetched as the head
/// turns out to be overtaken, the finalized tip takes its place.
#[verifier::spinoff_prover]
#[verifier::rlimit(60)]
pub proof fn law_who_selects_the_head<B, V, P, A>(
    state: State<B, V, P, A>,
    step: Move<B, V, P, A>,
)
    requires
        !(step matches Move::Meet(Event::Message(_))),
    ensures
        ({
            let before = state.pending_head;
            let head = state.moved(step).pending_head;
            ||| head == (PendingHead { height: head.height, ..before })
            ||| {
                &&& head == PendingHead::at_tip(state.network_finalized_tip)
                &&& step is Prune || step matches Move::Meet(Event::ConvergenceBlock { .. })
            }
        }),
{
}

/// A request of an older round does not change which head is pending, nor does
/// the cancellation of a verification.
pub proof fn law_older_round_selects_nothing<B, V, P, A>(
    state: State<B, V, P, A>,
    round: Round,
    target: (u64, Digest),
    requires_delivery: bool,
)
    ensures
        state.latest_consensus_round.after(round) ==> state.target_recorded(
            round,
            target,
            requires_delivery,
        ) == state,
        state.without_verification().pending_head == state.pending_head,
{
}

/// Of the blocks known and the blocks built, those above the finalized tip are
/// kept, and no others. The pending head is of a newer round than the tip, or
/// is the tip. The walk towards a build's parent is towards the pending head,
/// which is still to be delivered.
pub proof fn law_pruning_leaves_what_is_above<B, V, P, A>(state: State<B, V, P, A>)
    ensures
        ({
            let pruned = state.pruned();
            let (round, height, digest) = state.network_finalized_tip;
            &&& forall|d: Digest| #[trigger]
                pruned.known_blocks.contains_key(d) <==> state.known_blocks.contains_key(d)
                    && state.known_blocks[d] > height
            &&& forall|d: Digest| #[trigger]
                pruned.built_blocks.contains_key(d) <==> state.built_blocks.contains_key(d)
                    && state.built_blocks[d].height > height
            &&& pruned.pending_head.round.after(round) || pruned.pending_head.digest == digest
            &&& pruned.pending_head.digest == digest ==> pruned.pending_head.height == Some(height)
            &&& pruned.convergence matches Some(walk) ==> {
                &&& walk.request.block.digest == pruned.pending_head.digest
                &&& pruned.pending_head.requires_delivery
                &&& pruned.height_known(pruned.pending_head.digest) is None
            }
        }),
{
}

/// At the start the walks are apart, and the tip's round is the newest.
pub proof fn law_start_is_sound<B, V, P, A>(config: Config, finalized: (Height, Digest))
    ensures
        State::<B, V, P, A>::started(config, finalized).wf(),
        State::<B, V, P, A>::started(config, finalized).rounds_ordered(),
{
}

} // verus!
