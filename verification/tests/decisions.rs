//! Single decisions of the executor, on given values.

use executor::actor::Actor;
use executor::answers::Delivered;
use executor::background::Background;
use executor::block_map::BlockMap;
use executor::chain::{Block, Context, Digest, Height, PublicKey, Round};
use executor::engine::{
    execute_forkchoice, is_stale_forkchoice, stale_read, submit_forkchoice_update,
    ForkchoiceUpdated, LocalState, PayloadStatus, Submission,
};
use executor::error::{Error, ForkchoiceFailure};
use executor::fetch::update_block_fetch;
use executor::mailbox::Message;
use executor::metrics::observe;
use executor::run::{Action, Event};
use executor::startup::{
    get_block, wait_for_execution_layer, BlockLookup, Config, LookupStep,
};
use executor::state::{
    BlockFetch, Scheduled, CONVERGENCE_RETRY_INTERVAL, DELIVERIES_PER_FORKCHOICE_UPDATE,
    VERIFICATION_RETRY_INTERVAL,
};
use executor::task::{
    execute_validation, queue_consensus_request, run_payload_job, Build, ConsensusRequest,
    ExecutionTask, ExecutionTaskOutcome, ExecutionTaskType, FinalizedBlockRequest,
    PayloadJobAction, PayloadJobEvent, ProbeEvent,
};
use executor::walk::{handle_fetched_parent, PayloadRequest, PayloadWalk, WalkStep};
use std::sync::Arc;

type Executor = Actor<&'static str, u32, u32, u32>;
type Outcome = ExecutionTaskOutcome<&'static str, u32, u32, u32>;

fn digest(byte: u8) -> Digest {
    Digest([byte; 32])
}

fn round(view: u64) -> Round {
    Round::new(2, view)
}

fn block(byte: u8, height: Height, parent: u8) -> Arc<Block<&'static str>> {
    Arc::new(Block {
        digest: digest(byte),
        height,
        parent_digest: digest(parent),
        context: Context { round: round(height), parent: (height - 1, digest(parent)) },
        proposer: Some(PublicKey([byte; 32])),
        body: "body",
    })
}

fn config() -> Config {
    Config {
        finalized_floor: 10,
        finalized_tip: (round(12), 12, digest(12)),
        fcu_heartbeat_interval: 5_000_000_000,
        public_key: Some(PublicKey([11; 32])),
    }
}

/// An executor whose head and finalized block are at the height of ten, while
/// the network's finalized tip is two higher.
fn executor() -> Executor {
    match Actor::init(config(), (10, digest(10)), None) {
        Ok(actor) => actor,
        Err(error) => panic!("{error:?}"),
    }
}

fn verify_message(
    view: u64,
    block: Arc<Block<&'static str>>,
) -> Message<&'static str, u32, u32, u32> {
    Message::VerifyBlock {
        context: Context { round: round(view), parent: block.context.parent },
        block,
        validator_set: Some(vec![[9; 32]]),
        response: view as u32,
    }
}

fn build_message() -> Build<u32> {
    Build { context: Context { round: round(14), parent: (13, digest(13)) }, payload: 2 }
}

fn local(head: (Height, u8), finalized: (Height, u8)) -> LocalState {
    LocalState {
        head: (head.0, digest(head.1)),
        finalized: (finalized.0, digest(finalized.1)),
    }
}

fn valid() -> ForkchoiceUpdated {
    ForkchoiceUpdated { payload_status: PayloadStatus::Valid, payload_id: None }
}

fn rejected() -> PayloadStatus {
    PayloadStatus::Invalid { validation_error: "no".to_string() }
}

#[test]
fn names_of_tasks_and_outcomes() {
    assert_eq!(ExecutionTaskType::Heartbeat.name(), "heartbeat");
    assert_eq!(ExecutionTaskType::Verify.name(), "verify");
    assert_eq!(ExecutionTaskType::Build.name(), "build");
    assert_eq!(ExecutionTaskType::Deliver.name(), "deliver");
    assert_eq!(ExecutionTaskType::Finalize.name(), "finalize");
    assert_eq!(ExecutionTaskType::Forkchoice.name(), "forkchoice");

    let walk = PayloadWalk::converge(block(13, 13, 12));
    let validated: Outcome = execute_validation(walk, ProbeEvent::SubscriberGone);
    assert_eq!(validated.name(), "validated");
    assert_eq!(validated.target(), None);
    let request = FinalizedBlockRequest { block: block(11, 11, 10), acknowledgment: 0 };
    let delivered: Outcome =
        ExecutionTaskOutcome::FinalizedDelivered { request, status: Ok(PayloadStatus::Valid) };
    assert_eq!(delivered.name(), "finalized-delivered");
    let target = local((10, 10), (10, 10));
    let forkchoice: Outcome =
        ExecutionTaskOutcome::Forkchoice { target, build: None, response: None };
    assert_eq!(forkchoice.name(), "forkchoice");
    assert_eq!(forkchoice.target(), Some(target));
}

#[test]
fn rounds_are_ordered_by_epoch_then_view() {
    assert!(Round::new(2, 0).is_after(Round::new(1, 9)));
    assert!(Round::new(1, 2).is_after(Round::new(1, 1)));
    assert!(!Round::new(1, 1).is_after(Round::new(1, 1)));
    assert!(!Round::new(1, 9).is_after(Round::new(2, 0)));
}

#[test]
fn digests_differ_in_any_byte() {
    for at in [0, 15, 31] {
        let mut bytes = [7; 32];
        bytes[at] = 8;
        assert!(Digest(bytes) != Digest([7; 32]));
        assert!(PublicKey(bytes) != PublicKey([7; 32]));
    }
    assert!(Digest([7; 32]) == Digest([7; 32]));
}

#[test]
fn the_finalized_tip_takes_the_head_along() {
    let state = local((10, 1), (5, 2));
    assert_eq!(state.update_finalized(4, digest(3)), state);
    assert_eq!(state.update_finalized(5, digest(3)), state);
    assert_eq!(state.update_finalized(7, digest(3)), local((10, 1), (7, 3)));
    assert_eq!(state.update_finalized(10, digest(3)), local((10, 3), (10, 3)));
    assert_eq!(state.update_finalized(12, digest(3)), local((12, 3), (12, 3)));
    // Another block at the finalized height, where the head stands too.
    let level = local((5, 1), (5, 1));
    assert_eq!(level.update_finalized(5, digest(2)), level);
    assert_eq!(level.update_finalized(4, digest(2)), level);
    assert_eq!(level.update_finalized(6, digest(2)), local((6, 2), (6, 2)));
}

#[test]
fn the_head_moves_above_the_finalized_tip_or_onto_it() {
    let state = local((10, 1), (5, 2));
    assert_eq!(state.update_head(4, digest(3)), state);
    assert_eq!(state.update_head(5, digest(3)), state);
    assert_eq!(state.update_head(6, digest(3)), local((6, 3), (5, 2)));
    assert_eq!(state.update_head(5, digest(2)), local((5, 2), (5, 2)));
    // The finalized block's digest, at a height below it.
    let state_at_seven = local((7, 1), (5, 2));
    assert_eq!(state_at_seven.update_head(3, digest(2)), state_at_seven);
    let submitted = state.to_forkchoice_state();
    assert_eq!(submitted.head_block_hash, digest(1));
    assert_eq!(submitted.safe_block_hash, digest(2));
    assert_eq!(submitted.finalized_block_hash, digest(2));
}

#[test]
fn staleness_of_an_update() {
    let target = local((10, 1), (5, 2));
    assert_eq!(stale_read(target, 4), None);
    assert_eq!(stale_read(target, 5), Some(5));
    assert_eq!(stale_read(target, 9), Some(5));
    assert!(matches!(is_stale_forkchoice(target, 4, Err("unread".to_string())), Ok(false)));
    assert!(matches!(is_stale_forkchoice(target, 5, Ok(Some(digest(2)))), Ok(false)));
    assert!(matches!(is_stale_forkchoice(target, 6, Ok(Some(digest(2)))), Ok(true)));
    assert!(matches!(
        is_stale_forkchoice(target, 6, Ok(Some(digest(3)))),
        Err(ForkchoiceFailure::Conflict { height: 5, finalized, canonical })
            if finalized == digest(2) && canonical == digest(3)
    ));
    assert!(matches!(
        is_stale_forkchoice(target, 6, Ok(None)),
        Err(ForkchoiceFailure::CanonicalMissing { height: 5, execution_finalized: 6 })
    ));
    match is_stale_forkchoice(target, 6, Err("down".to_string())) {
        Err(ForkchoiceFailure::CanonicalRead { height, cause }) => {
            assert_eq!((height, cause.as_str()), (5, "down"));
        }
        other => panic!("{other:?}"),
    }
}

#[test]
fn stale_updates_are_not_submitted() {
    let target = local((10, 1), (5, 2));
    match submit_forkchoice_update(target, 5, Ok(Some(digest(2)))) {
        Submission::Send(state) => assert_eq!(state.head_block_hash, digest(1)),
        other => panic!("{other:?}"),
    }
    assert!(matches!(
        submit_forkchoice_update(target, 6, Ok(Some(digest(2)))),
        Submission::Skip
    ));
    assert!(matches!(
        submit_forkchoice_update(target, 6, Ok(None)),
        Submission::Fail(ForkchoiceFailure::CanonicalMissing { .. })
    ));
}

#[test]
fn a_build_nobody_waits_for_is_not_submitted() {
    let target = local((10, 1), (5, 2));
    let wanted = execute_forkchoice(target, Some(3), false, 0, Ok(None));
    assert_eq!(wanted.build, Some(3));
    assert_eq!(wanted.target, target);
    let unwanted = execute_forkchoice(target, Some(3), true, 0, Ok(None));
    assert_eq!(unwanted.build, None);
    assert!(matches!(unwanted.submission, Submission::Send(_)));
}

#[test]
fn statuses_agree_with_the_engine_types() {
    let pairs = [
        (PayloadStatus::Valid, alloy_rpc_types_engine::PayloadStatusEnum::Valid),
        (
            rejected(),
            alloy_rpc_types_engine::PayloadStatusEnum::Invalid {
                validation_error: "no".to_string(),
            },
        ),
        (PayloadStatus::Syncing, alloy_rpc_types_engine::PayloadStatusEnum::Syncing),
        (PayloadStatus::Accepted, alloy_rpc_types_engine::PayloadStatusEnum::Accepted),
    ];
    for (status, engine) in pairs {
        assert_eq!(status.is_valid(), engine.is_valid());
        let updated = ForkchoiceUpdated { payload_status: status, payload_id: None };
        let engine = alloy_rpc_types_engine::ForkchoiceUpdated::from_status(engine);
        assert_eq!(updated.is_valid(), engine.is_valid());
    }
}

#[test]
fn the_newest_request_keeps_the_slot() {
    let mut slot: Option<(Round, ConsensusRequest<(), u32, u32>)> = None;
    let build = |payload| {
        ConsensusRequest::Build(Build {
            context: Context { round: round(1), parent: (0, digest(0)) },
            payload,
        })
    };
    let held = |slot: &Option<(Round, ConsensusRequest<(), u32, u32>)>| match slot {
        Some((round, ConsensusRequest::Build(build))) => (round.view, build.payload),
        _ => panic!("no build is queued"),
    };
    queue_consensus_request(&mut slot, round(3), build(1));
    assert_eq!(held(&slot), (3, 1));
    queue_consensus_request(&mut slot, round(3), build(2));
    queue_consensus_request(&mut slot, round(2), build(3));
    assert_eq!(held(&slot), (3, 1));
    queue_consensus_request(&mut slot, round(4), build(4));
    assert_eq!(held(&slot), (4, 4));

    // Of a series, the first of the highest round.
    let mut slot = None;
    for (at, view) in [2, 5, 3, 7, 5, 7, 6].into_iter().enumerate() {
        queue_consensus_request(&mut slot, round(view), build(at as u32));
    }
    assert_eq!(held(&slot), (7, 3));
}

#[test]
fn gauges() {
    let state = local((10, 1), (5, 2));
    let readings = observe(state, 12, Some(14));
    assert_eq!(readings.finalization_lag, 7);
    assert_eq!(readings.convergence_depth, Some(4));
    let readings = observe(state, 3, Some(7));
    assert_eq!(readings.finalization_lag, 0);
    assert_eq!(readings.convergence_depth, Some(-3));
    let readings = observe(state, 5, None);
    assert_eq!(readings.convergence_depth, None);
    let readings = observe(local((0, 1), (0, 2)), u64::MAX, Some(u64::MAX));
    assert_eq!(readings.finalization_lag, -1);
    assert_eq!(readings.convergence_depth, Some(-1));
}

#[test]
fn an_order_is_handed_out_once() {
    let mut slot = Background::Ordered(4);
    assert_eq!(slot.work(), Some(4));
    assert_eq!(slot.start(), Some(4));
    assert_eq!(slot.start(), None);
    assert_eq!(slot.work(), Some(4));
    assert!(!slot.is_idle());
    slot = Background::Idle;
    assert_eq!(slot.start(), None);
    assert!(slot.is_idle());
}

#[test]
fn a_map_of_blocks() {
    let mut map: BlockMap<Height> = BlockMap::new();
    map.insert(digest(1), 1);
    map.insert(digest(2), 2);
    map.insert(digest(3), 3);
    map.insert(digest(2), 4);
    assert_eq!(map.get(digest(1)), Some(&1));
    assert_eq!(map.get(digest(2)), Some(&4));
    map.remove(digest(1));
    map.remove(digest(9));
    assert_eq!(map.get(digest(1)), None);
    assert_eq!(map.get(digest(3)), Some(&3));
    map.retain_above(3);
    assert_eq!(map.get(digest(3)), None);
    assert_eq!(map.get(digest(2)), Some(&4));
}

#[test]
fn fetches_follow_what_is_wanted() {
    let mut slot = Background::Idle;
    update_block_fetch(&mut slot, Some((round(1), digest(1))));
    assert!(matches!(
        slot.start(),
        Some(BlockFetch { round: r, digest: d }) if r == round(1) && d == digest(1)
    ));
    update_block_fetch(&mut slot, Some((round(2), digest(1))));
    assert!(matches!(slot, Background::Running(_)), "the same block under another round");
    update_block_fetch(&mut slot, Some((round(2), digest(2))));
    assert!(matches!(slot, Background::Ordered(_)));
    update_block_fetch(&mut slot, None);
    assert!(slot.is_idle());
}

#[test]
fn the_start_is_the_lower_of_floor_and_execution_finality() {
    let actor: Executor = executor();
    assert_eq!(actor.local_state, local((10, 10), (10, 10)));
    assert_eq!(actor.delivered_finalized, (10, digest(10)));
    assert_eq!(actor.pending_head.digest, digest(12));
    assert_eq!(actor.pending_head.height, Some(12));
    assert_eq!(actor.next_backfill_height(None), None);

    let actor: Executor = match Actor::init(config(), (7, digest(7)), None) {
        Ok(actor) => actor,
        Err(error) => panic!("{error:?}"),
    };
    assert_eq!(actor.local_state, local((7, 7), (7, 7)));
    assert_eq!(actor.next_backfill_height(None), Some(8));
    assert_eq!(actor.next_backfill_height(Some(9)), Some(10));
    assert_eq!(actor.next_backfill_height(Some(10)), None);

    assert!(matches!(config().startup_read((10, digest(10))), Ok(None)));
    assert!(matches!(config().startup_read((11, digest(11))), Ok(Some(10))));
    let actor: Executor = match Actor::init(config(), (11, digest(11)), Some(digest(99))) {
        Ok(actor) => actor,
        Err(error) => panic!("{error:?}"),
    };
    assert_eq!(actor.local_state, local((10, 99), (10, 99)));
}

#[test]
fn what_the_executor_does_not_start_with() {
    let below = Config { finalized_tip: (round(9), 9, digest(9)), ..config() };
    assert!(matches!(
        below.startup_read((10, digest(10))),
        Err(Error::TipBelowFloor { tip: 9, floor: 10 })
    ));
    let refused: Result<Executor, Error> = Actor::init(below, (10, digest(10)), None);
    assert!(matches!(refused, Err(Error::TipBelowFloor { tip: 9, floor: 10 })));
    let refused: Result<Executor, Error> = Actor::init(config(), (11, digest(11)), None);
    assert!(matches!(
        refused,
        Err(Error::FloorMissing { floor: 10, execution_finalized: 11 })
    ));
}

#[test]
fn the_execution_layer_is_polled_every_second() {
    assert_eq!(wait_for_execution_layer(true), None);
    assert_eq!(wait_for_execution_layer(false), Some(1_000_000_000));
    assert_eq!(VERIFICATION_RETRY_INTERVAL, 1_000_000_000);
    assert_eq!(CONVERGENCE_RETRY_INTERVAL, 10_000_000_000);
    assert_eq!(DELIVERIES_PER_FORKCHOICE_UPDATE, 8);
}

#[test]
fn the_search_for_a_block() {
    let b = block(5, 5, 4);
    assert!(matches!(
        get_block(5, BlockLookup::Consensus(Some(b.clone()))),
        Ok(LookupStep::Found(found)) if found.digest == digest(5)
    ));
    assert!(matches!(
        get_block::<()>(5, BlockLookup::Consensus(None)),
        Ok(LookupStep::AskFinalization)
    ));
    assert!(matches!(
        get_block::<()>(5, BlockLookup::Finalization(Some(digest(5)))),
        Ok(LookupStep::AskExecution(asked)) if asked == digest(5)
    ));
    assert!(matches!(
        get_block::<()>(5, BlockLookup::Finalization(None)),
        Err(Error::FinalizationUnknown { height: 5 })
    ));
    assert!(matches!(
        get_block(5, BlockLookup::Execution { digest: digest(5), block: Some(b) }),
        Ok(LookupStep::Found(found)) if found.digest == digest(5)
    ));
    assert!(matches!(
        get_block::<()>(5, BlockLookup::Execution { digest: digest(5), block: None }),
        Err(Error::BlockMissing { height: 5, digest: missing }) if missing == digest(5)
    ));
}

#[test]
fn payload_jobs() {
    let finished = |action: PayloadJobAction<&'static str, u8>| match action {
        PayloadJobAction::Finish(block) => block.map(|block| block.digest),
        PayloadJobAction::Send(payload) => panic!("sends {payload}"),
    };
    assert_eq!(finished(run_payload_job(PayloadJobEvent::SubscriberGone)), None);
    assert_eq!(finished(run_payload_job(PayloadJobEvent::Resolved(None))), None);
    let failed = Some(Err("failed".to_string()));
    assert_eq!(finished(run_payload_job(PayloadJobEvent::Resolved(failed))), None);
    assert!(matches!(
        run_payload_job(PayloadJobEvent::<(), u8>::Resolved(Some(Ok(4)))),
        PayloadJobAction::Send(4)
    ));
    let b = block(5, 5, 4);
    let sent = |received| PayloadJobEvent::Sent { received, block: b.clone() };
    assert_eq!(finished(run_payload_job(sent(true))), Some(digest(5)));
    assert_eq!(finished(run_payload_job(sent(false))), None);
}

#[test]
fn a_walk_goes_back_to_its_candidate() {
    let candidate = block(15, 15, 14);
    let mut walk = PayloadWalk::new(PayloadRequest {
        parent_round: round(14),
        block: candidate,
        validator_set: Some(vec![[1; 32], [2; 32]]),
        response: Some(()),
    });
    assert!(walk.is_candidate());
    assert_eq!(walk.parent(), (round(14), digest(14)));
    assert_eq!(walk.validator_set(), Some(&vec![[1; 32], [2; 32]]));
    walk.step = WalkStep::Parent;

    let mut slot = Some(walk);
    handle_fetched_parent(&mut slot, digest(14), None);
    assert!(slot.as_ref().is_some_and(|walk| walk.step == WalkStep::Parent));
    handle_fetched_parent(&mut slot, digest(14), Some(block(14, 14, 13)));
    let mut walk = match slot {
        Some(walk) => walk,
        None => panic!("the walk ended"),
    };
    assert_eq!(walk.cursor.digest, digest(14));
    assert_eq!(walk.step, WalkStep::Probe);
    assert!(!walk.is_candidate());
    assert_eq!(walk.parent(), (round(13), digest(13)));
    assert_eq!(walk.validator_set(), None);

    walk.reprobe();
    assert_eq!(walk.cursor.digest, digest(15));
    assert!(walk.reprobed);
    walk.retry();
    assert_eq!(walk.cursor.digest, digest(15));
    assert!(!walk.reprobed);

    // Not the block asked for, and not just below the cursor.
    let mut slot = Some(PayloadWalk::<_, ()>::converge(block(15, 15, 14)));
    handle_fetched_parent(&mut slot, digest(14), Some(block(13, 14, 12)));
    assert!(slot.is_none());
    let mut slot = Some(PayloadWalk::<_, ()>::converge(block(15, 15, 14)));
    handle_fetched_parent(&mut slot, digest(14), Some(block(14, 13, 12)));
    assert!(slot.is_none());
}

#[test]
fn cancellation_needs_a_subscriber() {
    let walk: PayloadWalk<_, ()> = PayloadWalk::converge(block(15, 15, 14));
    assert!(!walk.request.is_canceled(true));
    let request = PayloadRequest {
        parent_round: round(14),
        block: block(15, 15, 14),
        validator_set: None,
        response: Some(()),
    };
    assert!(request.is_canceled(true));
    assert!(!request.is_canceled(false));
}

#[test]
fn what_ends_a_probe() {
    let walk = PayloadWalk::converge(block(15, 15, 14));
    let answered: Outcome =
        execute_validation(walk, ProbeEvent::Answered(Ok((PayloadStatus::Syncing, 5))));
    assert!(matches!(
        answered,
        ExecutionTaskOutcome::Validated {
            request: Some(_),
            status: Ok((PayloadStatus::Syncing, 5))
        }
    ));
    let walk = PayloadWalk::converge(block(15, 15, 14));
    let abandoned: Outcome = execute_validation(walk, ProbeEvent::SubscriberGone);
    match abandoned {
        ExecutionTaskOutcome::Validated { request: None, status: Err(cause) } => {
            assert_eq!(cause, "verification subscriber went away");
        }
        other => panic!("{other:?}"),
    }
}

#[test]
fn a_valid_answer_proves_the_block_and_its_parent() {
    let mut actor = executor();
    actor.record_valid_block(&block(14, 14, 13));
    assert_eq!(actor.known_height(digest(14)), Some(14));
    assert_eq!(actor.known_height(digest(13)), Some(13));
    // Nothing at or below the finalized tip is remembered ...
    actor.record_valid_block(&block(13, 13, 12));
    assert_eq!(actor.known_blocks.get(digest(12)), None);
    // ... but it tells the height of the pending head.
    assert_eq!(actor.pending_head.height, Some(12));
    assert_eq!(actor.known_height(digest(10)), Some(10));
    assert_eq!(actor.known_height(digest(99)), None);
}

#[test]
fn failed_validations() {
    let mut actor = executor();
    let request = |block| PayloadRequest {
        parent_round: round(13),
        block,
        validator_set: None,
        response: Some(8),
    };
    let failed = actor.handle_validated(
        Some(PayloadWalk::new(request(block(14, 14, 13)))),
        Err("down".to_string()),
    );
    assert!(matches!(failed, Err(Error::DeliveryFailed { cause }) if cause == "down"));
    let accepted = actor.handle_validated(
        Some(PayloadWalk::new(request(block(14, 14, 13)))),
        Ok((PayloadStatus::Accepted, 1)),
    );
    assert!(matches!(accepted, Err(Error::AcceptedWithoutExecution)));
    assert!(actor.verification.is_none());
    assert!(matches!(actor.handle_validated(None, Err("gone".to_string())), Ok(None)));
    assert_eq!(actor.deliveries_since_forkchoice, 3);
    match actor.handle_validated(
        Some(PayloadWalk::new(request(block(14, 14, 13)))),
        Ok((rejected(), 1)),
    ) {
        Ok(Some(reply)) => assert_eq!((reply.response, reply.verdict), (8, None)),
        other => panic!("{other:?}"),
    }
}

#[test]
fn syncing_forgets_what_was_known() {
    let mut actor = executor();
    actor.record_valid_block(&block(14, 14, 13));
    let walk = PayloadWalk::new(PayloadRequest {
        parent_round: round(13),
        block: block(14, 14, 13),
        validator_set: None,
        response: Some(1),
    });
    assert!(matches!(
        actor.handle_validated(Some(walk), Ok((PayloadStatus::Syncing, 1))),
        Ok(None)
    ));
    assert_eq!(actor.known_height(digest(14)), None);
    assert_eq!(actor.known_height(digest(13)), None);
    assert!(actor.verification.as_ref().is_some_and(|walk| walk.step == WalkStep::Parent));
}

#[test]
fn finalized_deliveries() {
    let mut actor = executor();
    let request = |byte, height| FinalizedBlockRequest {
        block: block(byte, height, byte - 1),
        acknowledgment: 1,
    };
    assert!(matches!(
        actor.handle_finalized_delivered(request(11, 11), Ok(PayloadStatus::Syncing)),
        Err(Error::FinalizedNotValid { digest: d, height: 11, status: PayloadStatus::Syncing })
            if d == digest(11)
    ));
    assert!(matches!(
        actor.handle_finalized_delivered(request(11, 11), Err("down".to_string())),
        Err(Error::FinalizedDeliveryFailed { digest: d, height: 11, cause })
            if d == digest(11) && cause == "down"
    ));
    assert_eq!(actor.deliveries_since_forkchoice, 0);
    assert!(matches!(
        actor.handle_finalized_delivered(request(11, 11), Ok(PayloadStatus::Valid)),
        Ok(Delivered::Queued)
    ));
    assert_eq!(actor.delivered_finalized, (11, digest(11)));
    assert_eq!(actor.pending_acknowledgements.len(), 1);
    assert!(matches!(
        actor.handle_finalized_delivered(request(10, 10), Ok(PayloadStatus::Valid)),
        Ok(Delivered::Redelivered(_))
    ));
    assert_eq!(actor.delivered_finalized, (11, digest(11)));
    assert_eq!(actor.deliveries_since_forkchoice, 2);
}

#[test]
fn redelivered_blocks_are_confirmed() {
    let actor = executor();
    let request = || FinalizedBlockRequest { block: block(11, 10, 9), acknowledgment: 4 };
    match actor.confirm_redelivered(request(), Some(digest(11))) {
        Ok(acknowledgement) => {
            assert_eq!(acknowledgement.request.acknowledgment, 4);
            assert!(acknowledgement.proposed_by_self, "the key of the proposer is this node's");
        }
        Err(error) => panic!("{error:?}"),
    }
    assert!(matches!(
        actor.confirm_redelivered(request(), Some(digest(7))),
        Err(Error::FinalizedConflict { height: 10, canonical: Some(c), .. }) if c == digest(7)
    ));
    assert!(matches!(
        actor.confirm_redelivered(request(), None),
        Err(Error::FinalizedConflict { height: 10, canonical: None, .. })
    ));
}

#[test]
fn blocks_are_acknowledged_by_the_update_that_finalizes_them() {
    let mut actor = executor();
    for height in 11..=13 {
        let request = FinalizedBlockRequest {
            block: block(height as u8, height, height as u8 - 1),
            acknowledgment: height as u32,
        };
        let delivered = actor.handle_finalized_delivered(request, Ok(PayloadStatus::Valid));
        assert!(matches!(delivered, Ok(Delivered::Queued)));
    }
    let target = local((12, 12), (12, 12));
    let accepted = match actor.handle_forkchoice_response(target, Some(5), Some(Ok(valid()))) {
        Ok(accepted) => accepted,
        Err(error) => panic!("{error:?}"),
    };
    let acknowledged: Vec<(u32, bool)> = accepted
        .acknowledged
        .iter()
        .map(|ack| (ack.request.acknowledgment, ack.proposed_by_self))
        .collect();
    assert_eq!(acknowledged, vec![(11, true), (12, false)]);
    assert!(accepted.job.is_none(), "the answer named no payload");
    assert_eq!(actor.local_state, target);
    assert_eq!(actor.pending_acknowledgements.len(), 1);

    let target = local((13, 13), (13, 13));
    let accepted = match actor.handle_forkchoice_response(target, Some(5), None) {
        Ok(accepted) => accepted,
        Err(error) => panic!("{error:?}"),
    };
    assert_eq!(accepted.acknowledged.len(), 1);
    assert!(accepted.job.is_none(), "nothing was submitted");
    assert_eq!(actor.local_state, target);
}

#[test]
fn an_update_starts_the_build_it_carries() {
    let mut actor = executor();
    let target = actor.local_state;
    let updated =
        ForkchoiceUpdated { payload_status: PayloadStatus::Valid, payload_id: Some([3; 8]) };
    match actor.handle_forkchoice_response(target, Some(5), Some(Ok(updated))) {
        Ok(accepted) => match accepted.job {
            Some(job) => assert_eq!((job.payload_id, job.payload), ([3; 8], 5)),
            None => panic!("no job"),
        },
        Err(error) => panic!("{error:?}"),
    }
}

#[test]
fn a_failed_update_is_fatal() {
    let target = local((12, 12), (12, 12));
    let mut actor = executor();
    let before = actor.local_state;
    let failed = actor.handle_forkchoice_response(
        target,
        None,
        Some(Err(ForkchoiceFailure::Transport("down".to_string()))),
    );
    assert!(matches!(
        failed,
        Err(Error::ForkchoiceDiverged { target: t, failure: ForkchoiceFailure::Transport(cause) })
            if t == target && cause == "down"
    ));
    for payload_status in [PayloadStatus::Syncing, PayloadStatus::Accepted, rejected()] {
        let updated = ForkchoiceUpdated { payload_status, payload_id: None };
        assert!(matches!(
            actor.handle_forkchoice_response(target, None, Some(Ok(updated))),
            Err(Error::ForkchoiceDiverged { failure: ForkchoiceFailure::NotValid(_), .. })
        ));
    }
    assert_eq!(actor.local_state, before);
}

#[test]
fn a_long_run_of_deliveries_forces_an_update() {
    let mut actor = executor();
    actor.delivered_finalized = (11, digest(11));
    let request = FinalizedBlockRequest { block: block(12, 12, 11), acknowledgment: 0 };
    actor.handle_message(Message::Finalized(request));
    actor.deliveries_since_forkchoice = 8;
    match actor.start_next_execution_task() {
        Scheduled::Task(ExecutionTask::Forkchoice { target }) => {
            assert_eq!(target, local((11, 11), (11, 11)));
        }
        other => panic!("{other:?}"),
    }
    assert_eq!(actor.deliveries_since_forkchoice, 0);
    assert_eq!(actor.pending_finalizations.len(), 1);
}

#[test]
fn finalized_deliveries_go_before_the_update() {
    let mut actor = executor();
    actor.delivered_finalized = (11, digest(11));
    let request = FinalizedBlockRequest { block: block(12, 12, 11), acknowledgment: 6 };
    actor.handle_message(Message::Finalized(request));
    actor.deliveries_since_forkchoice = 7;
    assert!(matches!(
        actor.start_next_execution_task(),
        Scheduled::Task(ExecutionTask::Finalize(request)) if request.acknowledgment == 6
    ));
    // One task at a time.
    assert!(matches!(actor.start_next_execution_task(), Scheduled::Idle));
}

#[test]
fn consensus_requests_go_first() {
    let mut actor = executor();
    actor.delivered_finalized = (11, digest(11));
    actor.deliveries_since_forkchoice = 9;
    actor.handle_message(verify_message(14, block(14, 14, 13)));
    match actor.start_next_execution_task() {
        Scheduled::Task(ExecutionTask::Verify(walk)) => {
            assert!(walk.is_candidate());
            assert_eq!(walk.request.response, Some(14));
            assert_eq!(walk.request.parent_round, round(13));
        }
        other => panic!("{other:?}"),
    }
}

#[test]
fn a_build_waits_for_its_parent_to_be_the_head() {
    let mut actor = executor();
    let build = build_message();
    actor.handle_message(Message::Build { build, subscriber_gone: false });
    assert_eq!(actor.pending_head.digest, digest(13));
    assert!(matches!(actor.start_next_execution_task(), Scheduled::Idle));
    assert!(actor.pending_consensus_request.is_some());
    // The parent is executed: the head moves onto it first.
    actor.record_valid_block(&block(13, 13, 12));
    let target = match actor.start_next_execution_task() {
        Scheduled::Task(ExecutionTask::Forkchoice { target }) => target,
        other => panic!("{other:?}"),
    };
    assert_eq!(target, local((13, 13), (10, 10)));
    let answer =
        ExecutionTaskOutcome::Forkchoice { target, build: None, response: Some(Ok(valid())) };
    assert!(matches!(actor.handle_event(Event::Answer(answer)), Ok(Action::Accepted(_))));
    match actor.start_next_execution_task() {
        Scheduled::Task(ExecutionTask::Build { target: on, build }) => {
            assert_eq!(on, target);
            assert_eq!(build.payload, 2);
        }
        other => panic!("{other:?}"),
    }
}

#[test]
fn an_overtaken_build_is_dropped() {
    let mut actor = executor();
    let build = build_message();
    actor.handle_message(Message::Build { build, subscriber_gone: false });
    actor.handle_message(Message::Tip { round: round(15), height: 13, digest: digest(15) });
    assert!(matches!(actor.start_next_execution_task(), Scheduled::Idle));
    assert!(actor.pending_consensus_request.is_none());
}

#[test]
fn a_canceled_build_still_selects_its_parent() {
    let mut actor = executor();
    let build = build_message();
    actor.handle_message(Message::Build { build, subscriber_gone: true });
    assert!(actor.pending_consensus_request.is_none());
    assert_eq!(actor.pending_head.digest, digest(13));
    assert!(actor.pending_head.requires_delivery);
    assert_eq!(actor.latest_consensus_round, round(14));
}

#[test]
fn an_older_round_does_not_select_the_head() {
    let mut actor = executor();
    actor.record_convergence_target(round(14), (13, digest(13)), true);
    actor.record_convergence_target(round(13), (12, digest(77)), false);
    assert_eq!(actor.pending_head.digest, digest(13));
    // The same round again does, and keeps the height that is known.
    actor.pending_head.height = Some(13);
    actor.record_convergence_target(round(14), (13, digest(13)), false);
    assert_eq!(actor.pending_head.height, Some(13));
    assert!(!actor.pending_head.requires_delivery);
    // The tip itself does not go back.
    actor.handle_message(Message::Tip { round: round(11), height: 11, digest: digest(11) });
    assert_eq!(actor.network_finalized_tip, (round(12), 12, digest(12)));
}

#[test]
fn finality_overtakes_what_is_known() {
    let mut actor = executor();
    actor.record_valid_block(&block(14, 14, 13));
    actor.retain_built_block(block(20, 13, 12));
    actor.retain_built_block(block(21, 14, 13));
    actor.record_convergence_target(round(13), (12, digest(30)), true);
    actor.handle_message(Message::Tip { round: round(13), height: 13, digest: digest(13) });
    actor.prune_finalized();
    assert_eq!(actor.known_height(digest(13)), None);
    assert_eq!(actor.known_height(digest(14)), Some(14));
    assert!(actor.built_blocks.get(digest(20)).is_none());
    assert!(actor.built_blocks.get(digest(21)).is_some());
    assert_eq!(actor.pending_head.digest, digest(13));
    assert_eq!(actor.pending_head.height, Some(13));
}

#[test]
fn a_built_parent_is_delivered_without_a_fetch() {
    let mut actor = executor();
    actor.retain_built_block(block(13, 13, 12));
    actor.record_convergence_target(round(14), (13, digest(13)), true);
    actor.update_block_fetches();
    assert!(actor.pending_convergence_block.is_idle());
    assert_eq!(actor.pending_head.height, Some(13));
    match &actor.convergence {
        Some(walk) => {
            assert_eq!(walk.cursor.digest, digest(13));
            assert_eq!(walk.cursor.body, "body");
            assert_eq!(walk.request.parent_round, round(12));
            assert_eq!(walk.request.response, None);
        }
        None => panic!("no walk"),
    }
    assert!(matches!(
        actor.start_next_execution_task(),
        Scheduled::Task(ExecutionTask::Deliver(_))
    ));
    // While it is being delivered, nothing is fetched.
    actor.update_block_fetches();
    assert!(actor.pending_convergence_block.is_idle());
}

#[test]
fn a_fetched_parent_begins_its_delivery() {
    let mut actor = executor();
    actor.record_convergence_target(round(14), (13, digest(13)), true);
    actor.update_block_fetches();
    assert!(matches!(
        actor.pending_convergence_block.start(),
        Some(BlockFetch { round: r, digest: d }) if r == round(13) && d == digest(13)
    ));
    actor.handle_fetched_convergence_block(digest(13), None);
    assert!(actor.convergence.is_none());
    actor.handle_fetched_convergence_block(digest(13), Some(block(14, 13, 12)));
    assert!(actor.convergence.is_none(), "another block");
    actor.handle_fetched_convergence_block(digest(13), Some(block(13, 13, 12)));
    assert!(actor.convergence.is_some());
    assert_eq!(actor.pending_head.height, Some(13));

    let mut actor = executor();
    actor.record_convergence_target(round(14), (13, digest(13)), true);
    actor.handle_fetched_convergence_block(digest(13), Some(block(13, 12, 11)));
    assert!(actor.convergence.is_none());
    assert_eq!(actor.pending_head.digest, digest(12), "finality has overtaken the parent");
}

#[test]
fn walks_rest_at_finality() {
    let mut actor = executor();
    for (byte, height, parent, step) in [
        (15, 15, 14, WalkStep::Parent),
        (14, 14, 13, WalkStep::Parent),
        (13, 13, 44, WalkStep::Retry),
        (15, 15, 12, WalkStep::Retry),
    ] {
        let mut walk = PayloadWalk::new(PayloadRequest {
            parent_round: round(height - 1),
            block: block(byte, height, parent),
            validator_set: None,
            response: Some(1),
        });
        walk.step = WalkStep::Parent;
        actor.verification = Some(walk);
        actor.verification_retry = Background::Idle;
        actor.prepare_walks(false);
        assert!(actor.verification.as_ref().is_some_and(|walk| walk.step == step));
        assert_eq!(actor.verification_retry.is_idle(), step == WalkStep::Parent);
    }
    assert_eq!(actor.verification_retry.work(), Some(1_000_000_000));
    actor.prepare_walks(true);
    assert!(actor.verification.is_none());
    assert!(actor.verification_retry.is_idle());
}

#[test]
fn the_heartbeat_timer_runs_while_there_is_nothing_to_do() {
    let mut actor = executor();
    actor.update_fcu_heartbeat_timer();
    assert_eq!(actor.fcu_heartbeat_timer.work(), Some(5_000_000_000));
    let request = FinalizedBlockRequest { block: block(11, 11, 10), acknowledgment: 0 };
    actor.handle_message(Message::Finalized(request));
    actor.update_fcu_heartbeat_timer();
    assert!(actor.fcu_heartbeat_timer.is_idle());
}

#[test]
fn a_heartbeat_gives_way_to_real_work() {
    let mut actor = executor();
    match actor.handle_event(Event::Heartbeat) {
        Ok(Action::Scheduled(Scheduled::Task(ExecutionTask::Heartbeat { target }))) => {
            assert_eq!(target, actor.local_state);
        }
        other => panic!("{other:?}"),
    }
    assert!(matches!(actor.send_forkchoice_update_heartbeat(), Scheduled::Idle));
    let mut actor = executor();
    actor.delivered_finalized = (11, digest(11));
    assert!(matches!(
        actor.handle_event(Event::Heartbeat),
        Ok(Action::Scheduled(Scheduled::Task(ExecutionTask::Forkchoice { .. })))
    ));
    // The delivery of a build's parent goes before re-affirming ...
    let mut actor = executor();
    actor.convergence = Some(PayloadWalk::converge(block(13, 13, 12)));
    assert!(matches!(
        actor.handle_event(Event::Heartbeat),
        Ok(Action::Scheduled(Scheduled::Task(ExecutionTask::Deliver(_))))
    ));
    // ... and so does a consensus request.
    let mut actor = executor();
    actor.handle_message(verify_message(14, block(14, 14, 13)));
    assert!(matches!(
        actor.handle_event(Event::Heartbeat),
        Ok(Action::Scheduled(Scheduled::Task(ExecutionTask::Verify(_))))
    ));
}

#[test]
fn only_accepted_updates_are_tracked() {
    let mut actor = executor();
    let before = actor.local_state;
    let request = FinalizedBlockRequest { block: block(11, 11, 10), acknowledgment: 0 };
    let delivered =
        ExecutionTaskOutcome::FinalizedDelivered { request, status: Ok(PayloadStatus::Valid) };
    assert!(matches!(actor.handle_event(Event::Answer(delivered)), Ok(Action::Continue)));
    actor.handle_message(Message::Tip { round: round(13), height: 13, digest: digest(13) });
    let begun = actor.begin_iteration(false);
    assert_eq!(actor.local_state, before, "an update in flight is not tracked yet");
    let target = match begun.scheduled {
        Scheduled::Task(ExecutionTask::Forkchoice { target }) => target,
        other => panic!("{other:?}"),
    };
    let failed = ExecutionTaskOutcome::Forkchoice {
        target,
        build: None,
        response: Some(Err(ForkchoiceFailure::Transport("down".to_string()))),
    };
    assert!(actor.handle_event(Event::Answer(failed)).is_err());
    assert_eq!(actor.local_state, before);
    let stale = ExecutionTaskOutcome::Forkchoice { target, build: None, response: None };
    assert!(matches!(actor.handle_event(Event::Answer(stale)), Ok(Action::Accepted(_))));
    assert_eq!(actor.local_state, target);
}

#[test]
fn a_head_that_stays_is_checked_against_finality() {
    let mut actor = executor();
    actor.local_state = local((14, 14), (10, 10));
    actor.pending_head.digest = digest(50);
    actor.delivered_finalized = (11, digest(11));
    assert_eq!(actor.canonical_read(), Some(11));
    assert!(matches!(actor.start_next_execution_task(), Scheduled::ReadCanonical(11)));
    assert_eq!(
        actor.next_forkchoice_target(Some(digest(11))),
        Some(local((14, 14), (11, 11)))
    );
    for canonical in [None, Some(digest(61))] {
        assert_eq!(actor.next_forkchoice_target(canonical), Some(local((11, 11), (11, 11))));
    }
    assert!(actor.start_forkchoice_update(Some(digest(11))).is_some());
    let mut actor = executor();
    assert_eq!(actor.canonical_read(), None);
    assert_eq!(actor.next_forkchoice_target(None), None);
    assert!(actor.start_forkchoice_update(None).is_none());
}

#[test]
fn a_closed_mailbox_ends_the_executor() {
    let mut actor = executor();
    assert!(matches!(actor.handle_event(Event::MailboxClosed), Ok(Action::Stop)));
}

#[test]
fn an_iteration_prunes_prepares_fetches_and_schedules() {
    // Finality overtakes the pending head before anything else looks at it.
    let mut actor = executor();
    actor.record_convergence_target(round(12), (11, digest(30)), true);
    let begun = actor.begin_iteration(false);
    assert_eq!(begun.pending_height, Some(12));
    assert!(actor.pending_convergence_block.is_idle());
    assert!(matches!(begun.scheduled, Scheduled::Idle));

    // The body that this node built is taken up and delivered at once, and the
    // gauges have not seen its height yet.
    let mut actor = executor();
    actor.retain_built_block(block(13, 13, 12));
    actor.record_convergence_target(round(14), (13, digest(13)), true);
    let begun = actor.begin_iteration(false);
    assert_eq!(begun.pending_height, None);
    assert_eq!(actor.pending_head.height, Some(13));
    assert!(matches!(begun.scheduled, Scheduled::Task(ExecutionTask::Deliver(_))));

    // A canceled verification is not probed, and its fetch is given up.
    let mut actor = executor();
    let mut walk = PayloadWalk::new(PayloadRequest {
        parent_round: round(14),
        block: block(15, 15, 14),
        validator_set: None,
        response: Some(1),
    });
    walk.step = WalkStep::Parent;
    actor.verification = Some(walk);
    assert!(matches!(actor.begin_iteration(false).scheduled, Scheduled::Idle));
    assert!(!actor.pending_verification_block.is_idle());
    assert!(matches!(actor.begin_iteration(true).scheduled, Scheduled::Idle));
    assert!(actor.pending_verification_block.is_idle());
}
