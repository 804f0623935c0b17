//! Runs the executor against a fake execution layer and a fake block store, in
//! virtual time.

use executor::actor::Actor;
use executor::background::Background;
use executor::chain::{Block, Context, Digest, Nanos, Round};
use executor::engine::{
    execute_forkchoice, stale_read, ForkchoiceState, ForkchoiceUpdated,
    PayloadStatus, Submission,
};
use executor::error::{Error, ForkchoiceFailure};
use executor::mailbox::Message;
use executor::metrics::observe;
use executor::run::{Action, Event};
use executor::startup::{get_block, BlockLookup, Config, LookupStep};
use executor::state::{BlockFetch, Scheduled};
use executor::task::{
    execute_validation, run_payload_job, Acknowledgement, Build, ExecutionTask,
    ExecutionTaskOutcome, FinalizedBlockRequest, PayloadJobAction, PayloadJobEvent, ProbeEvent,
    StartPayloadJob,
};
use std::cell::Cell;
use std::collections::{HashMap, VecDeque};
use std::rc::{Rc, Weak};
use std::sync::Arc;

const GENESIS: Digest = Digest([0; 32]);
const MILLIS: Nanos = 1_000_000;
const SECONDS: Nanos = 1_000_000_000;

fn round(view: u64) -> Round {
    Round::new(0, view)
}

/// A block of `view` at `height`. Its parent was notarized in the view before.
fn make_block(view: u64, height: u64, parent_digest: Digest) -> Arc<Block<()>> {
    let mut bytes = [0; 32];
    bytes[0] = view as u8;
    bytes[1] = height as u8;
    bytes[2..32].copy_from_slice(&parent_digest.0[0..30]);
    Arc::new(Block {
        digest: Digest(bytes),
        height,
        parent_digest,
        context: Context { round: round(view), parent: (view - 1, parent_digest) },
        proposer: None,
        body: (),
    })
}

/// The sending half of a channel for one value.
struct Sender<T> {
    value: Weak<Cell<Option<T>>>,
    dropped: Rc<Cell<bool>>,
}

impl<T> Sender<T> {
    fn is_canceled(&self) -> bool {
        self.value.upgrade().is_none()
    }

    fn send(self, value: T) -> bool {
        match self.value.upgrade() {
            Some(slot) => {
                slot.set(Some(value));
                true
            }
            None => false,
        }
    }
}

impl<T> Drop for Sender<T> {
    fn drop(&mut self) {
        self.dropped.set(true);
    }
}

/// The receiving half of a channel for one value.
struct Receiver<T> {
    value: Rc<Cell<Option<T>>>,
    dropped: Rc<Cell<bool>>,
}

impl<T> Receiver<T> {
    fn is_pending(&self) -> bool {
        !self.dropped.get()
    }
}

fn channel<T>() -> (Sender<T>, Receiver<T>) {
    let value = Rc::new(Cell::new(None));
    let dropped = Rc::new(Cell::new(false));
    let sender = Sender { value: Rc::downgrade(&value), dropped: dropped.clone() };
    (sender, Receiver { value, dropped })
}

type Verdict = Sender<Option<Nanos>>;
type Payload = Sender<Arc<Block<()>>>;
type Ack = Sender<()>;
type Executor = Actor<(), Verdict, Payload, Ack>;
type Task = ExecutionTask<(), Verdict, Payload, Ack>;
type Outcome = ExecutionTaskOutcome<(), Verdict, Payload, Ack>;

/// An execution layer. It executes a block whose parent it has executed,
/// buffers any other, and connects what it buffered later on.
struct FakeExecution {
    blocks: HashMap<[u8; 32], Arc<Block<()>>>,
    executed: Vec<Digest>,
    buffered: Vec<Arc<Block<()>>>,
    scripts: HashMap<[u8; 32], VecDeque<Result<PayloadStatus, String>>>,
    delayed: Option<(Digest, bool)>,
    built: VecDeque<Option<Result<Arc<Block<()>>, String>>>,
    new_payloads: Vec<Digest>,
    fcus: Vec<(Digest, Digest, bool)>,
    head: Digest,
    finalized: (u64, Digest),
}

impl FakeExecution {
    fn new() -> Self {
        FakeExecution {
            blocks: HashMap::new(),
            executed: vec![GENESIS],
            buffered: Vec::new(),
            scripts: HashMap::new(),
            delayed: None,
            built: VecDeque::new(),
            new_payloads: Vec::new(),
            fcus: Vec::new(),
            head: GENESIS,
            finalized: (0, GENESIS),
        }
    }

    fn seed_canonical_block(&mut self, block: &Arc<Block<()>>) {
        self.connect(block.clone());
    }

    fn seed_finalized_chain(&mut self, chain: &[Arc<Block<()>>]) {
        for block in chain {
            self.connect(block.clone());
            self.head = block.digest;
            self.finalized = (block.height, block.digest);
        }
    }

    fn script_new_payload(&mut self, digest: Digest, answer: Result<PayloadStatus, &str>) {
        self.scripts
            .entry(digest.0)
            .or_default()
            .push_back(answer.map_err(|cause| cause.to_string()));
    }

    fn script_built_payload(&mut self, block: &Arc<Block<()>>) {
        self.built.push_back(Some(Ok(block.clone())));
    }

    fn connect(&mut self, block: Arc<Block<()>>) {
        let mut connected = vec![block];
        while let Some(block) = connected.pop() {
            self.executed.push(block.digest);
            self.blocks.insert(block.digest.0, block.clone());
            let mut rest = Vec::new();
            for child in self.buffered.drain(..) {
                if child.parent_digest == block.digest {
                    connected.push(child);
                } else {
                    rest.push(child);
                }
            }
            self.buffered = rest;
        }
    }

    fn new_payload(&mut self, block: &Arc<Block<()>>) -> Result<PayloadStatus, String> {
        self.new_payloads.push(block.digest);
        let script = self.scripts.get_mut(&block.digest.0).and_then(|s| s.pop_front());
        let answer = script.unwrap_or_else(|| {
            if self.executed.contains(&block.parent_digest) || self.executed.contains(&block.digest)
            {
                Ok(PayloadStatus::Valid)
            } else {
                Ok(PayloadStatus::Syncing)
            }
        });
        match &answer {
            Ok(PayloadStatus::Valid) => self.connect(block.clone()),
            Ok(PayloadStatus::Syncing) => self.buffered.push(block.clone()),
            _ => {}
        }
        answer
    }

    fn canonical_block_hash(&self, height: u64) -> Option<Digest> {
        let mut digest = self.head;
        loop {
            if digest == GENESIS {
                return if height == 0 { Some(GENESIS) } else { None };
            }
            let block = &self.blocks[&digest.0];
            if block.height == height {
                return Some(digest);
            }
            digest = block.parent_digest;
        }
    }

    fn fork_choice_updated(
        &mut self,
        state: ForkchoiceState,
        build: bool,
    ) -> Result<ForkchoiceUpdated, ForkchoiceFailure> {
        self.fcus.push((state.head_block_hash, state.finalized_block_hash, build));
        assert!(state.safe_block_hash == state.finalized_block_hash);
        assert!(self.executed.contains(&state.head_block_hash));
        assert!(self.executed.contains(&state.finalized_block_hash));
        self.head = state.head_block_hash;
        if state.finalized_block_hash != GENESIS {
            let height = self.blocks[&state.finalized_block_hash.0].height;
            self.finalized = (height, state.finalized_block_hash);
        }
        Ok(ForkchoiceUpdated {
            payload_status: PayloadStatus::Valid,
            payload_id: if build { Some([7; 8]) } else { None },
        })
    }
}

/// A block store. It answers a subscription when it is told to.
struct FakeMarshal {
    open: Vec<(u64, Digest, Round)>,
    answers: HashMap<u64, Option<Arc<Block<()>>>>,
    log: Vec<(Digest, Round)>,
    blocks: HashMap<u64, Arc<Block<()>>>,
    finalizations: HashMap<u64, Digest>,
}

impl FakeMarshal {
    fn subscribe(&mut self, fetch: BlockFetch) -> u64 {
        let id = self.log.len() as u64;
        self.open.push((id, fetch.digest, fetch.round));
        self.log.push((fetch.digest, fetch.round));
        id
    }

    fn open_subscriptions(&self) -> Vec<(Digest, Round)> {
        self.open.iter().map(|(_, digest, round)| (*digest, *round)).collect()
    }

    fn answer(&mut self, digest: Digest, answer: Option<Arc<Block<()>>>) -> bool {
        match self.open.iter().position(|(_, wanted, _)| *wanted == digest) {
            Some(at) => {
                let (id, _, _) = self.open.remove(at);
                self.answers.insert(id, answer);
                true
            }
            None => false,
        }
    }

    fn fulfill_subscription(&mut self, digest: Digest, block: Arc<Block<()>>) -> bool {
        self.answer(digest, Some(block))
    }

    fn drop_subscription(&mut self, digest: Digest) -> bool {
        self.answer(digest, None)
    }

    fn subscribe_log(&self) -> Vec<(Digest, Round)> {
        self.log.clone()
    }
}

/// The subscription that serves the fetch of a slot.
fn run_fetch(
    slot: &mut Background<BlockFetch>,
    running: &mut Option<(u64, Digest)>,
    marshal: &mut FakeMarshal,
) {
    let wanted = slot.work().map(|fetch| fetch.digest);
    let ordered = slot.start();
    if ordered.is_some() || wanted.is_none() {
        if let Some((id, _)) = running.take() {
            marshal.open.retain(|(open, _, _)| *open != id);
            marshal.answers.remove(&id);
        }
    }
    if let Some(fetch) = ordered {
        *running = Some((marshal.subscribe(fetch), fetch.digest));
    }
}

/// The deadline that serves the timer of a slot.
fn run_timer(slot: &mut Background<Nanos>, deadline: &mut Option<Nanos>, now: Nanos) {
    match slot.start() {
        Some(duration) => *deadline = Some(now + duration),
        None => {
            if slot.is_idle() {
                *deadline = None;
            }
        }
    }
}

struct Harness {
    actor: Executor,
    execution: FakeExecution,
    marshal: FakeMarshal,
    mailbox: VecDeque<Message<(), Verdict, Payload, Ack>>,
    task: Option<Task>,
    answer: Option<Outcome>,
    jobs: Vec<StartPayloadJob<Payload>>,
    proposed_by_self: u64,
    verification_fetch: Option<(u64, Digest)>,
    convergence_fetch: Option<(u64, Digest)>,
    verification_retry: Option<Nanos>,
    convergence_retry: Option<Nanos>,
    heartbeat: Option<Nanos>,
    now: Nanos,
    fatal: Option<Error>,
}

impl Harness {
    fn start_at_genesis() -> Self {
        Harness::start(FakeExecution::new())
    }

    fn start(execution: FakeExecution) -> Self {
        Harness::start_with(
            Config {
                finalized_floor: 0,
                finalized_tip: (round(0), 0, GENESIS),
                fcu_heartbeat_interval: 30 * SECONDS,
                public_key: None,
            },
            execution,
        )
    }

    fn start_with(config: Config, execution: FakeExecution) -> Self {
        let canonical = match config.startup_read(execution.finalized).unwrap() {
            Some(height) => execution.canonical_block_hash(height),
            None => None,
        };
        let actor = Actor::init(config, execution.finalized, canonical);
        Harness {
            actor: actor.unwrap_or_else(|error| panic!("{error:?}")),
            execution,
            marshal: FakeMarshal {
                open: Vec::new(),
                answers: HashMap::new(),
                log: Vec::new(),
                blocks: HashMap::new(),
                finalizations: HashMap::new(),
            },
            mailbox: VecDeque::new(),
            task: None,
            answer: None,
            jobs: Vec::new(),
            proposed_by_self: 0,
            verification_fetch: None,
            convergence_fetch: None,
            verification_retry: None,
            convergence_retry: None,
            heartbeat: None,
            now: 0,
            fatal: None,
        }
    }

    // What the outside does

    fn verify(&mut self, round: Round, block: Arc<Block<()>>) -> Receiver<Option<Nanos>> {
        let (response, verdict) = channel();
        let context = Context { round, parent: block.context.parent };
        self.mailbox.push_back(Message::VerifyBlock {
            context,
            block,
            validator_set: Some(vec![[1; 32]]),
            response,
        });
        verdict
    }

    fn build(&mut self, round: Round, parent: Digest) -> Receiver<Arc<Block<()>>> {
        self.build_on(round, round.view - 1, parent)
    }

    fn build_on(
        &mut self,
        round: Round,
        parent_view: u64,
        parent: Digest,
    ) -> Receiver<Arc<Block<()>>> {
        let (payload, built) = channel();
        let context = Context { round, parent: (parent_view, parent) };
        let subscriber_gone = payload.is_canceled();
        self.mailbox
            .push_back(Message::Build { build: Build { context, payload }, subscriber_gone });
        built
    }

    fn deliver_tip(&mut self, round: Round, height: u64, digest: Digest) {
        self.mailbox.push_back(Message::Tip { round, height, digest });
    }

    fn finalize(&mut self, block: Arc<Block<()>>) -> Receiver<()> {
        let (acknowledgment, acknowledged) = channel();
        self.mailbox
            .push_back(Message::Finalized(FinalizedBlockRequest { block, acknowledgment }));
        acknowledged
    }

    fn deliver_finalized(&mut self, block: Arc<Block<()>>) -> Result<(), ()> {
        let acknowledged = self.finalize(block);
        self.wait_for(acknowledged)
    }

    // How the outside waits

    fn wait_for<T>(&mut self, receiver: Receiver<T>) -> Result<T, ()> {
        self.wait_until(|_| !receiver.is_pending());
        receiver.value.take().ok_or(())
    }

    fn wait_until(&mut self, mut reached: impl FnMut(&mut Harness) -> bool) {
        let limit = self.now + 60 * SECONDS;
        loop {
            if reached(self) {
                return;
            }
            if self.tick() {
                continue;
            }
            if reached(self) {
                return;
            }
            match self.next_deadline() {
                Some(deadline) if deadline <= limit => self.now = deadline,
                _ => panic!("not reached; the executor ended with {:?}", self.fatal),
            }
        }
    }

    fn run_for(&mut self, duration: Nanos) {
        let end = self.now + duration;
        loop {
            while self.tick() {}
            match self.next_deadline() {
                Some(deadline) if deadline <= end => self.now = deadline,
                _ => break,
            }
        }
        self.now = end;
    }

    fn next_deadline(&self) -> Option<Nanos> {
        let deadlines = [self.verification_retry, self.convergence_retry, self.heartbeat];
        deadlines.into_iter().flatten().min()
    }

    // The driver

    /// One iteration. Says whether there was an event.
    fn tick(&mut self) -> bool {
        if self.fatal.is_some() {
            return false;
        }
        let gone = self.subscriber_gone();
        let begun = self.actor.begin_iteration(gone);
        let _ = observe(
            self.actor.local_state,
            self.actor.network_finalized_tip.1,
            begun.pending_height,
        );
        self.run_background();
        self.perform(begun.scheduled);
        self.actor.update_fcu_heartbeat_timer();
        self.run_background();
        let Some(event) = self.next_event() else {
            return false;
        };
        match self.actor.handle_event(event) {
            Ok(action) => self.follow(action),
            Err(error) => self.fatal = Some(error),
        }
        true
    }

    fn run_background(&mut self) {
        run_fetch(
            &mut self.actor.pending_verification_block,
            &mut self.verification_fetch,
            &mut self.marshal,
        );
        run_fetch(
            &mut self.actor.pending_convergence_block,
            &mut self.convergence_fetch,
            &mut self.marshal,
        );
        run_timer(&mut self.actor.verification_retry, &mut self.verification_retry, self.now);
        run_timer(&mut self.actor.convergence_retry, &mut self.convergence_retry, self.now);
        run_timer(&mut self.actor.fcu_heartbeat_timer, &mut self.heartbeat, self.now);
    }

    fn subscriber_gone(&self) -> bool {
        match &self.actor.verification {
            Some(walk) => walk.request.response.as_ref().is_some_and(|r| r.is_canceled()),
            None => false,
        }
    }

    fn fetched(
        running: &mut Option<(u64, Digest)>,
        marshal: &mut FakeMarshal,
    ) -> Option<(Digest, Option<Arc<Block<()>>>)> {
        let (id, digest) = (*running)?;
        let block = marshal.answers.remove(&id)?;
        *running = None;
        Some((digest, block))
    }

    fn next_event(&mut self) -> Option<Event<(), Verdict, Payload, Ack>> {
        self.answer_task();
        if let Some(outcome) = self.answer.take() {
            return Some(Event::Answer(outcome));
        }
        if self.subscriber_gone() {
            return Some(Event::VerificationCanceled);
        }
        if self.verification_retry.is_some_and(|deadline| deadline <= self.now) {
            self.verification_retry = None;
            return Some(Event::VerificationRetry);
        }
        if self.convergence_retry.is_some_and(|deadline| deadline <= self.now) {
            self.convergence_retry = None;
            return Some(Event::ConvergenceRetry);
        }
        if let Some((digest, block)) =
            Self::fetched(&mut self.verification_fetch, &mut self.marshal)
        {
            return Some(Event::VerificationBlock { digest, block });
        }
        if let Some(job) = self.jobs.pop() {
            return Some(Event::PayloadJob(self.run_job(job)));
        }
        if let Some((digest, block)) = Self::fetched(&mut self.convergence_fetch, &mut self.marshal)
        {
            return Some(Event::ConvergenceBlock { digest, block });
        }
        if let Some(message) = self.mailbox.pop_front() {
            return Some(Event::Message(message));
        }
        if self.heartbeat.is_some_and(|deadline| deadline <= self.now) {
            self.heartbeat = None;
            return Some(Event::Heartbeat);
        }
        None
    }

    fn perform(&mut self, scheduled: Scheduled<(), Verdict, Payload, Ack>) {
        let task = match scheduled {
            Scheduled::Idle => return,
            Scheduled::Task(task) => task,
            Scheduled::ReadCanonical(height) => {
                let canonical = self.execution.canonical_block_hash(height);
                self.actor.start_forkchoice_update(canonical).expect("an update is due")
            }
        };
        assert!(self.task.is_none());
        match &task {
            Task::Verify(walk) | Task::Deliver(walk) => {
                let own_set = walk.request.validator_set.is_some() && walk.is_candidate();
                assert_eq!(walk.validator_set().is_some(), own_set);
                if self.execution.delayed.is_some_and(|(digest, _)| digest == walk.cursor.digest) {
                    self.execution.new_payloads.push(walk.cursor.digest);
                }
            }
            _ => {}
        }
        self.task = Some(task);
    }

    /// Makes the one call of the task in flight.
    fn answer_task(&mut self) {
        let Some(task) = self.task.take() else {
            return;
        };
        let outcome = match task {
            Task::Verify(walk) | Task::Deliver(walk) => {
                let delayed = match self.execution.delayed {
                    Some((digest, released)) if digest == walk.cursor.digest => Some(released),
                    _ => None,
                };
                if delayed == Some(false) {
                    if walk.request.response.as_ref().is_some_and(|r| r.is_canceled()) {
                        self.answer =
                            Some(execute_validation(walk, ProbeEvent::SubscriberGone));
                    } else {
                        self.task = Some(Task::Verify(walk));
                    }
                    return;
                }
                let answer = if delayed == Some(true) {
                    self.execution.delayed = None;
                    self.execution.buffered.push(walk.cursor.clone());
                    Ok(PayloadStatus::Syncing)
                } else {
                    self.execution.new_payload(&walk.cursor)
                };
                let answer = answer.map(|status| (status, 3 * MILLIS));
                execute_validation(walk, ProbeEvent::Answered(answer))
            }
            Task::Finalize(request) => {
                let status = self.execution.new_payload(&request.block);
                Outcome::FinalizedDelivered { request, status }
            }
            Task::Heartbeat { target } | Task::Forkchoice { target } => {
                self.submit(target, None)
            }
            Task::Build { target, build } => self.submit(target, Some(build)),
        };
        self.answer = Some(outcome);
    }

    fn submit(
        &mut self,
        target: executor::engine::LocalState,
        build: Option<Build<Payload>>,
    ) -> Outcome {
        let finalized = self.execution.finalized.0;
        let canonical = match stale_read(target, finalized) {
            Some(height) => Ok(self.execution.canonical_block_hash(height)),
            None => Ok(None),
        };
        let payload = build.map(|build| build.payload);
        let gone = payload.as_ref().is_some_and(|payload| payload.is_canceled());
        let attempt = execute_forkchoice(target, payload, gone, finalized, canonical);
        let response = match attempt.submission {
            Submission::Send(state) => {
                Some(self.execution.fork_choice_updated(state, attempt.build.is_some()))
            }
            Submission::Skip => None,
            Submission::Fail(failure) => Some(Err(failure)),
        };
        Outcome::Forkchoice { target: attempt.target, build: attempt.build, response }
    }

    fn run_job(&mut self, job: StartPayloadJob<Payload>) -> Option<Arc<Block<()>>> {
        assert_eq!(job.payload_id, [7; 8]);
        let event = if job.payload.is_canceled() {
            PayloadJobEvent::SubscriberGone
        } else {
            PayloadJobEvent::Resolved(self.execution.built.pop_front().flatten())
        };
        match run_payload_job(event) {
            PayloadJobAction::Finish(block) => block,
            PayloadJobAction::Send(block) => {
                let received = job.payload.send(block.clone());
                let sent = PayloadJobEvent::<(), Arc<Block<()>>>::Sent { received, block };
                match run_payload_job(sent) {
                    PayloadJobAction::Finish(block) => block,
                    PayloadJobAction::Send(_) => unreachable!(),
                }
            }
        }
    }

    fn acknowledge(&mut self, acknowledgement: Acknowledgement<(), Ack>) {
        if acknowledgement.proposed_by_self {
            self.proposed_by_self += 1;
        }
        acknowledgement.request.acknowledgment.send(());
    }

    fn follow(&mut self, action: Action<(), Verdict, Payload, Ack>) {
        match action {
            Action::Continue | Action::Stop | Action::ValidationFailed(_) => {}
            Action::Reply(reply) => {
                reply.response.send(reply.verdict);
            }
            Action::Confirm(request) => {
                let canonical = self.execution.canonical_block_hash(request.block.height);
                match self.actor.confirm_redelivered(request, canonical) {
                    Ok(acknowledgement) => self.acknowledge(acknowledgement),
                    Err(error) => self.fatal = Some(error),
                }
            }
            Action::Accepted(accepted) => {
                for acknowledgement in accepted.acknowledged {
                    self.acknowledge(acknowledgement);
                }
                self.jobs.extend(accepted.job);
            }
            Action::Scheduled(scheduled) => self.perform(scheduled),
        }
    }

    /// The backfill to the finalized floor.
    fn backfill(&mut self) -> Result<(), Error> {
        let mut last = None;
        while let Some(height) = self.actor.next_backfill_height(last) {
            let mut lookup = BlockLookup::Consensus(self.marshal.blocks.get(&height).cloned());
            let block = loop {
                lookup = match get_block(height, lookup)? {
                    LookupStep::Found(block) => break block,
                    LookupStep::AskFinalization => {
                        BlockLookup::Finalization(self.marshal.finalizations.get(&height).copied())
                    }
                    LookupStep::AskExecution(digest) => BlockLookup::Execution {
                        digest,
                        block: self.execution.blocks.get(&digest.0).cloned(),
                    },
                };
            };
            let (acknowledgment, _acknowledged) = channel();
            let request = FinalizedBlockRequest { block, acknowledgment };
            let task = self.actor.start_backfill_delivery(request);
            self.perform(Scheduled::Task(task));
            self.finish_task()?;
            let scheduled = self.actor.start_backfill_forkchoice(height);
            self.perform(scheduled);
            if self.task.is_some() {
                self.finish_task()?;
            }
            last = Some(height);
        }
        Ok(())
    }

    fn finish_task(&mut self) -> Result<(), Error> {
        self.answer_task();
        let outcome = self.answer.take().expect("a task is in flight");
        let action = self.actor.handle_event(Event::Answer(outcome))?;
        self.follow(action);
        Ok(())
    }
}

fn invalid(reason: &str) -> PayloadStatus {
    PayloadStatus::Invalid { validation_error: reason.to_string() }
}

#[test]
fn valid_candidate_converges_to_its_parent_without_fetching_or_delivering_it() {
    let parent = make_block(1, 1, GENESIS);
    let candidate = make_block(2, 2, parent.digest);
    let mut execution = FakeExecution::new();
    execution.seed_canonical_block(&parent);
    let mut h = Harness::start(execution);

    let verify = h.verify(round(2), candidate.clone());
    h.wait_for(verify).unwrap().unwrap();
    h.wait_until(|h| h.execution.head == parent.digest);
    h.run_for(50 * MILLIS);
    assert_eq!(h.execution.new_payloads, vec![candidate.digest]);
    assert!(h.marshal.subscribe_log().is_empty());
    assert!(h.execution.fcus.iter().all(|(head, _, _)| *head != candidate.digest));
}

#[test]
fn canceling_verification_does_not_start_a_background_ancestry_walk() {
    let mut h = Harness::start_at_genesis();
    let parent = make_block(1, 1, GENESIS);
    let candidate = make_block(2, 2, parent.digest);
    let verify = h.verify(round(2), candidate.clone());
    assert!(verify.is_pending());
    h.wait_until(|h| h.marshal.open_subscriptions() == vec![(parent.digest, round(1))]);
    drop(verify);
    h.wait_until(|h| h.marshal.open_subscriptions().is_empty());
    h.run_for(2 * SECONDS);
    assert_eq!(h.execution.new_payloads, vec![candidate.digest]);
    assert_eq!(h.marshal.subscribe_log(), vec![(parent.digest, round(1))]);

    let build = h.build(round(1), GENESIS);
    h.wait_for(build).expect_err("cancellation must preserve the newer target");
}

#[test]
fn a_waiting_walk_leaves_ready_build_convergence_on_another_branch_runnable() {
    let mut h = Harness::start_at_genesis();
    let other_parent = make_block(1, 1, GENESIS);
    let other_digest = other_parent.digest;
    h.execution.script_built_payload(&other_parent);
    let build = h.build(round(1), GENESIS);
    h.wait_for(build).unwrap();

    let missing = make_block(2, 1, GENESIS);
    let candidate = make_block(3, 2, missing.digest);
    let verify = h.verify(round(3), candidate);
    assert!(verify.is_pending());
    h.wait_until(|h| h.marshal.open_subscriptions() == vec![(missing.digest, round(2))]);

    let proposal = make_block(4, 2, other_digest);
    h.execution.script_built_payload(&proposal);
    let build = h.build_on(round(4), 1, other_digest);
    h.wait_until(|h| h.execution.head == other_digest);
    h.wait_until(|h| h.execution.fcus.contains(&(other_digest, GENESIS, true)));
    assert!(h.wait_for(build).is_ok());
    assert!(verify.is_pending());
    assert_eq!(h.marshal.open_subscriptions(), vec![(missing.digest, round(2))]);
}

#[test]
fn verification_and_build_parent_fetches_make_progress_independently() {
    let mut h = Harness::start_at_genesis();
    let parent = make_block(1, 1, GENESIS);
    let candidate = make_block(2, 2, parent.digest);
    let verify = h.verify(round(2), candidate);
    assert!(verify.is_pending());
    h.wait_until(|h| h.marshal.open_subscriptions() == vec![(parent.digest, round(1))]);

    let other = make_block(3, 1, GENESIS);
    let proposal = make_block(4, 2, other.digest);
    h.execution.script_built_payload(&proposal);
    let build = h.build(round(4), other.digest);
    h.wait_until(|h| h.marshal.open_subscriptions().len() == 2);
    assert!(h.marshal.fulfill_subscription(other.digest, other.clone()));
    h.wait_for(build).unwrap();
    assert!(verify.is_pending());

    assert!(h.marshal.fulfill_subscription(parent.digest, parent));
    h.wait_for(verify).unwrap().unwrap();
    h.run_for(20 * MILLIS);
    assert_eq!(
        h.execution.head, other.digest,
        "the older verification cannot restore its parent target"
    );
}

#[test]
fn verification_retries_do_not_wake_a_rejected_build_parent_early() {
    let mut h = Harness::start_at_genesis();
    let finalized = make_block(1, 1, GENESIS);
    h.deliver_tip(round(1), 1, finalized.digest);
    let candidate = make_block(2, 2, finalized.digest);
    let verify = h.verify(round(2), candidate);
    assert!(verify.is_pending());

    let parent = make_block(3, 2, finalized.digest);
    let digest = parent.digest;
    h.execution.script_new_payload(digest, Ok(invalid("retry later")));
    h.execution.script_new_payload(digest, Ok(PayloadStatus::Valid));
    let proposal = make_block(4, 3, digest);
    h.execution.script_built_payload(&proposal);
    let build = h.build(round(4), digest);
    h.wait_until(|h| h.marshal.fulfill_subscription(digest, parent.clone()));
    h.wait_until(|h| h.execution.new_payloads.contains(&digest));
    h.run_for(2 * SECONDS);
    assert_eq!(h.execution.new_payloads.iter().filter(|d| **d == digest).count(), 1);

    h.deliver_finalized(finalized).unwrap();
    h.wait_for(verify).unwrap().unwrap();
    h.wait_for(build).unwrap();
    assert_eq!(h.execution.head, digest);
}

#[test]
fn syncing_walks_backward_one_response_at_a_time_then_reprobes_the_candidate() {
    let mut h = Harness::start_at_genesis();
    let b1 = make_block(1, 1, GENESIS);
    let b2 = make_block(2, 2, b1.digest);
    let b3 = make_block(3, 3, b2.digest);
    let (d1, d2, d3) = (b1.digest, b2.digest, b3.digest);
    h.execution.delayed = Some((d2, false));

    let verify = h.verify(round(3), b3);
    assert!(verify.is_pending());
    h.wait_until(|h| h.marshal.open_subscriptions() == vec![(d2, round(2))]);
    assert_eq!(h.execution.new_payloads, vec![d3]);
    assert!(h.marshal.fulfill_subscription(d2, b2));
    h.wait_until(|h| h.execution.new_payloads == vec![d3, d2]);
    assert!(
        h.marshal.open_subscriptions().is_empty(),
        "no ancestor fetch before the engine answers"
    );

    h.execution.delayed = Some((d2, true));
    h.wait_until(|h| h.marshal.open_subscriptions() == vec![(d1, round(1))]);
    assert!(h.marshal.fulfill_subscription(d1, b1));
    assert!(h.wait_for(verify).unwrap().is_some());
    assert_eq!(h.execution.new_payloads, vec![d3, d2, d1, d3]);
    assert_eq!(h.marshal.subscribe_log(), vec![(d2, round(2)), (d1, round(1))]);
    h.wait_until(|h| h.execution.head == d2);
    assert!(h.execution.fcus.iter().all(|(head, _, _)| *head != d3));
}

#[test]
fn valid_ancestor_stops_the_walk_above_the_finalized_tip() {
    let b1 = make_block(1, 1, GENESIS);
    let b2 = make_block(2, 2, b1.digest);
    let b3 = make_block(3, 3, b2.digest);
    let (d2, d3) = (b2.digest, b3.digest);
    let mut execution = FakeExecution::new();
    execution.seed_canonical_block(&b1);
    let mut h = Harness::start(execution);

    let verify = h.verify(round(3), b3);
    assert!(verify.is_pending());
    h.wait_until(|h| h.marshal.fulfill_subscription(d2, b2.clone()));
    assert!(h.wait_for(verify).unwrap().is_some());
    h.wait_until(|h| h.execution.head == d2);
    assert_eq!(h.execution.new_payloads, vec![d3, d2, d3]);
    assert_eq!(
        h.marshal.subscribe_log(),
        vec![(d2, round(2))],
        "VALID b2 makes fetching b1 unnecessary"
    );
}

#[test]
fn syncing_fetches_the_parent_even_if_a_previous_verification_said_valid() {
    let mut h = Harness::start_at_genesis();
    let b1 = make_block(1, 1, GENESIS);
    let d1 = b1.digest;
    let verify = h.verify(round(1), b1.clone());
    h.wait_for(verify).unwrap().unwrap();
    let b2 = make_block(2, 2, d1);
    let d2 = b2.digest;
    h.execution.script_new_payload(d2, Ok(PayloadStatus::Syncing));
    h.execution.script_new_payload(d2, Ok(PayloadStatus::Valid));
    let verify = h.verify(round(2), b2);
    assert!(verify.is_pending());
    h.wait_until(|h| h.marshal.fulfill_subscription(d1, b1.clone()));
    h.wait_for(verify).unwrap().unwrap();
    assert_eq!(h.execution.new_payloads, vec![d1, d2, d1, d2]);
    assert_eq!(h.marshal.subscribe_log(), vec![(d1, round(1))]);
}

#[test]
fn an_ancestors_verdict_does_not_replace_the_candidates_verdict() {
    for ancestor_status in [PayloadStatus::Valid, invalid("bad ancestor")] {
        let mut h = Harness::start_at_genesis();
        let parent = make_block(1, 1, GENESIS);
        let candidate = make_block(2, 2, parent.digest);
        let (parent_digest, candidate_digest) = (parent.digest, candidate.digest);
        h.execution.script_new_payload(candidate_digest, Ok(PayloadStatus::Syncing));
        h.execution.script_new_payload(candidate_digest, Ok(invalid("invalid candidate")));
        h.execution.script_new_payload(parent_digest, Ok(ancestor_status));
        let verify = h.verify(round(2), candidate);
        assert!(verify.is_pending());
        h.wait_until(|h| h.marshal.fulfill_subscription(parent_digest, parent.clone()));
        assert!(h.wait_for(verify).unwrap().is_none());
        assert_eq!(
            h.execution.new_payloads,
            vec![candidate_digest, parent_digest, candidate_digest]
        );
        assert!(h.execution.fcus.iter().all(|(head, _, _)| *head != candidate_digest));
    }
}

#[test]
fn still_syncing_after_a_valid_ancestor_retries_without_spinning() {
    let mut h = Harness::start_at_genesis();
    let parent = make_block(1, 1, GENESIS);
    let candidate = make_block(2, 2, parent.digest);
    let (p, c) = (parent.digest, candidate.digest);
    for status in [PayloadStatus::Syncing, PayloadStatus::Syncing, PayloadStatus::Valid] {
        h.execution.script_new_payload(c, Ok(status));
    }
    let verify = h.verify(round(2), candidate);
    assert!(verify.is_pending());
    h.wait_until(|h| h.marshal.fulfill_subscription(p, parent.clone()));
    h.wait_until(|h| h.execution.new_payloads == vec![c, p, c]);
    h.run_for(500 * MILLIS);
    assert_eq!(h.execution.new_payloads, vec![c, p, c]);
    assert!(verify.is_pending());
    h.run_for(600 * MILLIS);
    assert!(h.wait_for(verify).unwrap().is_some());
    assert_eq!(h.execution.new_payloads, vec![c, p, c, c]);
}

#[test]
fn advancing_finality_cancels_the_fetch_and_resumes_verification_after_delivery() {
    let mut h = Harness::start_at_genesis();
    let b1 = make_block(1, 1, GENESIS);
    let b2 = make_block(2, 2, b1.digest);
    let b3 = make_block(3, 3, b2.digest);
    let (d1, d2, d3) = (b1.digest, b2.digest, b3.digest);
    let verify = h.verify(round(3), b3);
    assert!(verify.is_pending());
    h.wait_until(|h| h.marshal.open_subscriptions() == vec![(d2, round(2))]);

    h.deliver_tip(round(2), 2, d2);
    h.wait_until(|h| h.marshal.open_subscriptions().is_empty());
    h.deliver_finalized(b1).unwrap();
    assert!(verify.is_pending());
    h.deliver_finalized(b2).unwrap();
    h.wait_for(verify).unwrap().unwrap();
    assert_eq!(h.marshal.subscribe_log(), vec![(d2, round(2))]);
    assert_eq!(
        h.execution
            .new_payloads
            .iter()
            .filter(|d| **d == d1 || **d == d2)
            .copied()
            .collect::<Vec<_>>(),
        vec![d1, d2],
        "only finalization delivers blocks below the moving boundary"
    );
    assert!(h.execution.fcus.iter().all(|(head, _, _)| *head != d3));
}

#[test]
fn canceling_a_walk_closes_an_obsolete_fetch_and_stops_retries() {
    let mut h = Harness::start_at_genesis();
    let parent = make_block(1, 1, GENESIS);
    let candidate = make_block(2, 2, parent.digest);
    let c = candidate.digest;
    let verify = h.verify(round(2), candidate);
    assert!(verify.is_pending());
    h.wait_until(|h| !h.marshal.open_subscriptions().is_empty());
    let proposal = make_block(3, 1, GENESIS);
    h.execution.script_built_payload(&proposal);
    let build = h.build(round(3), GENESIS);
    h.wait_for(build).expect("newer build should complete on genesis");
    assert!(verify.is_pending());
    assert_eq!(
        h.marshal.open_subscriptions(),
        vec![(parent.digest, round(1))],
        "the older walk still needs its ancestor until its subscriber cancels",
    );
    drop(verify);
    h.wait_until(|h| h.marshal.open_subscriptions().is_empty());
    h.run_for(2 * SECONDS);
    assert_eq!(h.execution.new_payloads, vec![c]);
}

#[test]
fn dropped_ancestor_fetch_is_reissued_while_the_candidate_stays_pending() {
    let mut h = Harness::start_at_genesis();
    let parent = make_block(1, 1, GENESIS);
    let candidate = make_block(2, 2, parent.digest);
    let p = parent.digest;
    let verify = h.verify(round(2), candidate);
    assert!(verify.is_pending());
    h.wait_until(|h| h.marshal.drop_subscription(p));
    h.wait_until(|h| h.marshal.subscribe_log().len() == 2);
    assert!(verify.is_pending());
    assert!(h.marshal.fulfill_subscription(p, parent));
    h.wait_for(verify).unwrap().unwrap();
}

#[test]
fn an_ancestor_transport_error_fails_only_the_verification() {
    let mut h = Harness::start_at_genesis();
    let parent = make_block(1, 1, GENESIS);
    let candidate = make_block(2, 2, parent.digest);
    let p = parent.digest;
    h.execution.script_new_payload(p, Err("transport error"));
    let verify = h.verify(round(2), candidate);
    assert!(verify.is_pending());
    h.wait_until(|h| h.marshal.fulfill_subscription(p, parent.clone()));
    h.wait_for(verify).expect_err("transport failure must release the request");
    let sibling = make_block(3, 1, GENESIS);
    let verify = h.verify(round(3), sibling);
    h.wait_for(verify).unwrap().unwrap();
}

#[test]
fn a_verdict_takes_the_time_of_all_calls() {
    let mut h = Harness::start_at_genesis();
    let parent = make_block(1, 1, GENESIS);
    let candidate = make_block(2, 2, parent.digest);
    let verify = h.verify(round(2), candidate);
    h.wait_until(|h| h.marshal.fulfill_subscription(parent.digest, parent.clone()));
    assert_eq!(h.wait_for(verify), Ok(Some(9 * MILLIS)));
}

#[test]
fn one_update_finalizes_a_run_of_deliveries() {
    let mut h = Harness::start_at_genesis();
    let b1 = make_block(1, 1, GENESIS);
    let b2 = make_block(2, 2, b1.digest);
    let b3 = make_block(3, 3, b2.digest);
    // The execution layer is busy while the finalized blocks arrive.
    let busy = make_block(4, 1, GENESIS);
    h.execution.delayed = Some((busy.digest, false));
    let verify = h.verify(round(1), busy.clone());
    h.deliver_tip(round(3), 3, b3.digest);
    let first = h.finalize(b1.clone());
    let second = h.finalize(b2.clone());
    let third = h.finalize(b3.clone());
    h.run_for(MILLIS);
    assert_eq!(h.actor.pending_finalizations.len(), 3);
    assert_eq!(h.execution.new_payloads, vec![busy.digest]);
    drop(verify);
    assert_eq!(h.wait_for(third), Ok(()));
    assert_eq!(h.wait_for(first), Ok(()));
    assert_eq!(h.wait_for(second), Ok(()));
    assert_eq!(h.execution.new_payloads, vec![busy.digest, b1.digest, b2.digest, b3.digest]);
    assert_eq!(h.execution.fcus, vec![(b3.digest, b3.digest, false)]);
    assert_eq!(h.actor.pending_acknowledgements.len(), 0);
    assert_eq!(h.actor.deliveries_since_forkchoice, 0);
}

#[test]
fn an_invalid_finalized_block_is_fatal() {
    let mut h = Harness::start_at_genesis();
    let b1 = make_block(1, 1, GENESIS);
    h.deliver_tip(round(1), 1, b1.digest);
    h.execution.script_new_payload(b1.digest, Ok(invalid("bad")));
    let acknowledged = h.finalize(b1.clone());
    h.run_for(SECONDS);
    let fatal = h.fatal.take();
    assert!(matches!(
        fatal,
        Some(Error::FinalizedNotValid { digest, height: 1, status: PayloadStatus::Invalid { .. } })
            if digest == b1.digest
    ));
    drop(h);
    assert!(acknowledged.value.take().is_none());
}

#[test]
fn a_rejected_build_parent_is_delivered_again_after_ten_seconds() {
    let mut h = Harness::start_at_genesis();
    let parent = make_block(1, 1, GENESIS);
    let digest = parent.digest;
    h.execution.script_new_payload(digest, Err("transport error"));
    let proposal = make_block(2, 2, digest);
    h.execution.script_built_payload(&proposal);
    let build = h.build(round(2), digest);
    h.wait_until(|h| h.marshal.fulfill_subscription(digest, parent.clone()));
    h.wait_until(|h| h.execution.new_payloads == vec![digest]);
    h.run_for(9900 * MILLIS);
    assert_eq!(h.execution.new_payloads, vec![digest]);
    assert!(build.is_pending());
    h.run_for(200 * MILLIS);
    assert_eq!(h.execution.new_payloads, vec![digest, digest]);
    assert_eq!(h.wait_for(build).unwrap().digest, proposal.digest);
    assert_eq!(h.execution.head, digest);
}

#[test]
fn a_newer_request_supersedes_a_queued_one() {
    let mut h = Harness::start_at_genesis();
    h.execution.delayed = Some((make_block(1, 1, GENESIS).digest, false));
    let first = h.verify(round(1), make_block(1, 1, GENESIS));
    h.run_for(MILLIS);
    let second = h.verify(round(2), make_block(2, 1, GENESIS));
    let third = h.verify(round(3), make_block(3, 1, GENESIS));
    let late = h.verify(round(2), make_block(4, 1, GENESIS));
    h.run_for(MILLIS);
    assert!(first.is_pending());
    assert!(!second.is_pending(), "superseded");
    assert!(third.is_pending());
    assert!(!late.is_pending(), "too late");
    h.execution.delayed = None;
    assert!(h.wait_for(first).unwrap().is_some());
    assert!(h.wait_for(third).unwrap().is_some());
}

#[test]
fn a_canceled_probe_is_abandoned() {
    let mut h = Harness::start_at_genesis();
    let candidate = make_block(1, 1, GENESIS);
    h.execution.delayed = Some((candidate.digest, false));
    let verify = h.verify(round(1), candidate);
    h.run_for(MILLIS);
    assert_eq!(h.execution.new_payloads.len(), 1);
    drop(verify);
    h.run_for(MILLIS);
    assert!(h.actor.execution_task.is_none());
    assert!(h.actor.verification.is_none());
    assert_eq!(h.actor.deliveries_since_forkchoice, 1);
}

#[test]
fn an_idle_executor_reaffirms_its_forkchoice() {
    let mut h = Harness::start_at_genesis();
    h.run_for(29 * SECONDS);
    assert!(h.execution.fcus.is_empty());
    h.run_for(2 * SECONDS);
    assert_eq!(h.execution.fcus, vec![(GENESIS, GENESIS, false)]);
    h.run_for(30 * SECONDS);
    assert_eq!(h.execution.fcus.len(), 2);
}

#[test]
fn backfill_finalizes_every_eight_blocks_and_at_the_floor() {
    let mut chain: Vec<Arc<Block<()>>> = Vec::new();
    for height in 1..=10 {
        let parent = chain.last().map_or(GENESIS, |block| block.digest);
        chain.push(make_block(height, height, parent));
    }
    let tip = chain[9].clone();
    let mut h = Harness::start_with(
        Config {
            finalized_floor: 10,
            finalized_tip: (round(10), 10, tip.digest),
            fcu_heartbeat_interval: 30 * SECONDS,
            public_key: None,
        },
        FakeExecution::new(),
    );
    // One block is only to be had from the execution layer.
    for block in &chain {
        if block.height == 4 {
            h.marshal.finalizations.insert(4, block.digest);
            h.execution.blocks.insert(block.digest.0, block.clone());
        } else {
            h.marshal.blocks.insert(block.height, block.clone());
        }
    }
    h.backfill().unwrap();
    let digests: Vec<Digest> = chain.iter().map(|block| block.digest).collect();
    assert_eq!(h.execution.new_payloads, digests);
    assert_eq!(
        h.execution.fcus,
        vec![(digests[7], digests[7], false), (digests[9], digests[9], false)]
    );
    assert_eq!(h.actor.local_state.finalized, (10, tip.digest));
    assert_eq!(h.actor.next_backfill_height(Some(10)), None);
}

#[test]
fn backfill_fails_where_a_block_is_nowhere_to_be_found() {
    let b1 = make_block(1, 1, GENESIS);
    let config = Config {
        finalized_floor: 1,
        finalized_tip: (round(1), 1, b1.digest),
        fcu_heartbeat_interval: 30 * SECONDS,
        public_key: None,
    };
    let mut h = Harness::start_with(config, FakeExecution::new());
    assert!(matches!(h.backfill(), Err(Error::FinalizationUnknown { height: 1 })));
    h.marshal.finalizations.insert(1, b1.digest);
    assert!(matches!(
        h.backfill(),
        Err(Error::BlockMissing { height: 1, digest }) if digest == b1.digest
    ));
}

#[test]
fn blocks_below_the_execution_layers_finality_are_acknowledged_again() {
    let b1 = make_block(1, 1, GENESIS);
    let b2 = make_block(2, 2, b1.digest);
    let b3 = make_block(3, 3, b2.digest);
    let mut execution = FakeExecution::new();
    execution.seed_finalized_chain(&[b1.clone(), b2.clone(), b3.clone()]);
    let mut h = Harness::start_with(
        Config {
            finalized_floor: 1,
            finalized_tip: (round(3), 3, b3.digest),
            fcu_heartbeat_interval: 30 * SECONDS,
            public_key: None,
        },
        execution,
    );
    assert_eq!(h.actor.local_state.finalized, (1, b1.digest));
    // At the start: final already, and confirmed.
    h.deliver_finalized(b1).unwrap();
    // Below the execution layer's finality: the update is not submitted.
    h.deliver_finalized(b2).unwrap();
    assert!(h.execution.fcus.is_empty());
    assert_eq!(h.actor.local_state.finalized.0, 2);
    // At the execution layer's finality: the update goes out.
    h.deliver_finalized(b3.clone()).unwrap();
    assert_eq!(h.execution.fcus, vec![(b3.digest, b3.digest, false)]);

    // Another block at a height that is final.
    let other = make_block(9, 1, GENESIS);
    let acknowledged = h.finalize(other.clone());
    h.run_for(SECONDS);
    assert!(matches!(
        h.fatal,
        Some(Error::FinalizedConflict { digest, height: 1, .. }) if digest == other.digest
    ));
    drop(h);
    assert!(acknowledged.value.take().is_none());
}

#[test]
fn a_head_that_finality_contradicts_is_given_up() {
    let mut h = Harness::start_at_genesis();
    // The head is on one branch ...
    let left = make_block(1, 1, GENESIS);
    let candidate = make_block(2, 2, left.digest);
    h.execution.seed_canonical_block(&left);
    let verify = h.verify(round(2), candidate);
    h.wait_for(verify).unwrap().unwrap();
    h.wait_until(|h| h.execution.head == left.digest);
    // ... and a longer head on the same branch, unknown to consensus.
    let above = make_block(3, 2, left.digest);
    let child = make_block(4, 3, above.digest);
    h.execution.seed_canonical_block(&above);
    let verify = h.verify(round(4), child);
    h.wait_for(verify).unwrap().unwrap();
    h.wait_until(|h| h.execution.head == above.digest);
    // Finality takes the other branch, below that head, and consensus has
    // selected a head that is not there yet.
    let right = make_block(5, 1, GENESIS);
    let missing = make_block(6, 2, right.digest);
    h.deliver_tip(round(5), 1, right.digest);
    let _verify = h.verify(round(7), make_block(7, 3, missing.digest));
    h.run_for(MILLIS);
    h.deliver_finalized(right.clone()).unwrap();
    assert_eq!(h.execution.head, right.digest);
    assert_eq!(h.execution.fcus.last(), Some(&(right.digest, right.digest, false)));
}

#[test]
fn a_head_above_finality_stays() {
    let mut h = Harness::start_at_genesis();
    let b1 = make_block(1, 1, GENESIS);
    let b2 = make_block(2, 2, b1.digest);
    h.execution.seed_canonical_block(&b1);
    h.execution.seed_canonical_block(&b2);
    let verify = h.verify(round(3), make_block(3, 3, b2.digest));
    h.wait_for(verify).unwrap().unwrap();
    h.wait_until(|h| h.execution.head == b2.digest);
    h.deliver_tip(round(1), 1, b1.digest);
    h.deliver_finalized(b1.clone()).unwrap();
    assert_eq!(h.execution.head, b2.digest);
    assert_eq!(h.execution.fcus.last(), Some(&(b2.digest, b1.digest, false)));
}

#[test]
fn a_failed_ancestor_of_a_build_parent_is_tried_again() {
    for failure in [Err("transport error"), Ok(PayloadStatus::Accepted)] {
        let mut h = Harness::start_at_genesis();
        let b1 = make_block(1, 1, GENESIS);
        let b2 = make_block(2, 2, b1.digest);
        let (d1, d2) = (b1.digest, b2.digest);
        h.execution.script_new_payload(d1, failure);
        let proposal = make_block(3, 3, d2);
        h.execution.script_built_payload(&proposal);
        let build = h.build(round(3), d2);
        h.wait_until(|h| h.marshal.fulfill_subscription(d2, b2.clone()));
        h.wait_until(|h| h.marshal.fulfill_subscription(d1, b1.clone()));
        h.wait_until(|h| h.execution.new_payloads == vec![d2, d1]);
        h.run_for(9900 * MILLIS);
        assert_eq!(h.execution.new_payloads, vec![d2, d1]);
        // It begins anew at the parent, and walks back again.
        h.wait_until(|h| h.marshal.fulfill_subscription(d1, b1.clone()));
        assert_eq!(h.wait_for(build).unwrap().digest, proposal.digest);
        assert_eq!(h.execution.new_payloads, vec![d2, d1, d2, d1, d2]);
        assert_eq!(h.execution.head, d2);
    }
}

#[test]
fn an_invalid_ancestor_of_a_build_parent_leads_back_to_it() {
    let mut h = Harness::start_at_genesis();
    let b1 = make_block(1, 1, GENESIS);
    let b2 = make_block(2, 2, b1.digest);
    let (d1, d2) = (b1.digest, b2.digest);
    h.execution.script_new_payload(d1, Ok(invalid("bad ancestor")));
    let _build = h.build(round(3), d2);
    h.wait_until(|h| h.marshal.fulfill_subscription(d2, b2.clone()));
    h.wait_until(|h| h.marshal.fulfill_subscription(d1, b1.clone()));
    h.run_for(500 * MILLIS);
    assert_eq!(h.execution.new_payloads, vec![d2, d1, d2]);
}
