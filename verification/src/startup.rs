//! How the executor starts: the finalized point it starts from, and the
//! backfill from there to the finalized floor.

use crate::actor::Actor;
use crate::background::Background;
use crate::block_map::BlockMap;
use crate::chain::{Block, Digest, Height, Nanos, PublicKey, Round};
use crate::engine::LocalState;
use crate::error::Error;
use crate::state::{PendingHead, Scheduled, State, DELIVERIES_PER_FORKCHOICE_UPDATE};
use crate::task::{ExecutionTask, FinalizedBlockRequest};
use std::collections::VecDeque;
use std::sync::Arc;
use vstd::prelude::*;

verus! {

/// What the executor is started with.
#[derive(Clone, Copy, Debug)]
pub struct Config {
    /// The height to which finalized blocks are backfilled.
    pub finalized_floor: Height,
    /// The network's finalized tip.
    pub finalized_tip: (Round, Height, Digest),
    pub fcu_heartbeat_interval: Nanos,
    /// This node's key, if it takes part in consensus.
    pub public_key: Option<PublicKey>,
}

impl Config {
    /// The finalized point to start from, given the execution layer's own
    /// finalized tip and its canonical block at the floor. The floor can lie
    /// below the execution layer's finality, where consensus was restored from
    /// a snapshot; finalized blocks are delivered again from there.
    pub open spec fn start(
        self,
        execution_finalized: (Height, Digest),
        canonical: Option<Digest>,
    ) -> Result<(Height, Digest), Error> {
        if self.finalized_tip.1 < self.finalized_floor {
            Err(Error::TipBelowFloor { tip: self.finalized_tip.1, floor: self.finalized_floor })
        } else if self.finalized_floor < execution_finalized.0 {
            match canonical {
                Some(digest) => Ok((self.finalized_floor, digest)),
                None => Err(
                    Error::FloorMissing {
                        floor: self.finalized_floor,
                        execution_finalized: execution_finalized.0,
                    },
                ),
            }
        } else {
            Ok(execution_finalized)
        }
    }

    /// The height that [`Config::startup_read`] asks for.
    pub open spec fn read_at_start(self, execution_finalized: (Height, Digest)) -> Result<
        Option<Height>,
        Error,
    > {
        if self.finalized_tip.1 < self.finalized_floor {
            Err(Error::TipBelowFloor { tip: self.finalized_tip.1, floor: self.finalized_floor })
        } else if self.finalized_floor < execution_finalized.0 {
            Ok(Some(self.finalized_floor))
        } else {
            Ok(None)
        }
    }

    /// The height whose canonical block is needed to start: the floor, where
    /// it is below the execution layer's finalized height.
    pub fn startup_read(&self, execution_finalized: (Height, Digest)) -> (height: Result<
        Option<Height>,
        Error,
    >)
        ensures
            height == self.read_at_start(execution_finalized),
    {
        if self.finalized_tip.1 < self.finalized_floor {
            Err(Error::TipBelowFloor { tip: self.finalized_tip.1, floor: self.finalized_floor })
        } else if self.finalized_floor < execution_finalized.0 {
            Ok(Some(self.finalized_floor))
        } else {
            Ok(None)
        }
    }
}

impl<B, V, P, A> State<B, V, P, A> {
    /// The height to backfill after `last`, or to begin with: the next one, up
    /// to the finalized floor.
    pub open spec fn backfill_height(self, last: Option<Height>) -> Option<Height> {
        let reached = match last {
            Some(height) => height,
            None => self.local_state.finalized.0,
        };
        if reached < self.finalized_floor {
            Some((reached + 1) as u64)
        } else {
            None
        }
    }

    /// The state to start in, from a finalized point. Head and finalized block
    /// are not told apart at the start.
    pub open spec fn started(config: Config, finalized: (Height, Digest)) -> State<B, V, P, A> {
        State {
            finalized_floor: config.finalized_floor,
            fcu_heartbeat_interval: config.fcu_heartbeat_interval,
            fcu_heartbeat_timer: Background::Idle,
            pending_finalizations: Seq::empty(),
            pending_acknowledgements: Seq::empty(),
            deliveries_since_forkchoice: 0,
            latest_consensus_round: config.finalized_tip.0,
            pending_consensus_request: None,
            verification: None,
            verification_retry: Background::Idle,
            pending_verification_block: Background::Idle,
            convergence: None,
            convergence_retry: Background::Idle,
            pending_convergence_block: Background::Idle,
            execution_task: None,
            local_state: LocalState { head: finalized, finalized },
            delivered_finalized: finalized,
            network_finalized_tip: config.finalized_tip,
            pending_head: PendingHead::at_tip(config.finalized_tip),
            known_blocks: Map::empty(),
            built_blocks: Map::empty(),
            public_key: config.public_key,
        }
    }
}

impl<B, V, P, A> Actor<B, V, P, A> {
    /// Sets the executor up. The finalized tip must not lie below the finalized
    /// floor. The executor starts from the execution layer's finalized tip, or
    /// from the floor if that is lower.
    ///
    /// `canonical` is the execution layer's canonical block at the height that
    /// [`Config::startup_read`] asks for; where it asks for none, it is not
    /// looked at.
    pub fn init(
        config: Config,
        execution_finalized: (Height, Digest),
        canonical: Option<Digest>,
    ) -> (actor: Result<Actor<B, V, P, A>, Error>)
        ensures
            match config.start(execution_finalized, canonical) {
                Ok(finalized) => {
                    &&& actor is Ok
                    &&& actor->Ok_0.wf()
                    &&& actor->Ok_0@ == State::<B, V, P, A>::started(config, finalized)
                },
                Err(error) => actor == Err::<Actor<B, V, P, A>, Error>(error),
            },
    {
        let finalized: (Height, Digest) = match config.startup_read(execution_finalized) {
            Err(error) => {
                return Err(error);
            },
            Ok(Some(floor)) => match canonical {
                Some(digest) => (floor, digest),
                None => {
                    return Err(
                        Error::FloorMissing { floor, execution_finalized: execution_finalized.0 },
                    );
                },
            },
            Ok(None) => execution_finalized,
        };
        Ok(
            Actor {
                finalized_floor: config.finalized_floor,
                fcu_heartbeat_interval: config.fcu_heartbeat_interval,
                fcu_heartbeat_timer: Background::Idle,
                pending_finalizations: VecDeque::new(),
                pending_acknowledgements: VecDeque::new(),
                deliveries_since_forkchoice: 0,
                latest_consensus_round: config.finalized_tip.0,
                pending_consensus_request: None,
                verification: None,
                verification_retry: Background::Idle,
                pending_verification_block: Background::Idle,
                convergence: None,
                convergence_retry: Background::Idle,
                pending_convergence_block: Background::Idle,
                execution_task: None,
                local_state: LocalState { head: finalized, finalized },
                delivered_finalized: finalized,
                network_finalized_tip: config.finalized_tip,
                pending_head: PendingHead::finalized(config.finalized_tip),
                known_blocks: BlockMap::new(),
                built_blocks: BlockMap::new(),
                public_key: config.public_key,
            },
        )
    }

    /// The height to backfill next: at first the one above the tracked
    /// finalized height, then the one above the `last`, up to the finalized
    /// floor.
    pub fn next_backfill_height(&self, last: Option<Height>) -> (next: Option<Height>)
        ensures
            next == self@.backfill_height(last),
    {
        let reached: Height = match last {
            Some(height) => height,
            None => self.local_state.finalized.0,
        };
        if reached < self.finalized_floor {
            Some(reached + 1)
        } else {
            None
        }
    }

    /// Gives the backfilled block to the execution layer to be delivered.
    pub fn start_backfill_delivery(&mut self, request: FinalizedBlockRequest<B, A>) -> (task:
        ExecutionTask<B, V, P, A>)
        requires
            old(self).wf(),
            old(self).execution_task is None,
        ensures
            final(self).wf(),
            task == ExecutionTask::<B, V, P, A>::Finalize(request),
            final(self)@ == old(self)@.busy_with(task),
    {
        let task = ExecutionTask::Finalize(request);
        self.set_execution_task(&task);
        task
    }

    /// Schedules the forkchoice update that finalizes backfilled blocks, after
    /// the one at `height` was delivered: one whenever enough blocks were
    /// delivered, and one at the floor.
    pub fn start_backfill_forkchoice(&mut self, height: Height) -> (scheduled: Scheduled<
        B,
        V,
        P,
        A,
    >)
        requires
            old(self).wf(),
            old(self).execution_task is None,
        ensures
            final(self).wf(),
            (final(self)@, scheduled) == old(self)@.backfill_scheduled(height),
    {
        if self.deliveries_since_forkchoice >= DELIVERIES_PER_FORKCHOICE_UPDATE || height
            == self.finalized_floor {
            if let Some(scheduled) = self.schedule_forkchoice_update() {
                return scheduled;
            }
        }
        Scheduled::Idle
    }
}

/// How often the execution layer is asked whether it is ready to process
/// blocks.
pub const EXECUTION_LAYER_READY_POLL_INTERVAL: u128 = 1_000_000_000;

/// How long [`wait_for_execution_layer`] waits.
pub open spec fn wait_before_asking(ready: bool) -> Option<Nanos> {
    if ready {
        None
    } else {
        Some(EXECUTION_LAYER_READY_POLL_INTERVAL)
    }
}

/// Waits for the execution layer before anything is delivered to it: how long
/// to wait before asking again, if it is not `ready`.
pub fn wait_for_execution_layer(ready: bool) -> (wait: Option<Nanos>)
    ensures
        wait == wait_before_asking(ready),
{
    if ready {
        None
    } else {
        Some(EXECUTION_LAYER_READY_POLL_INTERVAL)
    }
}

/// What the search for a block to backfill has brought.
#[derive(Debug)]
pub enum BlockLookup<B> {
    /// What the consensus side holds at the height.
    Consensus(Option<Arc<Block<B>>>),
    /// The digest of what was finalized at the height.
    Finalization(Option<Digest>),
    /// What the execution layer holds under the digest.
    Execution { digest: Digest, block: Option<Arc<Block<B>>> },
}

/// Where the search for a block to backfill goes on.
#[derive(Debug)]
pub enum LookupStep<B> {
    /// The block was found.
    Found(Arc<Block<B>>),
    /// Ask for the digest of what was finalized at the height.
    AskFinalization,
    /// Ask the execution layer for the block.
    AskExecution(Digest),
}

/// Where [`get_block`] goes on.
pub open spec fn lookup_step<B>(height: Height, lookup: BlockLookup<B>) -> Result<
    LookupStep<B>,
    Error,
> {
    match lookup {
        BlockLookup::Consensus(Some(block)) => Ok(LookupStep::Found(block)),
        BlockLookup::Consensus(None) => Ok(LookupStep::AskFinalization),
        BlockLookup::Finalization(Some(digest)) => Ok(LookupStep::AskExecution(digest)),
        BlockLookup::Finalization(None) => Err(Error::FinalizationUnknown { height }),
        BlockLookup::Execution { block: Some(block), .. } => Ok(LookupStep::Found(block)),
        BlockLookup::Execution { digest, block: None } => Err(
            Error::BlockMissing { height, digest },
        ),
    }
}

/// Searches for the finalized block at `height`: the consensus side is asked
/// first, then the execution layer, under the digest that was finalized at that
/// height.
pub fn get_block<B>(height: Height, lookup: BlockLookup<B>) -> (step: Result<LookupStep<B>, Error>)
    ensures
        step == lookup_step(height, lookup),
{
    match lookup {
        BlockLookup::Consensus(Some(block)) => Ok(LookupStep::Found(block)),
        BlockLookup::Consensus(None) => Ok(LookupStep::AskFinalization),
        BlockLookup::Finalization(Some(digest)) => Ok(LookupStep::AskExecution(digest)),
        BlockLookup::Finalization(None) => Err(Error::FinalizationUnknown { height }),
        BlockLookup::Execution { digest, block } => match block {
            Some(block) => Ok(LookupStep::Found(block)),
            None => Err(Error::BlockMissing { height, digest }),
        },
    }
}

} // verus!
