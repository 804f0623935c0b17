//! The decisions of an executor: the agent that sits between a consensus
//! engine and an execution layer, delivers finalized and notarized blocks to
//! the execution layer, and moves its forkchoice.
//!
//! Delivery and forkchoice are separate steps. A delivery hands a block body
//! over and never moves the head. A forkchoice update moves the head and the
//! finalized block, on a later iteration, and only names blocks that a `VALID`
//! answer proved executed. Finalized blocks are acknowledged once the update
//! that finalizes them is accepted.
//!
//! The crate holds no I/O. [`actor::Actor`] is the executor's state; each of
//! its methods consumes an event (an answer of the execution layer, a message
//! of the consensus engine, a fetched block, an elapsed timer) and says what
//! is to be done next. [`state::State`] is its mathematical model, and
//! [`laws`] proves what holds of every run.

pub mod actor;
pub mod answers;
pub mod background;
pub mod block_map;
pub mod chain;
pub mod engine;
pub mod error;
pub mod fetch;
pub mod laws;
pub mod mailbox;
pub mod metrics;
pub mod run;
pub mod schedule;
pub mod startup;
pub mod state;
pub mod task;
pub mod walk;
