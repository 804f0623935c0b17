//! What holds of every run of the executor.

pub mod acknowledgement;
pub mod backfill;
pub mod executed;
pub mod finality;
pub mod forkchoice;
pub mod messages;
pub mod moves;
pub mod outcomes;
pub mod priorities;
pub mod probes;
pub mod rounds;
pub mod scheduling;
pub mod upkeep;
pub mod walks;
