//! An execution ledger for runs of a pipeline of typed blocks: the run's
//! configuration with its concurrency limits, the per-block status ledger,
//! the trace matrix, and the read path that reports what one block did.

pub mod block;
pub mod config;
pub mod fault;
pub mod inspect;
pub mod json;
pub mod run;
pub mod status;

pub use block::BlockType;
pub use config::{resolve_concurrency, RunConfig};
pub use fault::ParseError;
pub use inspect::{
    inspect_block, inspect_step, is_latest, require_run, resolve_latest, InspectAction, InspectError,
    InspectEvent, LaneReport, LaneValue,
};
pub use run::{BlockExecution, Run};
pub use status::{BlockStatus, RunStatus, Status};
