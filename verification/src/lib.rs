//! SyncLined's Task State Engine: a local, single-developer task board on which agents
//! propose typed task-state records and only the developer confirms shared truth.
use vstd::prelude::*;

pub mod api;
pub mod board;
pub mod laws;
pub mod ledger;
pub mod policy;
pub mod read_back;
pub mod records;
pub mod review;
pub mod sqlite;
pub mod storage;
pub mod text;
pub mod views;

pub use api::{BoardView, LoopbackRelay, TaskAccessApi};
pub use board::{Board, BoardError, Failure, SqliteStorage, Storage, Subscription, Task};
pub use ledger::Record;
pub use records::{
    kind_from_str, sensitivity_str, ProposalOutcome, RecordStatus, RecordType, SensitiveReleaseState,
};
pub use views::{Handoff, Heartbeat, Snapshot};
