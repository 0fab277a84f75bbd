//! Control loop of a proof-of-work mining worker.
//!
//! A worker hashes against the work item it currently holds, listens for
//! control messages between solve calls, hands every candidate nonce to a result
//! channel and accounts for its throughput in report windows.  The hashing
//! routine itself is not part of this crate: a tick is cut in two around it, and
//! the caller runs the routine in between.
//!
//! A tick of [`EaglesongCpu`] goes like this.  `begin_tick` takes at most one
//! message from the control channel and returns the plan: rest, because the
//! worker is stopped; nothing, because it has no work; or solve, with the
//! routine and the work item to solve.  After a solve call, `complete_solve`
//! takes the nonce and the number of work units that the routine returned,
//! sends the seal if there is one, and returns a report whenever the window
//! has been open for more than 300 milliseconds.
//!
//! The rules of the state machine and of the accounting are plain functions on
//! [`WorkerState`] and [`ReportWindow`]; the module `laws` proves what follows
//! from them over whole runs of messages and solve calls.

pub mod channel;
pub mod clock;
pub mod laws;
pub mod report;
pub mod state;
pub mod work;
pub mod worker;

pub use report::{Report, ReportWindow};
pub use state::{Phase, SolveRequest, TickPlan, WorkerState};
pub use work::{Arch, Seal, WorkItem, WorkerMessage};
pub use worker::{EaglesongCpu, SolveOutcome};
