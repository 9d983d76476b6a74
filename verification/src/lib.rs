//! Copy semantics of a tree copier: what is copied, skipped, replaced,
//! resumed, counted and reported, as functions on plain values.
//!
//! Nothing here touches a file, a thread or a clock. The program around this
//! library performs the operations that these functions decide on and hands
//! back what came of them.

pub mod analysis;
pub mod args;
pub mod artifacts;
pub mod audit;
pub mod bulk;
pub mod checkpoints;
pub mod classify;
pub mod cli;
pub mod cursor;
pub mod devprofile;
pub mod digests;
pub mod dirstreams;
pub mod engine;
pub mod equality;
pub mod error;
pub mod exit;
pub mod file;
pub mod filesystem;
pub mod hashing;
pub mod identity;
pub mod journal;
pub mod keys;
pub mod ledger;
pub mod link;
pub mod model;
pub mod named;
pub mod options;
pub mod path;
pub mod phase;
pub mod pipeline;
pub mod platform;
pub mod preflight;
pub mod publish;
pub mod readback;
pub mod repair;
pub mod report;
pub mod resume;
pub mod revalidate;
pub mod run;
pub mod segment;
pub mod small;
pub mod stage;
pub mod standalone;
pub mod streams;
pub mod table;
pub mod text;
pub mod transport;
pub mod tree;
pub mod verify;
pub mod walk;
pub mod worker;

use vstd::prelude::*;

pub use error::{BigcpError, ErrorCategory, OperationError};
pub use model::{Counters, RunState};
pub use options::{CopyOptions, DeviceClass, TuneOptions, VerifyOptions};
pub use run::run_copy;

verus! {

/// The report schema version emitted by this build.
pub const REPORT_SCHEMA_VERSION: u32 = 1;

/// The JSONL log schema version emitted by this build.
pub const LOG_SCHEMA_VERSION: u32 = 1;

/// The checkpoint journal schema version emitted by this build.
pub const JOURNAL_SCHEMA_VERSION: u32 = 1;

} // verus!
