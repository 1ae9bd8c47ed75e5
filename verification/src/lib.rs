//! Verified core of a batch-job submission pipeline for a remote
//! high-performance-computing cluster.
//!
//! The library holds everything that can be stated and proved about one job
//! run: the configuration value, the shell commands the run issues, the
//! parser for the scheduler's submission acknowledgment, the classification
//! of scheduler status text, the completion poller, and the job-lifecycle
//! state machine that sequences upload, unpack, compile, submit, poll and
//! fetch.  The unverified shell around the library performs the network I/O
//! that each emitted action asks for and feeds the outcome back in as an
//! event.

pub mod commands;
pub mod config;
pub mod errors;
pub mod orchestrator;
pub mod parse;
pub mod poller;
pub mod status;
pub mod text;
pub mod transfer;
