//! The failure taxonomy of one job run.
//!
//! Every operation surfaces its failure immediately as one of these values;
//! nothing is retried or recovered inside the library.

use vstd::prelude::*;

verus! {

/// What went wrong, by the operation that failed.
#[derive(Clone, Copy, Debug, PartialEq, Eq, Structural)]
pub enum JobError {
    /// The network connection or transport handshake could not be established.
    Connection,
    /// The credentials were rejected.
    Auth,
    /// A remote command channel could not be opened or read, or a remote
    /// command finished with a non-zero exit status where success was needed.
    Command,
    /// A file upload or download failed.
    Transfer,
    /// The submission acknowledgment did not match the expected template.
    Parse,
    /// A scheduler status query failed.
    Poll,
}

} // verus!
