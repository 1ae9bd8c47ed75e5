//! Classification of scheduler status text.
//!
//! A job is still in flight exactly while the status response contains one of
//! the four non-terminal state markers.  Anything else — including an empty
//! response, meaning the job has left the queue — is terminal.

use vstd::prelude::*;

use crate::text::{ascii_bytes, contains_bytes, contains_seq, lit_bytes};

verus! {

/// Marker of a job waiting in the queue.
pub open spec fn spec_pending_marker() -> Seq<u8> {
    ascii_bytes("PENDING"@)
}

/// Marker of a job executing on a node.
pub open spec fn spec_running_marker() -> Seq<u8> {
    ascii_bytes("RUNNING"@)
}

/// Marker of a job whose nodes are being prepared.
pub open spec fn spec_configuring_marker() -> Seq<u8> {
    ascii_bytes("CONFIGURING"@)
}

/// Marker of a job in its completion phase.
pub open spec fn spec_completing_marker() -> Seq<u8> {
    ascii_bytes("COMPLETING"@)
}

/// The response still mentions some non-terminal state.
pub open spec fn has_nonterminal_marker(resp: Seq<u8>) -> bool {
    contains_seq(resp, spec_pending_marker()) || contains_seq(resp, spec_running_marker())
        || contains_seq(resp, spec_configuring_marker()) || contains_seq(
        resp,
        spec_completing_marker(),
    )
}

/// The response shows a terminal job: none of the four non-terminal markers
/// occurs in it.
pub open spec fn is_terminal_status(resp: Seq<u8>) -> bool {
    !has_nonterminal_marker(resp)
}

/// Decides whether a status response shows a terminal job.
pub fn classify_status(resp: &[u8]) -> (terminal: bool)
    ensures
        terminal == is_terminal_status(resp@),
{
    proof {
        reveal_strlit("PENDING");
        reveal_strlit("RUNNING");
        reveal_strlit("CONFIGURING");
        reveal_strlit("COMPLETING");
    }
    let pending = lit_bytes("PENDING");
    let running = lit_bytes("RUNNING");
    let configuring = lit_bytes("CONFIGURING");
    let completing = lit_bytes("COMPLETING");
    !contains_bytes(resp, pending.as_slice()) && !contains_bytes(resp, running.as_slice())
        && !contains_bytes(resp, configuring.as_slice()) && !contains_bytes(
        resp,
        completing.as_slice(),
    )
}

} // verus!
