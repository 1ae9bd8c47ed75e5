//! The completion poller.
//!
//! After submission the run watches one job id.  On a fixed interval the
//! poller asks the scheduler for the job's state and classifies the answer:
//! it stays in [`PollState::Polling`] while the answer contains any of the
//! four non-terminal markers, and moves to [`PollState::Done`] the first time
//! the answer contains none of them.  The timer and the query itself are the
//! shell's work; the poller owns the decision.

use vstd::prelude::*;

use crate::status::{classify_status, has_nonterminal_marker, is_terminal_status};
use crate::text::contains_seq;

verus! {

/// The two states of the completion poller.
#[derive(Clone, Copy, Debug, PartialEq, Eq, Structural)]
pub enum PollState {
    /// The job may still be in flight; keep querying.
    Polling,
    /// A response without non-terminal markers has been seen.
    Done,
}

/// Watches one submitted job until its status is terminal.
pub struct Poller {
    pub job_id: Vec<u8>,
    pub state: PollState,
}

/// Mathematical image of a poller.
pub struct PollerModel {
    pub job_id: Seq<u8>,
    pub state: PollState,
}

impl View for Poller {
    type V = PollerModel;

    open spec fn view(&self) -> PollerModel {
        PollerModel { job_id: self.job_id@, state: self.state }
    }
}

/// One classification step: the job id is kept, and the state becomes `Done`
/// exactly when the response is terminal.
pub open spec fn spec_poll_step(m: PollerModel, resp: Seq<u8>) -> PollerModel {
    PollerModel {
        job_id: m.job_id,
        state: if is_terminal_status(resp) {
            PollState::Done
        } else {
            PollState::Polling
        },
    }
}

impl Poller {
    /// Starts watching `job_id`.
    pub fn new(job_id: Vec<u8>) -> (p: Poller)
        ensures
            p@.job_id == job_id@,
            p@.state == PollState::Polling,
    {
        Poller { job_id, state: PollState::Polling }
    }

    /// Feeds one status response to the poller and reports whether the job
    /// is now terminal.
    pub fn on_status(&mut self, resp: &[u8]) -> (done: bool)
        requires
            old(self)@.state == PollState::Polling,
        ensures
            final(self)@ == spec_poll_step(old(self)@, resp@),
            done == is_terminal_status(resp@),
    {
        let terminal = classify_status(resp);
        if terminal {
            self.state = PollState::Done;
        }
        terminal
    }
}

/// A status response that still contains at least one of the four
/// non-terminal markers leaves the poller in `Polling`, whatever else the
/// response holds.
pub proof fn lemma_nonterminal_marker_keeps_polling(m: PollerModel, resp: Seq<u8>)
    requires
        m.state == PollState::Polling,
        has_nonterminal_marker(resp),
    ensures
        spec_poll_step(m, resp).state == PollState::Polling,
{
}

/// A status response that contains none of the four non-terminal markers
/// moves the poller to `Done` on that very check.
pub proof fn lemma_markerless_response_completes(m: PollerModel, resp: Seq<u8>)
    requires
        !contains_seq(resp, crate::status::spec_pending_marker()),
        !contains_seq(resp, crate::status::spec_running_marker()),
        !contains_seq(resp, crate::status::spec_configuring_marker()),
        !contains_seq(resp, crate::status::spec_completing_marker()),
    ensures
        spec_poll_step(m, resp).state == PollState::Done,
{
}

} // verus!
