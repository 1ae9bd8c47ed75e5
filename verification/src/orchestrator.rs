//! The job-lifecycle state machine.
//!
//! One run is a fixed sequence: list the remote home directory, ensure the
//! remote job directory exists, upload the code archive and the batch-job
//! script, unpack, compile, submit, poll until the job is terminal, print the
//! job's standard output and fetch both output files.  The machine holds the
//! run's state and decides, from the previous state and the outcome the
//! shell reports, what to do next.  The shell performs each emitted
//! [`Action`] over its remote sessions and feeds the outcome back as an
//! [`Event`]; the first failure moves the machine to `Failed` and no action
//! is retried.

use vstd::prelude::*;

use crate::commands::{
    spec_cat_command, spec_compile_command, spec_local_code_path, spec_local_err_path,
    spec_local_out_path, spec_local_script_path, spec_ls_command, spec_remote_code_path,
    spec_remote_err_path, spec_remote_out_path, spec_remote_script_path, spec_status_command,
    spec_submit_command, spec_unzip_command,
};
use crate::config::{GpuServer, ServerModel};
use crate::errors::JobError;
use crate::parse::{parse_job_id, spec_parse_job_id};
use crate::poller::{spec_poll_step, PollState, Poller, PollerModel};

verus! {

/// What the shell must do next on behalf of the machine.
pub enum Action {
    /// Run a shell command on the control session and report its captured
    /// output and exit status.
    RunCommand { command: Vec<u8> },
    /// Report whether the remote directory at `path` exists.
    CheckRemoteDir { path: Vec<u8> },
    /// Create the remote directory at `path` with open permissions.
    CreateRemoteDir { path: Vec<u8> },
    /// Copy the whole local file at `local` to `remote` over the data
    /// session.
    UploadFile { local: Vec<u8>, remote: Vec<u8> },
    /// Copy the whole remote file at `remote` to `local` over the data
    /// session.
    DownloadFile { remote: Vec<u8>, local: Vec<u8> },
    /// Wait one polling interval.
    Sleep,
    /// The run succeeded; `stdout` is the job's captured standard output.
    Finish { stdout: Vec<u8> },
    /// The run failed; nothing further will be asked.
    Fail { error: JobError },
}

/// The outcome the shell reports for the action it just performed.
pub enum Event {
    /// The command ran to completion with this captured output and exit
    /// status.
    CommandDone { output: Vec<u8>, exit_status: i32 },
    /// The command channel could not be opened or read.
    CommandFailed,
    /// The remote directory does (not) exist.
    DirChecked { exists: bool },
    /// The remote directory was created.
    DirCreated,
    /// The remote directory could not be created.
    DirCreateFailed,
    /// The upload completed, handshake included.
    UploadDone,
    /// The download completed, handshake included.
    DownloadDone,
    /// An upload or download failed.
    TransferFailed,
    /// One polling interval has passed.
    Slept,
}

/// Where in the fixed sequence the run stands.
pub enum Phase {
    /// Awaiting the sanity listing of the remote home directory.
    Listing,
    /// Awaiting word on whether the remote job directory exists.
    CheckingDir,
    /// Awaiting creation of the remote job directory.
    MakingDir,
    /// Awaiting the upload of the code archive.
    UploadingCode,
    /// Awaiting the upload of the batch-job script.
    UploadingScript,
    /// Awaiting the remote unpack step.
    Unpacking,
    /// Awaiting the remote compile step.
    Compiling,
    /// Awaiting the scheduler's submission acknowledgment.
    Submitting,
    /// Awaiting a scheduler status response.
    Polling { poller: Poller },
    /// Awaiting the end of one polling interval.
    PollWaiting { poller: Poller },
    /// Awaiting the remote print of the job's standard output.
    Fetching { job_id: Vec<u8> },
    /// Awaiting the download of the standard-output file.
    FetchingOut { job_id: Vec<u8>, stdout: Vec<u8> },
    /// Awaiting the download of the standard-error file.
    FetchingErr { stdout: Vec<u8> },
    /// The run succeeded.
    Done { stdout: Vec<u8> },
    /// The run failed; the machine accepts nothing further.
    Failed { error: JobError },
}

/// Mathematical image of an [`Action`].
pub enum ActionModel {
    RunCommand { command: Seq<u8> },
    CheckRemoteDir { path: Seq<u8> },
    CreateRemoteDir { path: Seq<u8> },
    UploadFile { local: Seq<u8>, remote: Seq<u8> },
    DownloadFile { remote: Seq<u8>, local: Seq<u8> },
    Sleep,
    Finish { stdout: Seq<u8> },
    Fail { error: JobError },
}

/// Mathematical image of an [`Event`].
pub enum EventModel {
    CommandDone { output: Seq<u8>, exit_status: i32 },
    CommandFailed,
    DirChecked { exists: bool },
    DirCreated,
    DirCreateFailed,
    UploadDone,
    DownloadDone,
    TransferFailed,
    Slept,
}

/// Mathematical image of a [`Phase`].
pub enum PhaseModel {
    Listing,
    CheckingDir,
    MakingDir,
    UploadingCode,
    UploadingScript,
    Unpacking,
    Compiling,
    Submitting,
    Polling { poller: PollerModel },
    PollWaiting { poller: PollerModel },
    Fetching { job_id: Seq<u8> },
    FetchingOut { job_id: Seq<u8>, stdout: Seq<u8> },
    FetchingErr { stdout: Seq<u8> },
    Done { stdout: Seq<u8> },
    Failed { error: JobError },
}

impl View for Action {
    type V = ActionModel;

    open spec fn view(&self) -> ActionModel {
        match self {
            Action::RunCommand { command } => ActionModel::RunCommand { command: command@ },
            Action::CheckRemoteDir { path } => ActionModel::CheckRemoteDir { path: path@ },
            Action::CreateRemoteDir { path } => ActionModel::CreateRemoteDir { path: path@ },
            Action::UploadFile { local, remote } => ActionModel::UploadFile {
                local: local@,
                remote: remote@,
            },
            Action::DownloadFile { remote, local } => ActionModel::DownloadFile {
                remote: remote@,
                local: local@,
            },
            Action::Sleep => ActionModel::Sleep,
            Action::Finish { stdout } => ActionModel::Finish { stdout: stdout@ },
            Action::Fail { error } => ActionModel::Fail { error: *error },
        }
    }
}

impl View for Event {
    type V = EventModel;

    open spec fn view(&self) -> EventModel {
        match self {
            Event::CommandDone { output, exit_status } => EventModel::CommandDone {
                output: output@,
                exit_status: *exit_status,
            },
            Event::CommandFailed => EventModel::CommandFailed,
            Event::DirChecked { exists } => EventModel::DirChecked { exists: *exists },
            Event::DirCreated => EventModel::DirCreated,
            Event::DirCreateFailed => EventModel::DirCreateFailed,
            Event::UploadDone => EventModel::UploadDone,
            Event::DownloadDone => EventModel::DownloadDone,
            Event::TransferFailed => EventModel::TransferFailed,
            Event::Slept => EventModel::Slept,
        }
    }
}

impl View for Phase {
    type V = PhaseModel;

    open spec fn view(&self) -> PhaseModel {
        match self {
            Phase::Listing => PhaseModel::Listing,
            Phase::CheckingDir => PhaseModel::CheckingDir,
            Phase::MakingDir => PhaseModel::MakingDir,
            Phase::UploadingCode => PhaseModel::UploadingCode,
            Phase::UploadingScript => PhaseModel::UploadingScript,
            Phase::Unpacking => PhaseModel::Unpacking,
            Phase::Compiling => PhaseModel::Compiling,
            Phase::Submitting => PhaseModel::Submitting,
            Phase::Polling { poller } => PhaseModel::Polling { poller: poller@ },
            Phase::PollWaiting { poller } => PhaseModel::PollWaiting { poller: poller@ },
            Phase::Fetching { job_id } => PhaseModel::Fetching { job_id: job_id@ },
            Phase::FetchingOut { job_id, stdout } => PhaseModel::FetchingOut {
                job_id: job_id@,
                stdout: stdout@,
            },
            Phase::FetchingErr { stdout } => PhaseModel::FetchingErr { stdout: stdout@ },
            Phase::Done { stdout } => PhaseModel::Done { stdout: stdout@ },
            Phase::Failed { error } => PhaseModel::Failed { error: *error },
        }
    }
}

/// Sequences one job run.
pub struct Orchestrator {
    pub server: GpuServer,
    pub phase: Phase,
}

/// Mathematical image of an [`Orchestrator`].
pub struct OrchestratorModel {
    pub server: ServerModel,
    pub phase: PhaseModel,
}

impl View for Orchestrator {
    type V = OrchestratorModel;

    open spec fn view(&self) -> OrchestratorModel {
        OrchestratorModel { server: self.server@, phase: self.phase@ }
    }
}

/// The same machine in a new phase.
pub open spec fn with_phase(m: OrchestratorModel, p: PhaseModel) -> OrchestratorModel {
    OrchestratorModel { server: m.server, phase: p }
}

/// The machine aborts: it moves to `Failed` and asks the shell to surface
/// the error.
pub open spec fn spec_fail(m: OrchestratorModel, error: JobError) -> (OrchestratorModel,
    ActionModel,
) {
    (with_phase(m, PhaseModel::Failed { error }), ActionModel::Fail { error })
}

/// Which events a phase can answer.  Terminal phases answer none.
pub open spec fn spec_accepts(p: PhaseModel, e: EventModel) -> bool {
    match p {
        PhaseModel::Listing
        | PhaseModel::Unpacking
        | PhaseModel::Compiling
        | PhaseModel::Submitting
        | PhaseModel::Polling { .. }
        | PhaseModel::Fetching { .. } => (e is CommandDone || e is CommandFailed),
        PhaseModel::CheckingDir => e is DirChecked,
        PhaseModel::MakingDir => (e is DirCreated || e is DirCreateFailed),
        PhaseModel::UploadingCode | PhaseModel::UploadingScript => (e is UploadDone
            || e is TransferFailed),
        PhaseModel::FetchingOut { .. } | PhaseModel::FetchingErr { .. } => (e is DownloadDone
            || e is TransferFailed),
        PhaseModel::PollWaiting { .. } => e is Slept,
        PhaseModel::Done { .. } | PhaseModel::Failed { .. } => false,
    }
}

/// A machine whose poller, when it has one, is still polling.
impl OrchestratorModel {
    pub open spec fn wf(self) -> bool {
        match self.phase {
            PhaseModel::Polling { poller } => poller.state == PollState::Polling,
            PhaseModel::PollWaiting { poller } => poller.state == PollState::Polling,
            _ => true,
        }
    }
}

/// The transition relation of one run: from the machine and the reported
/// outcome to the next machine and the next thing to do.
pub open spec fn spec_step(m: OrchestratorModel, e: EventModel) -> (OrchestratorModel, ActionModel)
    recommends
        spec_accepts(m.phase, e),
{
    let s = m.server;
    match (m.phase, e) {
        // The listing is diagnostic only: its exit status is not consulted.
        (PhaseModel::Listing, EventModel::CommandDone { .. }) => (
            with_phase(m, PhaseModel::CheckingDir),
            ActionModel::CheckRemoteDir { path: s.remote_dir },
        ),
        (PhaseModel::Listing, EventModel::CommandFailed) => spec_fail(m, JobError::Command),
        (PhaseModel::CheckingDir, EventModel::DirChecked { exists }) => if exists {
            (
                with_phase(m, PhaseModel::UploadingCode),
                ActionModel::UploadFile {
                    local: spec_local_code_path(s),
                    remote: spec_remote_code_path(s),
                },
            )
        } else {
            (
                with_phase(m, PhaseModel::MakingDir),
                ActionModel::CreateRemoteDir { path: s.remote_dir },
            )
        },
        (PhaseModel::MakingDir, EventModel::DirCreated) => (
            with_phase(m, PhaseModel::UploadingCode),
            ActionModel::UploadFile {
                local: spec_local_code_path(s),
                remote: spec_remote_code_path(s),
            },
        ),
        (PhaseModel::MakingDir, EventModel::DirCreateFailed) => spec_fail(m, JobError::Transfer),
        (PhaseModel::UploadingCode, EventModel::UploadDone) => (
            with_phase(m, PhaseModel::UploadingScript),
            ActionModel::UploadFile {
                local: spec_local_script_path(s),
                remote: spec_remote_script_path(s),
            },
        ),
        (PhaseModel::UploadingCode, EventModel::TransferFailed) => spec_fail(
            m,
            JobError::Transfer,
        ),
        (PhaseModel::UploadingScript, EventModel::UploadDone) => (
            with_phase(m, PhaseModel::Unpacking),
            ActionModel::RunCommand { command: spec_unzip_command(s) },
        ),
        (PhaseModel::UploadingScript, EventModel::TransferFailed) => spec_fail(
            m,
            JobError::Transfer,
        ),
        (PhaseModel::Unpacking, EventModel::CommandDone { exit_status, .. }) => if exit_status
            == 0 {
            (
                with_phase(m, PhaseModel::Compiling),
                ActionModel::RunCommand { command: spec_compile_command(s) },
            )
        } else {
            spec_fail(m, JobError::Command)
        },
        (PhaseModel::Unpacking, EventModel::CommandFailed) => spec_fail(m, JobError::Command),
        (PhaseModel::Compiling, EventModel::CommandDone { exit_status, .. }) => if exit_status
            == 0 {
            (
                with_phase(m, PhaseModel::Submitting),
                ActionModel::RunCommand { command: spec_submit_command(s) },
            )
        } else {
            spec_fail(m, JobError::Command)
        },
        (PhaseModel::Compiling, EventModel::CommandFailed) => spec_fail(m, JobError::Command),
        (PhaseModel::Submitting, EventModel::CommandDone { output, exit_status }) => if exit_status
            != 0 {
            spec_fail(m, JobError::Command)
        } else {
            match spec_parse_job_id(output) {
                Some(id) => (
                    with_phase(
                        m,
                        PhaseModel::Polling {
                            poller: PollerModel { job_id: id, state: PollState::Polling },
                        },
                    ),
                    ActionModel::RunCommand { command: spec_status_command(id) },
                ),
                None => spec_fail(m, JobError::Parse),
            }
        },
        (PhaseModel::Submitting, EventModel::CommandFailed) => spec_fail(m, JobError::Command),
        (PhaseModel::Polling { poller }, EventModel::CommandDone { output, .. }) => {
            // The query's exit status is deliberately not consulted: a job
            // already gone from the queue can make the status query itself
            // exit non-zero, and absence means the job is terminal.
            let stepped = spec_poll_step(poller, output);
            if stepped.state == PollState::Done {
                (
                    with_phase(m, PhaseModel::Fetching { job_id: poller.job_id }),
                    ActionModel::RunCommand { command: spec_cat_command(s, poller.job_id) },
                )
            } else {
                (with_phase(m, PhaseModel::PollWaiting { poller: stepped }), ActionModel::Sleep)
            }
        },
        (PhaseModel::Polling { .. }, EventModel::CommandFailed) => spec_fail(m, JobError::Poll),
        (PhaseModel::PollWaiting { poller }, EventModel::Slept) => (
            with_phase(m, PhaseModel::Polling { poller }),
            ActionModel::RunCommand { command: spec_status_command(poller.job_id) },
        ),
        (PhaseModel::Fetching { job_id }, EventModel::CommandDone { output, exit_status }) => if exit_status
            == 0 {
            (
                with_phase(m, PhaseModel::FetchingOut { job_id, stdout: output }),
                ActionModel::DownloadFile {
                    remote: spec_remote_out_path(s, job_id),
                    local: spec_local_out_path(s),
                },
            )
        } else {
            spec_fail(m, JobError::Command)
        },
        (PhaseModel::Fetching { .. }, EventModel::CommandFailed) => spec_fail(m, JobError::Command),
        (PhaseModel::FetchingOut { job_id, stdout }, EventModel::DownloadDone) => (
            with_phase(m, PhaseModel::FetchingErr { stdout }),
            ActionModel::DownloadFile {
                remote: spec_remote_err_path(s, job_id),
                local: spec_local_err_path(s),
            },
        ),
        (PhaseModel::FetchingOut { .. }, EventModel::TransferFailed) => spec_fail(
            m,
            JobError::Transfer,
        ),
        (PhaseModel::FetchingErr { stdout }, EventModel::DownloadDone) => (
            with_phase(m, PhaseModel::Done { stdout }),
            ActionModel::Finish { stdout },
        ),
        (PhaseModel::FetchingErr { .. }, EventModel::TransferFailed) => spec_fail(
            m,
            JobError::Transfer,
        ),
        _ => spec_fail(m, JobError::Command),
    }
}

impl Orchestrator {
    /// Starts one run.  The first thing a run does is the sanity listing of
    /// the remote home directory.
    pub fn new(server: GpuServer) -> (r: (Orchestrator, Action))
        ensures
            r.0@.server == server@,
            r.0@.phase == PhaseModel::Listing,
            r.0@.wf(),
            r.1@ == (ActionModel::RunCommand { command: spec_ls_command() }),
    {
        let command = server.ls_command();
        (Orchestrator { server, phase: Phase::Listing }, Action::RunCommand { command })
    }

    /// Whether the machine can answer `e` in its current phase.  The shell
    /// checks this before stepping.
    pub fn accepts(&self, e: &Event) -> (b: bool)
        ensures
            b == spec_accepts(self@.phase, e@),
    {
        match (&self.phase, e) {
            (Phase::Listing, Event::CommandDone { .. }) => true,
            (Phase::Listing, Event::CommandFailed) => true,
            (Phase::Unpacking, Event::CommandDone { .. }) => true,
            (Phase::Unpacking, Event::CommandFailed) => true,
            (Phase::Compiling, Event::CommandDone { .. }) => true,
            (Phase::Compiling, Event::CommandFailed) => true,
            (Phase::Submitting, Event::CommandDone { .. }) => true,
            (Phase::Submitting, Event::CommandFailed) => true,
            (Phase::Polling { .. }, Event::CommandDone { .. }) => true,
            (Phase::Polling { .. }, Event::CommandFailed) => true,
            (Phase::Fetching { .. }, Event::CommandDone { .. }) => true,
            (Phase::Fetching { .. }, Event::CommandFailed) => true,
            (Phase::CheckingDir, Event::DirChecked { .. }) => true,
            (Phase::MakingDir, Event::DirCreated) => true,
            (Phase::MakingDir, Event::DirCreateFailed) => true,
            (Phase::UploadingCode, Event::UploadDone) => true,
            (Phase::UploadingCode, Event::TransferFailed) => true,
            (Phase::UploadingScript, Event::UploadDone) => true,
            (Phase::UploadingScript, Event::TransferFailed) => true,
            (Phase::FetchingOut { .. }, Event::DownloadDone) => true,
            (Phase::FetchingOut { .. }, Event::TransferFailed) => true,
            (Phase::FetchingErr { .. }, Event::DownloadDone) => true,
            (Phase::FetchingErr { .. }, Event::TransferFailed) => true,
            (Phase::PollWaiting { .. }, Event::Slept) => true,
            _ => false,
        }
    }

    /// Answers one reported outcome: the machine moves to its next phase and
    /// says what the shell must do next.
    pub fn step(self, e: Event) -> (r: (Orchestrator, Action))
        requires
            self@.wf(),
            spec_accepts(self@.phase, e@),
        ensures
            r.0@ == spec_step(self@, e@).0,
            r.1@ == spec_step(self@, e@).1,
            r.0@.wf(),
    {
        let Orchestrator { server, phase } = self;
        match (phase, e) {
            (Phase::Listing, Event::CommandDone { .. }) => {
                let path = crate::text::copy_bytes(&server.remote_dir);
                (
                    Orchestrator { server, phase: Phase::CheckingDir },
                    Action::CheckRemoteDir { path },
                )
            },
            (Phase::Listing, Event::CommandFailed) => Self::fail(server, JobError::Command),
            (Phase::CheckingDir, Event::DirChecked { exists }) => {
                if exists {
                    let local = server.local_code_path();
                    let remote = server.remote_code_path();
                    (
                        Orchestrator { server, phase: Phase::UploadingCode },
                        Action::UploadFile { local, remote },
                    )
                } else {
                    let path = crate::text::copy_bytes(&server.remote_dir);
                    (
                        Orchestrator { server, phase: Phase::MakingDir },
                        Action::CreateRemoteDir { path },
                    )
                }
            },
            (Phase::MakingDir, Event::DirCreated) => {
                let local = server.local_code_path();
                let remote = server.remote_code_path();
                (
                    Orchestrator { server, phase: Phase::UploadingCode },
                    Action::UploadFile { local, remote },
                )
            },
            (Phase::MakingDir, Event::DirCreateFailed) => Self::fail(server, JobError::Transfer),
            (Phase::UploadingCode, Event::UploadDone) => {
                let local = server.local_script_path();
                let remote = server.remote_script_path();
                (
                    Orchestrator { server, phase: Phase::UploadingScript },
                    Action::UploadFile { local, remote },
                )
            },
            (Phase::UploadingCode, Event::TransferFailed) => Self::fail(
                server,
                JobError::Transfer,
            ),
            (Phase::UploadingScript, Event::UploadDone) => {
                let command = server.unzip_command();
                (Orchestrator { server, phase: Phase::Unpacking }, Action::RunCommand { command })
            },
            (Phase::UploadingScript, Event::TransferFailed) => Self::fail(
                server,
                JobError::Transfer,
            ),
            (Phase::Unpacking, Event::CommandDone { exit_status, .. }) => {
                if exit_status == 0 {
                    let command = server.compile_command();
                    (
                        Orchestrator { server, phase: Phase::Compiling },
                        Action::RunCommand { command },
                    )
                } else {
                    Self::fail(server, JobError::Command)
                }
            },
            (Phase::Unpacking, Event::CommandFailed) => Self::fail(server, JobError::Command),
            (Phase::Compiling, Event::CommandDone { exit_status, .. }) => {
                if exit_status == 0 {
                    let command = server.submit_command();
                    (
                        Orchestrator { server, phase: Phase::Submitting },
                        Action::RunCommand { command },
                    )
                } else {
                    Self::fail(server, JobError::Command)
                }
            },
            (Phase::Compiling, Event::CommandFailed) => Self::fail(server, JobError::Command),
            (Phase::Submitting, Event::CommandDone { output, exit_status }) => {
                if exit_status != 0 {
                    Self::fail(server, JobError::Command)
                } else {
                    match parse_job_id(output.as_slice()) {
                        Ok(id) => {
                            let poller = Poller::new(id);
                            let command = crate::commands::status_command(&poller.job_id);
                            (
                                Orchestrator { server, phase: Phase::Polling { poller } },
                                Action::RunCommand { command },
                            )
                        },
                        Err(_) => Self::fail(server, JobError::Parse),
                    }
                }
            },
            (Phase::Submitting, Event::CommandFailed) => Self::fail(server, JobError::Command),
            (Phase::Polling { poller }, Event::CommandDone { output, .. }) => {
                let mut poller = poller;
                let done = poller.on_status(output.as_slice());
                if done {
                    let command = server.cat_command(&poller.job_id);
                    let Poller { job_id, .. } = poller;
                    (
                        Orchestrator { server, phase: Phase::Fetching { job_id } },
                        Action::RunCommand { command },
                    )
                } else {
                    (Orchestrator { server, phase: Phase::PollWaiting { poller } }, Action::Sleep)
                }
            },
            (Phase::Polling { .. }, Event::CommandFailed) => Self::fail(server, JobError::Poll),
            (Phase::PollWaiting { poller }, Event::Slept) => {
                let command = crate::commands::status_command(&poller.job_id);
                (
                    Orchestrator { server, phase: Phase::Polling { poller } },
                    Action::RunCommand { command },
                )
            },
            (Phase::Fetching { job_id }, Event::CommandDone { output, exit_status }) => {
                if exit_status == 0 {
                    let remote = server.remote_out_path(&job_id);
                    let local = server.local_out_path();
                    (
                        Orchestrator {
                            server,
                            phase: Phase::FetchingOut { job_id, stdout: output },
                        },
                        Action::DownloadFile { remote, local },
                    )
                } else {
                    Self::fail(server, JobError::Command)
                }
            },
            (Phase::Fetching { .. }, Event::CommandFailed) => Self::fail(server, JobError::Command),
            (Phase::FetchingOut { job_id, stdout }, Event::DownloadDone) => {
                let remote = server.remote_err_path(&job_id);
                let local = server.local_err_path();
                (
                    Orchestrator { server, phase: Phase::FetchingErr { stdout } },
                    Action::DownloadFile { remote, local },
                )
            },
            (Phase::FetchingOut { .. }, Event::TransferFailed) => Self::fail(
                server,
                JobError::Transfer,
            ),
            (Phase::FetchingErr { stdout }, Event::DownloadDone) => {
                let out_copy = crate::text::copy_bytes(&stdout);
                (
                    Orchestrator { server, phase: Phase::Done { stdout } },
                    Action::Finish { stdout: out_copy },
                )
            },
            (Phase::FetchingErr { .. }, Event::TransferFailed) => Self::fail(
                server,
                JobError::Transfer,
            ),
            _ => Self::fail(server, JobError::Command),
        }
    }

    /// The failed machine and the action that surfaces the error.
    fn fail(server: GpuServer, error: JobError) -> (r: (Orchestrator, Action))
        ensures
            r.0@ == (OrchestratorModel { server: server@, phase: PhaseModel::Failed { error } }),
            r.1@ == (ActionModel::Fail { error }),
    {
        (Orchestrator { server, phase: Phase::Failed { error } }, Action::Fail { error })
    }
}

/// When the remote job directory does not exist, exactly one create action
/// separates the check from the first upload: the absent check answers with
/// a create of that very directory, and the created directory is answered
/// with the first upload.
pub proof fn lemma_absent_dir_creates_once_before_upload(m: OrchestratorModel)
    requires
        m.phase == PhaseModel::CheckingDir,
    ensures
        ({
            let (made, first) = spec_step(m, EventModel::DirChecked { exists: false });
            let (after, second) = spec_step(made, EventModel::DirCreated);
            &&& first == (ActionModel::CreateRemoteDir { path: m.server.remote_dir })
            &&& made.phase == PhaseModel::MakingDir
            &&& second == (ActionModel::UploadFile {
                local: spec_local_code_path(m.server),
                remote: spec_remote_code_path(m.server),
            })
            &&& after.phase == PhaseModel::UploadingCode
        }),
{
}

/// When the remote job directory already exists, no create action occurs:
/// the check is answered directly with the first upload.
pub proof fn lemma_present_dir_uploads_without_create(m: OrchestratorModel)
    requires
        m.phase == PhaseModel::CheckingDir,
    ensures
        ({
            let (after, first) = spec_step(m, EventModel::DirChecked { exists: true });
            &&& first == (ActionModel::UploadFile {
                local: spec_local_code_path(m.server),
                remote: spec_remote_code_path(m.server),
            })
            &&& after.phase == PhaseModel::UploadingCode
        }),
{
}

/// A create action is only ever emitted in answer to an absent directory
/// check; no other phase and event can produce one.
pub proof fn lemma_create_only_answers_absent_check(m: OrchestratorModel, e: EventModel)
    requires
        spec_accepts(m.phase, e),
        spec_step(m, e).1 is CreateRemoteDir,
    ensures
        m.phase == PhaseModel::CheckingDir,
        e == (EventModel::DirChecked { exists: false }),
{
}

/// A compile step that exits non-zero aborts the run with a command error:
/// the machine moves to `Failed` — from which it accepts nothing, so no
/// submission command is ever issued — and the shell is told to surface a
/// command error.
pub proof fn lemma_failed_compile_aborts(m: OrchestratorModel, output: Seq<u8>, exit_status: i32)
    requires
        m.phase == PhaseModel::Compiling,
        exit_status != 0,
    ensures
        ({
            let (after, a) = spec_step(m, EventModel::CommandDone { output, exit_status });
            &&& after.phase == (PhaseModel::Failed { error: JobError::Command })
            &&& a == (ActionModel::Fail { error: JobError::Command })
        }),
{
}

/// The machine reaches the submission phase only through a compile step
/// that exited zero.
pub proof fn lemma_submit_needs_compile_success(m: OrchestratorModel, e: EventModel)
    requires
        spec_accepts(m.phase, e),
        spec_step(m, e).0.phase is Submitting,
    ensures
        m.phase == PhaseModel::Compiling,
        e matches EventModel::CommandDone { exit_status, .. } && exit_status == 0,
{
}

/// The actions a machine emits while answering a whole sequence of events.
pub open spec fn spec_run(m: OrchestratorModel, es: Seq<EventModel>) -> Seq<ActionModel>
    decreases es.len(),
{
    if es.len() == 0 {
        Seq::empty()
    } else {
        seq![spec_step(m, es[0]).1] + spec_run(spec_step(m, es[0]).0, es.drop_first())
    }
}

/// How many directory-create actions a run of actions holds.
pub open spec fn count_creates(actions: Seq<ActionModel>) -> nat
    decreases actions.len(),
{
    if actions.len() == 0 {
        0
    } else {
        (if actions[0] is CreateRemoteDir {
            1nat
        } else {
            0nat
        }) + count_creates(actions.drop_first())
    }
}

/// The phases from which a directory-create action can still be reached.
pub open spec fn before_dir_check(p: PhaseModel) -> bool {
    p is Listing || p is CheckingDir
}

/// One unfolding of a run: the first action, then the rest of the run.
proof fn lemma_run_unfold(m: OrchestratorModel, es: Seq<EventModel>)
    requires
        es.len() > 0,
    ensures
        count_creates(spec_run(m, es)) == (if spec_step(m, es[0]).1 is CreateRemoteDir {
            1nat
        } else {
            0nat
        }) + count_creates(spec_run(spec_step(m, es[0]).0, es.drop_first())),
{
    let a = spec_step(m, es[0]).1;
    let tail = spec_run(spec_step(m, es[0]).0, es.drop_first());
    assert(spec_run(m, es) == seq![a] + tail);
    assert((seq![a] + tail)[0] == a);
    assert((seq![a] + tail).drop_first() =~= tail);
}

/// Once the directory check is answered, no transition leads back to it and
/// no later answer emits a create action, whatever events follow.
proof fn lemma_no_creates_after_dir_check(m: OrchestratorModel, es: Seq<EventModel>)
    requires
        !before_dir_check(m.phase),
        !(m.phase is MakingDir),
    ensures
        count_creates(spec_run(m, es)) == 0,
    decreases es.len(),
{
    if es.len() > 0 {
        let (m2, a) = spec_step(m, es[0]);
        lemma_run_unfold(m, es);
        assert(!(a is CreateRemoteDir));
        assert(!before_dir_check(m2.phase) && !(m2.phase is MakingDir));
        lemma_no_creates_after_dir_check(m2, es.drop_first());
    }
}

/// From the directory check onward, at most one create action is ever
/// emitted, whatever the events report.
proof fn lemma_at_most_one_create_from_check(m: OrchestratorModel, es: Seq<EventModel>)
    requires
        m.phase is CheckingDir,
    ensures
        count_creates(spec_run(m, es)) <= 1,
{
    if es.len() > 0 {
        let (m2, a) = spec_step(m, es[0]);
        lemma_run_unfold(m, es);
        if m2.phase is MakingDir {
            let rest = es.drop_first();
            if rest.len() > 0 {
                let (m3, b) = spec_step(m2, rest[0]);
                lemma_run_unfold(m2, rest);
                assert(!(b is CreateRemoteDir));
                assert(!before_dir_check(m3.phase) && !(m3.phase is MakingDir));
                lemma_no_creates_after_dir_check(m3, rest.drop_first());
            }
        } else {
            lemma_no_creates_after_dir_check(m2, es.drop_first());
        }
    }
}

/// Over one whole run, from the start, at most one directory-create action
/// is ever emitted — none when the directory check answers that the
/// directory exists.
pub proof fn lemma_whole_run_creates_at_most_once(m: OrchestratorModel, es: Seq<EventModel>)
    requires
        m.phase is Listing,
    ensures
        count_creates(spec_run(m, es)) <= 1,
{
    if es.len() > 0 {
        let (m2, a) = spec_step(m, es[0]);
        lemma_run_unfold(m, es);
        assert(!(a is CreateRemoteDir));
        if m2.phase is CheckingDir {
            lemma_at_most_one_create_from_check(m2, es.drop_first());
        } else {
            lemma_no_creates_after_dir_check(m2, es.drop_first());
        }
    }
}

/// The job id a phase is working with, where it has one.
pub open spec fn tracked_job_id(p: PhaseModel) -> Option<Seq<u8>> {
    match p {
        PhaseModel::Polling { poller } => Some(poller.job_id),
        PhaseModel::PollWaiting { poller } => Some(poller.job_id),
        PhaseModel::Fetching { job_id } => Some(job_id),
        PhaseModel::FetchingOut { job_id, .. } => Some(job_id),
        _ => None,
    }
}

/// The id the machine starts polling with is exactly the id parsed from the
/// submission acknowledgment, and the first status query names it verbatim.
pub proof fn lemma_polling_uses_the_parsed_id(m: OrchestratorModel, output: Seq<u8>)
    requires
        m.phase is Submitting,
        spec_parse_job_id(output) is Some,
    ensures
        ({
            let (after, a) = spec_step(
                m,
                EventModel::CommandDone { output, exit_status: 0 },
            );
            &&& tracked_job_id(after.phase) == spec_parse_job_id(output)
            &&& a == (ActionModel::RunCommand {
                command: spec_status_command(spec_parse_job_id(output).unwrap()),
            })
        }),
{
}

/// Once the machine holds a job id, no transition that still holds one ever
/// changes it: polling, waiting and fetching all speak of the same id the
/// submission acknowledgment gave.
pub proof fn lemma_job_id_is_kept_verbatim(m: OrchestratorModel, e: EventModel)
    requires
        spec_accepts(m.phase, e),
        tracked_job_id(m.phase) is Some,
        tracked_job_id(spec_step(m, e).0.phase) is Some,
    ensures
        tracked_job_id(spec_step(m, e).0.phase) == tracked_job_id(m.phase),
{
}

/// A finished run, successful or failed, answers no further event.
pub proof fn lemma_terminal_phases_absorb(m: OrchestratorModel, e: EventModel)
    requires
        m.phase is Done || m.phase is Failed,
    ensures
        !spec_accepts(m.phase, e),
{
}

} // verus!
