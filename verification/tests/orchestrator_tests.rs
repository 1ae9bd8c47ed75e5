use gpu_server::config::GpuServer;
use gpu_server::errors::JobError;
use gpu_server::orchestrator::{Action, Event, Orchestrator};

fn server() -> GpuServer {
    GpuServer {
        username: b"stu".to_vec(),
        password: b"hunter2".to_vec(),
        job_name: b"train".to_vec(),
        resource_dir: b"/code".to_vec(),
        code_file_name: b"gpu.zip".to_vec(),
        remote_dir: b"/remote/train".to_vec(),
        compile_script: b"make".to_vec(),
    }
}

fn command_ok(output: &[u8]) -> Event {
    Event::CommandDone { output: output.to_vec(), exit_status: 0 }
}

fn step(m: Orchestrator, e: Event) -> (Orchestrator, Action) {
    assert!(m.accepts(&e));
    m.step(e)
}

fn expect_command(a: Action, expected: &[u8]) {
    match a {
        Action::RunCommand { command } => assert_eq!(command, expected.to_vec()),
        _ => panic!("expected a command"),
    }
}

/// Drives a run up to the point where the submission acknowledgment is due,
/// with the remote job directory reported absent.
fn reach_submission(m: Orchestrator) -> Orchestrator {
    let (m, a) = step(m, command_ok(b"home listing\n"));
    assert!(matches!(a, Action::CheckRemoteDir { .. }));
    let (m, a) = step(m, Event::DirChecked { exists: false });
    assert!(matches!(a, Action::CreateRemoteDir { .. }));
    let (m, a) = step(m, Event::DirCreated);
    assert!(matches!(a, Action::UploadFile { .. }));
    let (m, a) = step(m, Event::UploadDone);
    assert!(matches!(a, Action::UploadFile { .. }));
    let (m, a) = step(m, Event::UploadDone);
    expect_command(a, b"unzip -o -d /remote/train /remote/train/gpu.zip");
    let (m, a) = step(m, command_ok(b""));
    expect_command(a, b"cd /remote/train && make");
    let (m, a) = step(m, command_ok(b""));
    expect_command(a, b"cd /remote/train && sbatch train.slurm");
    m
}

#[test]
fn a_full_run_issues_the_fixed_sequence_and_returns_the_stdout() {
    let (m, a) = Orchestrator::new(server());
    expect_command(a, b"ls");
    let m = reach_submission(m);
    let (m, a) = step(m, command_ok(b"Submitted batch job 777\n"));
    expect_command(a, b"squeue -o %T -j 777");
    let (m, a) = step(m, command_ok(b"RUNNING\n"));
    assert!(matches!(a, Action::Sleep));
    let (m, a) = step(m, Event::Slept);
    expect_command(a, b"squeue -o %T -j 777");
    let (m, a) = step(m, command_ok(b""));
    expect_command(a, b"cat /remote/train/777.out");
    let (m, a) = step(m, command_ok(b"job output\n"));
    match a {
        Action::DownloadFile { remote, local } => {
            assert_eq!(remote, b"/remote/train/777.out".to_vec());
            assert_eq!(local, b"/code/output.out".to_vec());
        }
        _ => panic!("expected the stdout download"),
    }
    let (m, a) = step(m, Event::DownloadDone);
    match a {
        Action::DownloadFile { remote, local } => {
            assert_eq!(remote, b"/remote/train/777.err".to_vec());
            assert_eq!(local, b"/code/output.err".to_vec());
        }
        _ => panic!("expected the stderr download"),
    }
    let (m, a) = step(m, Event::DownloadDone);
    match a {
        Action::Finish { stdout } => assert_eq!(stdout, b"job output\n".to_vec()),
        _ => panic!("expected the run to finish"),
    }
    // A finished run answers nothing further.
    assert!(!m.accepts(&Event::Slept));
    assert!(!m.accepts(&command_ok(b"")));
}

#[test]
fn an_absent_job_directory_is_created_exactly_once_before_the_first_upload() {
    let (m, _) = Orchestrator::new(server());
    let (m, a) = step(m, command_ok(b""));
    assert!(matches!(a, Action::CheckRemoteDir { .. }));
    let (m, a) = step(m, Event::DirChecked { exists: false });
    match a {
        Action::CreateRemoteDir { path } => assert_eq!(path, b"/remote/train".to_vec()),
        _ => panic!("expected the directory create"),
    }
    let (_, a) = step(m, Event::DirCreated);
    // The very next action is the first upload: no second create can occur.
    match a {
        Action::UploadFile { local, remote } => {
            assert_eq!(local, b"/code/gpu.zip".to_vec());
            assert_eq!(remote, b"/remote/train/gpu.zip".to_vec());
        }
        _ => panic!("expected the first upload"),
    }
}

#[test]
fn an_existing_job_directory_is_never_created() {
    let (m, _) = Orchestrator::new(server());
    let (m, a) = step(m, command_ok(b""));
    assert!(matches!(a, Action::CheckRemoteDir { .. }));
    let (_, a) = step(m, Event::DirChecked { exists: true });
    match a {
        Action::UploadFile { local, remote } => {
            assert_eq!(local, b"/code/gpu.zip".to_vec());
            assert_eq!(remote, b"/remote/train/gpu.zip".to_vec());
        }
        _ => panic!("expected the first upload with no create"),
    }
}

#[test]
fn polling_completes_on_the_third_check_after_two_full_intervals() {
    let (m, _) = Orchestrator::new(server());
    let m = reach_submission(m);
    let (mut m, a) = step(m, command_ok(b"Submitted batch job 42\n"));
    expect_command(a, b"squeue -o %T -j 42");
    let statuses: [&[u8]; 3] = [b"RUNNING\n", b"RUNNING\n", b"COMPLETED\n"];
    let mut checks: usize = 0;
    let mut intervals_waited: usize = 0;
    loop {
        let status = statuses[checks];
        checks += 1;
        let (next, a) = step(m, command_ok(status));
        m = next;
        match a {
            Action::Sleep => {
                intervals_waited += 1;
                let (next, a) = step(m, Event::Slept);
                m = next;
                assert!(matches!(a, Action::RunCommand { .. }));
            }
            Action::RunCommand { command } => {
                assert_eq!(command, b"cat /remote/train/42.out".to_vec());
                break;
            }
            _ => panic!("unexpected action while polling"),
        }
    }
    assert_eq!(checks, 3);
    assert_eq!(intervals_waited, 2);
}

#[test]
fn a_compile_step_that_exits_nonzero_aborts_before_submission() {
    let (m, _) = Orchestrator::new(server());
    let (m, _) = step(m, command_ok(b""));
    let (m, _) = step(m, Event::DirChecked { exists: true });
    let (m, _) = step(m, Event::UploadDone);
    let (m, a) = step(m, Event::UploadDone);
    expect_command(a, b"unzip -o -d /remote/train /remote/train/gpu.zip");
    let (m, a) = step(m, command_ok(b""));
    expect_command(a, b"cd /remote/train && make");
    let (m, a) = step(
        m,
        Event::CommandDone { output: b"make: *** error\n".to_vec(), exit_status: 2 },
    );
    match a {
        Action::Fail { error } => assert_eq!(error, JobError::Command),
        _ => panic!("expected the run to abort with a command error"),
    }
    // The machine is finished: no submission command can ever be issued.
    assert!(!m.accepts(&command_ok(b"")));
    assert!(!m.accepts(&Event::CommandFailed));
}

#[test]
fn a_bad_acknowledgment_aborts_with_a_parse_error() {
    let (m, _) = Orchestrator::new(server());
    let m = reach_submission(m);
    let (m, a) = step(m, command_ok(b"sbatch: error: invalid partition\n"));
    match a {
        Action::Fail { error } => assert_eq!(error, JobError::Parse),
        _ => panic!("expected a parse failure"),
    }
    assert!(!m.accepts(&command_ok(b"")));
}

#[test]
fn the_sanity_listing_is_diagnostic_only() {
    // A non-zero listing does not abort the run.
    let (m, _) = Orchestrator::new(server());
    let (_, a) = step(
        m,
        Event::CommandDone { output: b"ls: cannot open directory\n".to_vec(), exit_status: 2 },
    );
    assert!(matches!(a, Action::CheckRemoteDir { .. }));
}

#[test]
fn a_failed_command_channel_aborts_with_a_command_error() {
    let (m, _) = Orchestrator::new(server());
    let (_, a) = step(m, Event::CommandFailed);
    match a {
        Action::Fail { error } => assert_eq!(error, JobError::Command),
        _ => panic!("expected a command failure"),
    }
}

#[test]
fn a_failed_upload_aborts_with_a_transfer_error() {
    let (m, _) = Orchestrator::new(server());
    let (m, _) = step(m, command_ok(b""));
    let (m, _) = step(m, Event::DirChecked { exists: true });
    let (_, a) = step(m, Event::TransferFailed);
    match a {
        Action::Fail { error } => assert_eq!(error, JobError::Transfer),
        _ => panic!("expected a transfer failure"),
    }
}

#[test]
fn a_failed_status_query_aborts_with_a_poll_error() {
    let (m, _) = Orchestrator::new(server());
    let m = reach_submission(m);
    let (m, _) = step(m, command_ok(b"Submitted batch job 5\n"));
    let (_, a) = step(m, Event::CommandFailed);
    match a {
        Action::Fail { error } => assert_eq!(error, JobError::Poll),
        _ => panic!("expected a poll failure"),
    }
}

#[test]
fn a_nonzero_submission_exit_aborts_with_a_command_error() {
    let (m, _) = Orchestrator::new(server());
    let m = reach_submission(m);
    let (_, a) = step(
        m,
        Event::CommandDone { output: b"Submitted batch job 5\n".to_vec(), exit_status: 1 },
    );
    match a {
        Action::Fail { error } => assert_eq!(error, JobError::Command),
        _ => panic!("expected a command failure"),
    }
}

#[test]
fn polling_ignores_the_exit_status_of_the_status_query() {
    let (m, _) = Orchestrator::new(server());
    let m = reach_submission(m);
    let (m, _) = step(m, command_ok(b"Submitted batch job 6\n"));
    // A job already gone from the queue can make the query exit non-zero;
    // the empty response still means the job is terminal.
    let (_, a) = step(
        m,
        Event::CommandDone { output: b"".to_vec(), exit_status: 1 },
    );
    expect_command(a, b"cat /remote/train/6.out");
}
