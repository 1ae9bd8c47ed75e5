use gpu_server::config::GpuServer;

fn server() -> GpuServer {
    GpuServer {
        username: b"stu".to_vec(),
        password: b"hunter2".to_vec(),
        job_name: b"train".to_vec(),
        resource_dir: b"/code".to_vec(),
        code_file_name: b"gpu.zip".to_vec(),
        remote_dir: b"/lustre/home/acct-stu/stu/train".to_vec(),
        compile_script: b"make".to_vec(),
    }
}

#[test]
fn listing_command_is_ls() {
    assert_eq!(server().ls_command(), b"ls".to_vec());
}

#[test]
fn unzip_command_unpacks_the_archive_in_place() {
    assert_eq!(
        server().unzip_command(),
        b"unzip -o -d /lustre/home/acct-stu/stu/train /lustre/home/acct-stu/stu/train/gpu.zip"
            .to_vec()
    );
}

#[test]
fn compile_command_runs_the_configured_step_in_the_job_directory() {
    assert_eq!(
        server().compile_command(),
        b"cd /lustre/home/acct-stu/stu/train && make".to_vec()
    );
}

#[test]
fn submit_command_submits_the_job_script() {
    assert_eq!(
        server().submit_command(),
        b"cd /lustre/home/acct-stu/stu/train && sbatch train.slurm".to_vec()
    );
}

#[test]
fn status_command_queries_the_state_field_by_job_id() {
    assert_eq!(
        gpu_server::commands::status_command(&b"12345".to_vec()),
        b"squeue -o %T -j 12345".to_vec()
    );
}

#[test]
fn cat_command_prints_the_jobs_stdout_file() {
    assert_eq!(
        server().cat_command(&b"12345".to_vec()),
        b"cat /lustre/home/acct-stu/stu/train/12345.out".to_vec()
    );
}

#[test]
fn transfer_paths_follow_the_file_layout() {
    let s = server();
    assert_eq!(s.local_code_path(), b"/code/gpu.zip".to_vec());
    assert_eq!(
        s.remote_code_path(),
        b"/lustre/home/acct-stu/stu/train/gpu.zip".to_vec()
    );
    assert_eq!(s.local_script_path(), b"/code/train.slurm".to_vec());
    assert_eq!(
        s.remote_script_path(),
        b"/lustre/home/acct-stu/stu/train/train.slurm".to_vec()
    );
    assert_eq!(
        s.remote_out_path(&b"7".to_vec()),
        b"/lustre/home/acct-stu/stu/train/7.out".to_vec()
    );
    assert_eq!(
        s.remote_err_path(&b"7".to_vec()),
        b"/lustre/home/acct-stu/stu/train/7.err".to_vec()
    );
    assert_eq!(s.local_out_path(), b"/code/output.out".to_vec());
    assert_eq!(s.local_err_path(), b"/code/output.err".to_vec());
}

#[test]
fn credentials_carry_the_username_and_password() {
    let c = server().credentials();
    assert_eq!(c.username, b"stu".to_vec());
    assert_eq!(c.password, b"hunter2".to_vec());
}
