//! The shell command lines and file paths one job run uses.
//!
//! Each builder has a spec-level twin that states the exact byte sequence it
//! produces, as a concatenation of configuration fields and ASCII literals;
//! the job-lifecycle machine's contract is phrased over these spec functions.

use vstd::prelude::*;

use crate::config::{GpuServer, ServerModel};
use crate::text::{append_bytes, ascii_bytes, lit_bytes};

verus! {

/// Appends an ASCII literal to a command line under construction.
pub fn append_lit(dst: &mut Vec<u8>, s: &str)
    requires
        s.is_ascii(),
    ensures
        final(dst)@ == old(dst)@ + ascii_bytes(s@),
{
    let part = lit_bytes(s);
    append_bytes(dst, &part);
}

/// The sanity listing of the remote home directory.
pub open spec fn spec_ls_command() -> Seq<u8> {
    ascii_bytes("ls"@)
}

/// Unpacks the uploaded code archive inside the remote job directory.
pub open spec fn spec_unzip_command(s: ServerModel) -> Seq<u8> {
    ascii_bytes("unzip -o -d "@) + s.remote_dir + ascii_bytes(" "@) + s.remote_dir + ascii_bytes(
        "/"@,
    ) + s.code_file_name
}

/// Runs the configured compile step inside the remote job directory.
pub open spec fn spec_compile_command(s: ServerModel) -> Seq<u8> {
    ascii_bytes("cd "@) + s.remote_dir + ascii_bytes(" && "@) + s.compile_script
}

/// Submits the job script to the batch scheduler from the job directory.
pub open spec fn spec_submit_command(s: ServerModel) -> Seq<u8> {
    ascii_bytes("cd "@) + s.remote_dir + ascii_bytes(" && sbatch "@) + s.job_name + ascii_bytes(
        ".slurm"@,
    )
}

/// Queries the scheduler for the state field of one job.
pub open spec fn spec_status_command(job_id: Seq<u8>) -> Seq<u8> {
    ascii_bytes("squeue -o %T -j "@) + job_id
}

/// Prints the job's standard-output file on the remote side.
pub open spec fn spec_cat_command(s: ServerModel, job_id: Seq<u8>) -> Seq<u8> {
    ascii_bytes("cat "@) + s.remote_dir + ascii_bytes("/"@) + job_id + ascii_bytes(".out"@)
}

/// Local path of the code archive to upload.
pub open spec fn spec_local_code_path(s: ServerModel) -> Seq<u8> {
    s.resource_dir + ascii_bytes("/"@) + s.code_file_name
}

/// Remote path the code archive is uploaded to.
pub open spec fn spec_remote_code_path(s: ServerModel) -> Seq<u8> {
    s.remote_dir + ascii_bytes("/"@) + s.code_file_name
}

/// Local path of the batch-job script to upload.
pub open spec fn spec_local_script_path(s: ServerModel) -> Seq<u8> {
    s.resource_dir + ascii_bytes("/"@) + s.job_name + ascii_bytes(".slurm"@)
}

/// Remote path the batch-job script is uploaded to.
pub open spec fn spec_remote_script_path(s: ServerModel) -> Seq<u8> {
    s.remote_dir + ascii_bytes("/"@) + s.job_name + ascii_bytes(".slurm"@)
}

/// Remote path of the finished job's standard-output file.
pub open spec fn spec_remote_out_path(s: ServerModel, job_id: Seq<u8>) -> Seq<u8> {
    s.remote_dir + ascii_bytes("/"@) + job_id + ascii_bytes(".out"@)
}

/// Remote path of the finished job's standard-error file.
pub open spec fn spec_remote_err_path(s: ServerModel, job_id: Seq<u8>) -> Seq<u8> {
    s.remote_dir + ascii_bytes("/"@) + job_id + ascii_bytes(".err"@)
}

/// Local path the standard-output file is fetched to.
pub open spec fn spec_local_out_path(s: ServerModel) -> Seq<u8> {
    s.resource_dir + ascii_bytes("/output.out"@)
}

/// Local path the standard-error file is fetched to.
pub open spec fn spec_local_err_path(s: ServerModel) -> Seq<u8> {
    s.resource_dir + ascii_bytes("/output.err"@)
}

/// Builds the scheduler status query for one job id.
pub fn status_command(job_id: &Vec<u8>) -> (c: Vec<u8>)
    ensures
        c@ == spec_status_command(job_id@),
{
    proof {
        reveal_strlit("squeue -o %T -j ");
    }
    let mut c = lit_bytes("squeue -o %T -j ");
    append_bytes(&mut c, job_id);
    proof {
        assert(c@ =~= spec_status_command(job_id@));
    }
    c
}

impl GpuServer {
    /// Builds the remote home-directory listing command.
    pub fn ls_command(&self) -> (c: Vec<u8>)
        ensures
            c@ == spec_ls_command(),
    {
        proof {
            reveal_strlit("ls");
        }
        lit_bytes("ls")
    }

    /// Builds the command that unpacks the code archive remotely.
    pub fn unzip_command(&self) -> (c: Vec<u8>)
        ensures
            c@ == spec_unzip_command(self@),
    {
        proof {
            reveal_strlit("unzip -o -d ");
            reveal_strlit(" ");
            reveal_strlit("/");
        }
        let mut c = lit_bytes("unzip -o -d ");
        append_bytes(&mut c, &self.remote_dir);
        append_lit(&mut c, " ");
        append_bytes(&mut c, &self.remote_dir);
        append_lit(&mut c, "/");
        append_bytes(&mut c, &self.code_file_name);
        proof {
            assert(c@ =~= spec_unzip_command(self@));
        }
        c
    }

    /// Builds the remote compile command.
    pub fn compile_command(&self) -> (c: Vec<u8>)
        ensures
            c@ == spec_compile_command(self@),
    {
        proof {
            reveal_strlit("cd ");
            reveal_strlit(" && ");
        }
        let mut c = lit_bytes("cd ");
        append_bytes(&mut c, &self.remote_dir);
        append_lit(&mut c, " && ");
        append_bytes(&mut c, &self.compile_script);
        proof {
            assert(c@ =~= spec_compile_command(self@));
        }
        c
    }

    /// Builds the scheduler submission command.
    pub fn submit_command(&self) -> (c: Vec<u8>)
        ensures
            c@ == spec_submit_command(self@),
    {
        proof {
            reveal_strlit("cd ");
            reveal_strlit(" && sbatch ");
            reveal_strlit(".slurm");
        }
        let mut c = lit_bytes("cd ");
        append_bytes(&mut c, &self.remote_dir);
        append_lit(&mut c, " && sbatch ");
        append_bytes(&mut c, &self.job_name);
        append_lit(&mut c, ".slurm");
        proof {
            assert(c@ =~= spec_submit_command(self@));
        }
        c
    }

    /// Builds the command that prints the finished job's standard output.
    pub fn cat_command(&self, job_id: &Vec<u8>) -> (c: Vec<u8>)
        ensures
            c@ == spec_cat_command(self@, job_id@),
    {
        proof {
            reveal_strlit("cat ");
            reveal_strlit("/");
            reveal_strlit(".out");
        }
        let mut c = lit_bytes("cat ");
        append_bytes(&mut c, &self.remote_dir);
        append_lit(&mut c, "/");
        append_bytes(&mut c, job_id);
        append_lit(&mut c, ".out");
        proof {
            assert(c@ =~= spec_cat_command(self@, job_id@));
        }
        c
    }

    /// Builds the local path of the code archive.
    pub fn local_code_path(&self) -> (p: Vec<u8>)
        ensures
            p@ == spec_local_code_path(self@),
    {
        proof {
            reveal_strlit("/");
        }
        let mut p = crate::text::copy_bytes(&self.resource_dir);
        append_lit(&mut p, "/");
        append_bytes(&mut p, &self.code_file_name);
        proof {
            assert(p@ =~= spec_local_code_path(self@));
        }
        p
    }

    /// Builds the remote path of the code archive.
    pub fn remote_code_path(&self) -> (p: Vec<u8>)
        ensures
            p@ == spec_remote_code_path(self@),
    {
        proof {
            reveal_strlit("/");
        }
        let mut p = crate::text::copy_bytes(&self.remote_dir);
        append_lit(&mut p, "/");
        append_bytes(&mut p, &self.code_file_name);
        proof {
            assert(p@ =~= spec_remote_code_path(self@));
        }
        p
    }

    /// Builds the local path of the batch-job script.
    pub fn local_script_path(&self) -> (p: Vec<u8>)
        ensures
            p@ == spec_local_script_path(self@),
    {
        proof {
            reveal_strlit("/");
            reveal_strlit(".slurm");
        }
        let mut p = crate::text::copy_bytes(&self.resource_dir);
        append_lit(&mut p, "/");
        append_bytes(&mut p, &self.job_name);
        append_lit(&mut p, ".slurm");
        proof {
            assert(p@ =~= spec_local_script_path(self@));
        }
        p
    }

    /// Builds the remote path of the batch-job script.
    pub fn remote_script_path(&self) -> (p: Vec<u8>)
        ensures
            p@ == spec_remote_script_path(self@),
    {
        proof {
            reveal_strlit("/");
            reveal_strlit(".slurm");
        }
        let mut p = crate::text::copy_bytes(&self.remote_dir);
        append_lit(&mut p, "/");
        append_bytes(&mut p, &self.job_name);
        append_lit(&mut p, ".slurm");
        proof {
            assert(p@ =~= spec_remote_script_path(self@));
        }
        p
    }

    /// Builds the remote path of the job's standard-output file.
    pub fn remote_out_path(&self, job_id: &Vec<u8>) -> (p: Vec<u8>)
        ensures
            p@ == spec_remote_out_path(self@, job_id@),
    {
        proof {
            reveal_strlit("/");
            reveal_strlit(".out");
        }
        let mut p = crate::text::copy_bytes(&self.remote_dir);
        append_lit(&mut p, "/");
        append_bytes(&mut p, job_id);
        append_lit(&mut p, ".out");
        proof {
            assert(p@ =~= spec_remote_out_path(self@, job_id@));
        }
        p
    }

    /// Builds the remote path of the job's standard-error file.
    pub fn remote_err_path(&self, job_id: &Vec<u8>) -> (p: Vec<u8>)
        ensures
            p@ == spec_remote_err_path(self@, job_id@),
    {
        proof {
            reveal_strlit("/");
            reveal_strlit(".err");
        }
        let mut p = crate::text::copy_bytes(&self.remote_dir);
        append_lit(&mut p, "/");
        append_bytes(&mut p, job_id);
        append_lit(&mut p, ".err");
        proof {
            assert(p@ =~= spec_remote_err_path(self@, job_id@));
        }
        p
    }

    /// Builds the local path the standard-output file is fetched to.
    pub fn local_out_path(&self) -> (p: Vec<u8>)
        ensures
            p@ == spec_local_out_path(self@),
    {
        proof {
            reveal_strlit("/output.out");
        }
        let mut p = crate::text::copy_bytes(&self.resource_dir);
        append_lit(&mut p, "/output.out");
        proof {
            assert(p@ =~= spec_local_out_path(self@));
        }
        p
    }

    /// Builds the local path the standard-error file is fetched to.
    pub fn local_err_path(&self) -> (p: Vec<u8>)
        ensures
            p@ == spec_local_err_path(self@),
    {
        proof {
            reveal_strlit("/output.err");
        }
        let mut p = crate::text::copy_bytes(&self.resource_dir);
        append_lit(&mut p, "/output.err");
        proof {
            assert(p@ =~= spec_local_err_path(self@));
        }
        p
    }
}

} // verus!
