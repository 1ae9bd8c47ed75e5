//! Configuration for one job run.
//!
//! A run is described once, up front, by a [`GpuServer`] value; the
//! credentials alone also travel as a [`GpuServerConfig`].  The unverified
//! shell builds these from its environment and hands them in; nothing in the
//! library reads configuration ad hoc.
//!
//! All textual fields are kept as byte strings, exactly as they are sent to
//! the remote shell.

use vstd::prelude::*;

verus! {

/// The credential pair used to authenticate both remote sessions.
pub struct GpuServerConfig {
    pub username: Vec<u8>,
    pub password: Vec<u8>,
}

/// Everything one job run needs to know: credentials, names and directories.
pub struct GpuServer {
    pub username: Vec<u8>,
    pub password: Vec<u8>,
    pub job_name: Vec<u8>,
    pub resource_dir: Vec<u8>,
    pub code_file_name: Vec<u8>,
    pub remote_dir: Vec<u8>,
    pub compile_script: Vec<u8>,
}

/// Mathematical image of a [`GpuServer`]: each field as a byte sequence.
pub struct ServerModel {
    pub username: Seq<u8>,
    pub password: Seq<u8>,
    pub job_name: Seq<u8>,
    pub resource_dir: Seq<u8>,
    pub code_file_name: Seq<u8>,
    pub remote_dir: Seq<u8>,
    pub compile_script: Seq<u8>,
}

impl View for GpuServer {
    type V = ServerModel;

    open spec fn view(&self) -> ServerModel {
        ServerModel {
            username: self.username@,
            password: self.password@,
            job_name: self.job_name@,
            resource_dir: self.resource_dir@,
            code_file_name: self.code_file_name@,
            remote_dir: self.remote_dir@,
            compile_script: self.compile_script@,
        }
    }
}

impl GpuServer {
    /// The credentials of this run, for opening the two sessions.
    pub fn credentials(&self) -> (c: GpuServerConfig)
        ensures
            c.username@ == self@.username,
            c.password@ == self@.password,
    {
        GpuServerConfig {
            username: crate::text::copy_bytes(&self.username),
            password: crate::text::copy_bytes(&self.password),
        }
    }
}

} // verus!
