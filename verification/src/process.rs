//! How the server process is started.

use crate::message::InitState;
use vstd::prelude::*;

verus! {

/// How the output of a process is handed over.
#[derive(Debug, Clone, Copy, PartialEq, Eq, Structural)]
pub enum OutputMode {
    /// As it comes.
    Raw,
}

/// The size of the output buffer of the server: absurdly large, so that no output
/// is cut off.
pub const BUFFER_SIZE: u32 = 1024 * 1024 * 1024;

/// What the host needs to know to start a process.
#[derive(Debug)]
pub struct ProcessConfig {
    pub program: String,
    pub args: Vec<String>,
    pub env: Vec<(String, String)>,
    pub cwd: Option<String>,
    pub buffer_size: u32,
    pub chunk_size: Option<u32>,
    pub stdout_mode: OutputMode,
    pub stderr_mode: OutputMode,
}

impl ProcessConfig {
    /// Whether this starts the server as the initial state wants it.
    pub open spec fn starts(self, server: InitState) -> bool {
        &&& self.program == server.command
        &&& self.args == server.args
        &&& self.env@ == Seq::<(String, String)>::empty()
        &&& self.cwd is None
        &&& self.buffer_size == 1024 * 1024 * 1024
        &&& self.chunk_size is None
        &&& self.stdout_mode == OutputMode::Raw
        &&& self.stderr_mode == OutputMode::Raw
    }

    /// How to start the server that the initial state wants.
    pub fn for_server(server: InitState) -> (r: ProcessConfig)
        ensures
            r.starts(server),
    {
        ProcessConfig {
            program: server.command,
            args: server.args,
            env: Vec::new(),
            cwd: None,
            buffer_size: BUFFER_SIZE,
            chunk_size: None,
            stdout_mode: OutputMode::Raw,
            stderr_mode: OutputMode::Raw,
        }
    }
}

} // verus!
