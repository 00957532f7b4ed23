//! Shared data model: connection targets, the operation applied to every
//! host, per-host outcomes, the error taxonomy, and the index-tagged
//! completion event that links a result back to its position in the input
//! host list.

use vstd::prelude::*;

verus! {

/// A resolved connection target. `timeout_ms` bounds only the connect,
/// handshake and authenticate phases of a session; the operation phase is
/// unbounded.
#[derive(Clone, Debug, PartialEq, Eq)]
pub struct HostInfo {
    pub host: String,
    pub username: String,
    pub password: String,
    pub port: u16,
    pub timeout_ms: u32,
}

/// What the caller asked for: write a fresh config template, run a command
/// remotely, or send a file to every host.
#[derive(Clone, Debug)]
pub enum Command {
    Init,
    Run { command: String },
    Send { source_fpath: String, target_fpath: String },
}

/// The resolved command line: config file path, optional config section,
/// the command, the worker count, and whether presentation order must follow
/// the input host order.
#[derive(Clone, Debug)]
pub struct CommandLineArgs {
    pub config: String,
    pub section: Option<String>,
    pub command: Command,
    pub num_threads: usize,
    pub keep_stable: bool,
}

/// The unit of work applied identically to every host. Unlike [`Command`]
/// it has no local-only variant, so a per-host run always has work to do.
#[derive(Clone, Debug)]
pub enum Operation {
    RunCommand { command: String },
    SendFile { source_fpath: String, target_fpath: String },
}

/// The successful result of one operation on one host.
#[derive(Clone, Debug)]
pub enum Outcome {
    CommandResult { exit_status: i32, stdout: Vec<u8>, stderr: Vec<u8> },
    TransferComplete,
}

/// Which stage of the per-host run failed. Closed taxonomy, so callers can
/// branch on the failure stage without string matching.
#[derive(Clone, Copy, Debug, PartialEq, Eq, Structural)]
pub enum ErrorKind {
    /// Transport could not be opened within the timeout (refusal, timeout,
    /// address resolution).
    ConnectError,
    /// The credential pair was rejected.
    AuthError,
    /// A channel, exec or transfer level failure, including any of the four
    /// upload shutdown phases.
    ProtocolError,
    /// Stat, open or read of the local source file failed.
    LocalIOError,
}

/// A per-host failure: the stage it arose in, plus the underlying message.
#[derive(Clone, Debug)]
pub struct Failure {
    pub kind: ErrorKind,
    pub message: String,
}

/// The index-tagged result of one host's run. `index` is the host's 0-based
/// position in the original input list and is the sole link back to input
/// order.
#[derive(Debug)]
pub struct CompletionEvent {
    pub index: usize,
    pub host: HostInfo,
    pub result: Result<Outcome, Failure>,
}

impl Command {
    /// The per-host operation this command stands for; `Init` is local-only
    /// and maps to none.
    pub fn to_operation(&self) -> (r: Option<Operation>)
        ensures
            r matches Some(op) ==> match op {
                Operation::RunCommand { command } => *self matches Command::Run { command: c }
                    && command == c,
                Operation::SendFile { source_fpath, target_fpath } => *self
                    matches Command::Send { source_fpath: s, target_fpath: t } && source_fpath == s
                    && target_fpath == t,
            },
            r is None <==> *self is Init,
    {
        match self {
            Command::Init => None,
            Command::Run { command } => Some(
                Operation::RunCommand { command: command.clone() },
            ),
            Command::Send { source_fpath, target_fpath } => Some(
                Operation::SendFile {
                    source_fpath: source_fpath.clone(),
                    target_fpath: target_fpath.clone(),
                },
            ),
        }
    }
}

} // verus!
