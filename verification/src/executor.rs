//! The per-host session lifecycle: connect, authenticate, perform the
//! operation, capture output, tear down. The executor is a state machine:
//! it names the next outside action to perform (open a transport, start a
//! command, copy file data, ...) and advances on the action's reported
//! result. Every failure is mapped to its stage and becomes data in the
//! final result; nothing escapes the per-host boundary.
//!
//! The connect timeout bounds the connect, handshake and authenticate
//! phases only: the `Connect` and `Authenticate` actions carry it, later
//! actions do not, so long-running remote work is never killed by the
//! connect deadline.

use vstd::prelude::*;
use vstd::pervasive::unreached;
use crate::capture::CAPTURE_CEILING;
use crate::data::{HostInfo, Operation, Outcome, ErrorKind, Failure};

verus! {

/// Where in the session lifecycle one host's run stands.
#[derive(Clone, Copy, Debug, PartialEq, Eq, Structural)]
pub enum Phase {
    /// Opening the transport and performing the protocol handshake.
    Connecting,
    /// Presenting the credential pair.
    Authenticating,
    /// Opening the command channel (with its best-effort variables).
    OpeningChannel,
    /// Starting the remote command.
    Executing,
    /// Both output streams are being captured concurrently.
    Capturing,
    /// Waiting for remote closure and the exit status.
    WaitingClose,
    /// Reading size and permission bits of the local source file.
    StattingLocal,
    /// Opening the upload stream, pre-declared with size and mode.
    OpeningUpload,
    /// Opening the local source file for reading.
    OpeningLocal,
    /// Copying the local bytes into the upload stream.
    Copying,
    /// Upload shutdown, first phase: signal end of data.
    SendingEof,
    /// Upload shutdown, second phase: wait for the acknowledgment.
    WaitingEof,
    /// Upload shutdown, third phase: request channel close.
    ClosingChannel,
    /// Upload shutdown, fourth phase: wait for the close acknowledgment.
    WaitingChannelClose,
    /// The run is over; the result is available.
    Finished,
}

/// The outside action the driver must perform next. Every action is plain
/// data; the transport layer interprets it and reports an [`ExecEvent`].
#[derive(Clone, Debug)]
pub enum ExecAction {
    /// Open a transport to `host:port` and perform the handshake, both
    /// bounded by `timeout_ms`.
    Connect { host: String, port: u16, timeout_ms: u32 },
    /// Authenticate with the credential pair, still under the connect
    /// timeout; on success the driver lifts the timeout for the rest of the
    /// run.
    Authenticate { username: String, password: String, timeout_ms: u32 },
    /// Open the command channel and best-effort set the two informational
    /// variables to the originating host and port; failure to set them is
    /// ignored, not fatal.
    OpenCommandChannel { env_host: String, env_port: u16 },
    /// Start the remote command.
    Exec { command: String },
    /// Capture standard output and standard error as two independent
    /// concurrent tasks, each capped at `ceiling` bytes.
    CaptureStreams { ceiling: usize },
    /// Wait for the remote side to signal closure and fetch the exit
    /// status.
    WaitCloseAndExit,
    /// Stat the local source file for size and permission bits.
    StatLocal { path: String },
    /// Open the upload stream, pre-declared with the stat's size and its
    /// permission bits masked to the low nine.
    OpenUpload { path: String, mode: u32, size: u64 },
    /// Open the local source file for reading.
    OpenLocalFile { path: String },
    /// Copy the local file's bytes into the upload stream.
    TransferData,
    /// Upload shutdown, first phase.
    SendEof,
    /// Upload shutdown, second phase.
    WaitEof,
    /// Upload shutdown, third phase.
    CloseChannel,
    /// Upload shutdown, fourth phase.
    WaitChannelClose,
}

/// What the driver reports back for the action it was handed.
#[derive(Clone, Debug)]
pub enum ExecEvent {
    /// The action succeeded and carries no data.
    Succeeded,
    /// Size and permission bits of the local file.
    Stat { size: u64, mode: u32 },
    /// Both captures finished with these bytes.
    Captured { stdout: Vec<u8>, stderr: Vec<u8> },
    /// The remote side closed with this exit status.
    Exited { exit_status: i32 },
    /// The action failed with this message.
    Failed { message: String },
}

/// The error stage charged for a failure in each phase: the connect phase
/// yields `ConnectError`, credential rejection `AuthError`, local stat or
/// open `LocalIOError`, and every channel, exec or transfer level failure —
/// including each of the four upload shutdown phases — `ProtocolError`.
pub open spec fn failure_kind(phase: Phase) -> ErrorKind {
    match phase {
        Phase::Connecting => ErrorKind::ConnectError,
        Phase::Authenticating => ErrorKind::AuthError,
        Phase::StattingLocal => ErrorKind::LocalIOError,
        Phase::OpeningLocal => ErrorKind::LocalIOError,
        _ => ErrorKind::ProtocolError,
    }
}

/// Which events a phase can legally report: data-carrying events belong to
/// the phases that produce the data, and only the capture phase never
/// fails (a read error there merely truncates, as unread output is not
/// fatal).
pub open spec fn event_fits(phase: Phase, e: ExecEvent) -> bool {
    match phase {
        Phase::Capturing => e is Captured,
        Phase::StattingLocal => e is Stat || e is Failed,
        Phase::WaitingClose => e is Exited || e is Failed,
        Phase::Finished => false,
        _ => e is Succeeded || e is Failed,
    }
}

/// Drives one host through its session, isolated from every other host.
pub struct PerHostExecutor {
    pub host: HostInfo,
    pub operation: Operation,
    pub phase: Phase,
    /// Size from the local stat, meaningful from `OpeningUpload` on.
    pub file_size: u64,
    /// Permission bits from the local stat, already masked.
    pub file_mode: u32,
    /// Captured standard output, meaningful from `WaitingClose` on.
    pub stdout: Vec<u8>,
    /// Captured standard error, meaningful from `WaitingClose` on.
    pub stderr: Vec<u8>,
    /// The run's result, present exactly when the phase is `Finished`.
    pub result: Option<Result<Outcome, Failure>>,
}

/// The phases of the command path.
pub open spec fn command_phase(p: Phase) -> bool {
    p is OpeningChannel || p is Executing || p is Capturing || p is WaitingClose
}

/// The phases of the upload path.
pub open spec fn upload_phase(p: Phase) -> bool {
    p is StattingLocal || p is OpeningUpload || p is OpeningLocal || p is Copying || p
        is SendingEof || p is WaitingEof || p is ClosingChannel || p is WaitingChannelClose
}

impl PerHostExecutor {
    pub open spec fn wf(&self) -> bool {
        &&& self.result is Some <==> self.phase is Finished
        &&& command_phase(self.phase) ==> self.operation is RunCommand
        &&& upload_phase(self.phase) ==> self.operation is SendFile
        &&& self.file_mode <= 0o777
    }

    /// A fresh run starts by connecting.
    pub fn new(host: HostInfo, operation: Operation) -> (r: Self)
        ensures
            r.wf(),
            r.host == host,
            r.operation == operation,
            r.phase is Connecting,
            r.result is None,
    {
        PerHostExecutor {
            host,
            operation,
            phase: Phase::Connecting,
            file_size: 0,
            file_mode: 0,
            stdout: Vec::new(),
            stderr: Vec::new(),
            result: None,
        }
    }

    /// The outside action the current phase calls for. The connect timeout
    /// appears only in the `Connect` and `Authenticate` actions; every later
    /// action is unbounded.
    pub fn next_action(&self) -> (a: ExecAction)
        requires
            self.wf(),
            !(self.phase is Finished),
        ensures
            self.phase is Connecting ==> a == (ExecAction::Connect {
                host: self.host.host,
                port: self.host.port,
                timeout_ms: self.host.timeout_ms,
            }),
            self.phase is Authenticating ==> a == (ExecAction::Authenticate {
                username: self.host.username,
                password: self.host.password,
                timeout_ms: self.host.timeout_ms,
            }),
            self.phase is OpeningChannel ==> a == (ExecAction::OpenCommandChannel {
                env_host: self.host.host,
                env_port: self.host.port,
            }),
            self.phase is Executing ==> (self.operation matches Operation::RunCommand { command }
                && a == (ExecAction::Exec { command })),
            self.phase is Capturing ==> a == (ExecAction::CaptureStreams {
                ceiling: CAPTURE_CEILING,
            }),
            self.phase is WaitingClose ==> a == ExecAction::WaitCloseAndExit,
            self.phase is StattingLocal ==> (self.operation matches Operation::SendFile {
                source_fpath,
                ..
            } && a == (ExecAction::StatLocal { path: source_fpath })),
            self.phase is OpeningUpload ==> (self.operation matches Operation::SendFile {
                target_fpath,
                ..
            } && a == (ExecAction::OpenUpload {
                path: target_fpath,
                mode: self.file_mode,
                size: self.file_size,
            })),
            self.phase is OpeningLocal ==> (self.operation matches Operation::SendFile {
                source_fpath,
                ..
            } && a == (ExecAction::OpenLocalFile { path: source_fpath })),
            self.phase is Copying ==> a == ExecAction::TransferData,
            self.phase is SendingEof ==> a == ExecAction::SendEof,
            self.phase is WaitingEof ==> a == ExecAction::WaitEof,
            self.phase is ClosingChannel ==> a == ExecAction::CloseChannel,
            self.phase is WaitingChannelClose ==> a == ExecAction::WaitChannelClose,
    {
        match self.phase {
            Phase::Connecting => ExecAction::Connect {
                host: self.host.host.clone(),
                port: self.host.port,
                timeout_ms: self.host.timeout_ms,
            },
            Phase::Authenticating => ExecAction::Authenticate {
                username: self.host.username.clone(),
                password: self.host.password.clone(),
                timeout_ms: self.host.timeout_ms,
            },
            Phase::OpeningChannel => ExecAction::OpenCommandChannel {
                env_host: self.host.host.clone(),
                env_port: self.host.port,
            },
            Phase::Executing => match &self.operation {
                Operation::RunCommand { command } => ExecAction::Exec {
                    command: command.clone(),
                },
                Operation::SendFile { .. } => unreached(),
            },
            Phase::Capturing => ExecAction::CaptureStreams { ceiling: CAPTURE_CEILING },
            Phase::WaitingClose => ExecAction::WaitCloseAndExit,
            Phase::StattingLocal => match &self.operation {
                Operation::SendFile { source_fpath, .. } => ExecAction::StatLocal {
                    path: source_fpath.clone(),
                },
                Operation::RunCommand { .. } => unreached(),
            },
            Phase::OpeningUpload => match &self.operation {
                Operation::SendFile { target_fpath, .. } => ExecAction::OpenUpload {
                    path: target_fpath.clone(),
                    mode: self.file_mode,
                    size: self.file_size,
                },
                Operation::RunCommand { .. } => unreached(),
            },
            Phase::OpeningLocal => match &self.operation {
                Operation::SendFile { source_fpath, .. } => ExecAction::OpenLocalFile {
                    path: source_fpath.clone(),
                },
                Operation::RunCommand { .. } => unreached(),
            },
            Phase::Copying => ExecAction::TransferData,
            Phase::SendingEof => ExecAction::SendEof,
            Phase::WaitingEof => ExecAction::WaitEof,
            Phase::ClosingChannel => ExecAction::CloseChannel,
            Phase::WaitingChannelClose => ExecAction::WaitChannelClose,
            Phase::Finished => unreached(),
        }
    }

    /// Advance on the reported result of the last action.
    ///
    /// Any failure ends the run at once with the failing stage's error kind
    /// and the reported message — a host whose connect phase exceeds its
    /// timeout yields a `ConnectError` outcome, a rejected credential an
    /// `AuthError`, and a failure in any of the four upload shutdown phases
    /// a `ProtocolError`: never a partial success. A successful upload
    /// stream is pre-declared with exactly the stat's size and masked mode,
    /// and only the last shutdown acknowledgment yields `TransferComplete`.
    pub fn advance(&mut self, e: ExecEvent)
        requires
            old(self).wf(),
            !(old(self).phase is Finished),
            event_fits(old(self).phase, e),
        ensures
            final(self).wf(),
            final(self).host == old(self).host,
            final(self).operation == old(self).operation,
            e matches ExecEvent::Failed { message } ==> final(self).phase is Finished && final(self).result == Some(Err::<Outcome, Failure>(Failure {
                kind: failure_kind(old(self).phase),
                message,
            })),
            !(e is Failed) ==> {
                &&& old(self).phase is Connecting ==> final(self).phase is Authenticating
                    && final(self).result is None
                &&& old(self).phase is Authenticating ==> final(self).result is None && (if old(self).operation is RunCommand {
                    final(self).phase is OpeningChannel
                } else {
                    final(self).phase is StattingLocal
                })
                &&& old(self).phase is OpeningChannel ==> final(self).phase is Executing && final(self).result is None
                &&& old(self).phase is Executing ==> final(self).phase is Capturing && final(self).result is None
                &&& old(self).phase is Capturing ==> (e matches ExecEvent::Captured {
                    stdout,
                    stderr,
                } && final(self).phase is WaitingClose && final(self).stdout == stdout && final(self).stderr == stderr && final(self).result is None)
                &&& old(self).phase is WaitingClose ==> (e matches ExecEvent::Exited { exit_status }
                    && final(self).phase is Finished && final(self).result == Some(
                    Ok::<Outcome, Failure>(Outcome::CommandResult {
                    exit_status,
                    stdout: old(self).stdout,
                    stderr: old(self).stderr,
                })))
                &&& old(self).phase is StattingLocal ==> (e matches ExecEvent::Stat { size, mode }
                    && final(self).phase is OpeningUpload && final(self).file_size == size
                    && final(self).file_mode == (mode & 0o777) && final(self).result is None)
                &&& old(self).phase is OpeningUpload ==> final(self).phase is OpeningLocal
                    && final(self).result is None && final(self).file_size == old(self).file_size
                    && final(self).file_mode == old(self).file_mode
                &&& old(self).phase is OpeningLocal ==> final(self).phase is Copying && final(self).result is None
                &&& old(self).phase is Copying ==> final(self).phase is SendingEof && final(self).result is None
                &&& old(self).phase is SendingEof ==> final(self).phase is WaitingEof && final(self).result is None
                &&& old(self).phase is WaitingEof ==> final(self).phase is ClosingChannel && final(self).result is None
                &&& old(self).phase is ClosingChannel ==> final(self).phase
                    is WaitingChannelClose && final(self).result is None
                &&& old(self).phase is WaitingChannelClose ==> final(self).phase is Finished
                    && final(self).result == Some(Ok::<Outcome, Failure>(
                    Outcome::TransferComplete,
                ))
            },
    {
        if let ExecEvent::Failed { message } = e {
            let kind = match self.phase {
                Phase::Connecting => ErrorKind::ConnectError,
                Phase::Authenticating => ErrorKind::AuthError,
                Phase::StattingLocal => ErrorKind::LocalIOError,
                Phase::OpeningLocal => ErrorKind::LocalIOError,
                _ => ErrorKind::ProtocolError,
            };
            self.result = Some(Err(Failure { kind, message }));
            self.phase = Phase::Finished;
            return ;
        }
        match self.phase {
            Phase::Connecting => {
                self.phase = Phase::Authenticating;
            },
            Phase::Authenticating => {
                match &self.operation {
                    Operation::RunCommand { .. } => {
                        self.phase = Phase::OpeningChannel;
                    },
                    Operation::SendFile { .. } => {
                        self.phase = Phase::StattingLocal;
                    },
                }
            },
            Phase::OpeningChannel => {
                self.phase = Phase::Executing;
            },
            Phase::Executing => {
                self.phase = Phase::Capturing;
            },
            Phase::Capturing => {
                match e {
                    ExecEvent::Captured { stdout, stderr } => {
                        self.stdout = stdout;
                        self.stderr = stderr;
                        self.phase = Phase::WaitingClose;
                    },
                    _ => unreached(),
                }
            },
            Phase::WaitingClose => {
                match e {
                    ExecEvent::Exited { exit_status } => {
                        let mut stdout = Vec::new();
                        let mut stderr = Vec::new();
                        core::mem::swap(&mut stdout, &mut self.stdout);
                        core::mem::swap(&mut stderr, &mut self.stderr);
                        self.result = Some(
                            Ok(Outcome::CommandResult { exit_status, stdout, stderr }),
                        );
                        self.phase = Phase::Finished;
                    },
                    _ => unreached(),
                }
            },
            Phase::StattingLocal => {
                match e {
                    ExecEvent::Stat { size, mode } => {
                        self.file_size = size;
                        self.file_mode = mode & 0o777;
                        proof {
                            assert(mode & 0o777 <= 0o777) by (bit_vector);
                        }
                        self.phase = Phase::OpeningUpload;
                    },
                    _ => unreached(),
                }
            },
            Phase::OpeningUpload => {
                self.phase = Phase::OpeningLocal;
            },
            Phase::OpeningLocal => {
                self.phase = Phase::Copying;
            },
            Phase::Copying => {
                self.phase = Phase::SendingEof;
            },
            Phase::SendingEof => {
                self.phase = Phase::WaitingEof;
            },
            Phase::WaitingEof => {
                self.phase = Phase::ClosingChannel;
            },
            Phase::ClosingChannel => {
                self.phase = Phase::WaitingChannelClose;
            },
            Phase::WaitingChannelClose => {
                self.result = Some(Ok(Outcome::TransferComplete));
                self.phase = Phase::Finished;
            },
            Phase::Finished => unreached(),
        }
    }

    /// Is the run over?
    pub fn is_finished(&self) -> (r: bool)
        ensures
            r == (self.phase is Finished),
    {
        matches!(self.phase, Phase::Finished)
    }

    /// Hand the finished run's result out.
    pub fn take_result(self) -> (r: Result<Outcome, Failure>)
        requires
            self.wf(),
            self.phase is Finished,
        ensures
            Some(r) == self.result,
    {
        match self.result {
            Some(r) => r,
            None => unreached(),
        }
    }
}

} // verus!
