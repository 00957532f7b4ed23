use pssh_rs::capture::CAPTURE_CEILING;
use pssh_rs::data::{Command, ErrorKind, HostInfo, Operation, Outcome};
use pssh_rs::executor::{ExecAction, ExecEvent, PerHostExecutor};

fn host() -> HostInfo {
    HostInfo {
        host: "10.0.0.7".to_string(),
        username: "admin".to_string(),
        password: "secret".to_string(),
        port: 2222,
        timeout_ms: 1500,
    }
}

fn run_op() -> Operation {
    Operation::RunCommand {
        command: "uptime".to_string(),
    }
}

fn send_op() -> Operation {
    Operation::SendFile {
        source_fpath: "/tmp/src.bin".to_string(),
        target_fpath: "/opt/dst.bin".to_string(),
    }
}

fn failed(msg: &str) -> ExecEvent {
    ExecEvent::Failed {
        message: msg.to_string(),
    }
}

/// Walk a send-file run through connect and authentication.
fn upload_after_auth() -> PerHostExecutor {
    let mut exec = PerHostExecutor::new(host(), send_op());
    exec.advance(ExecEvent::Succeeded);
    exec.advance(ExecEvent::Succeeded);
    exec
}

#[test]
fn connect_failure_yields_connect_error() {
    let mut exec = PerHostExecutor::new(host(), run_op());
    match exec.next_action() {
        ExecAction::Connect {
            host: h,
            port,
            timeout_ms,
        } => {
            assert_eq!(h, "10.0.0.7");
            assert_eq!(port, 2222);
            assert_eq!(timeout_ms, 1500);
        }
        _ => panic!("a fresh run must connect first"),
    }
    exec.advance(failed("connection timed out"));
    assert!(exec.is_finished());
    match exec.take_result() {
        Err(f) => {
            assert_eq!(f.kind, ErrorKind::ConnectError);
            assert_eq!(f.message, "connection timed out");
        }
        Ok(_) => panic!("expected a failure"),
    }
}

#[test]
fn auth_rejection_yields_auth_error() {
    let mut exec = PerHostExecutor::new(host(), run_op());
    exec.advance(ExecEvent::Succeeded);
    match exec.next_action() {
        ExecAction::Authenticate {
            username,
            password,
            timeout_ms,
        } => {
            assert_eq!(username, "admin");
            assert_eq!(password, "secret");
            assert_eq!(timeout_ms, 1500);
        }
        _ => panic!("after connecting the run must authenticate"),
    }
    exec.advance(failed("access denied"));
    match exec.take_result() {
        Err(f) => assert_eq!(f.kind, ErrorKind::AuthError),
        Ok(_) => panic!("expected a failure"),
    }
}

#[test]
fn command_path_collects_status_and_both_streams() {
    let mut exec = PerHostExecutor::new(host(), run_op());
    exec.advance(ExecEvent::Succeeded); // connected
    exec.advance(ExecEvent::Succeeded); // authenticated
    match exec.next_action() {
        ExecAction::OpenCommandChannel { env_host, env_port } => {
            assert_eq!(env_host, "10.0.0.7");
            assert_eq!(env_port, 2222);
        }
        _ => panic!("the command path opens a channel next"),
    }
    exec.advance(ExecEvent::Succeeded); // channel open
    match exec.next_action() {
        ExecAction::Exec { command } => assert_eq!(command, "uptime"),
        _ => panic!("the command must be started next"),
    }
    exec.advance(ExecEvent::Succeeded); // command started
    match exec.next_action() {
        ExecAction::CaptureStreams { ceiling } => assert_eq!(ceiling, CAPTURE_CEILING),
        _ => panic!("both streams are captured next"),
    }
    exec.advance(ExecEvent::Captured {
        stdout: b"load 0.5".to_vec(),
        stderr: b"warning".to_vec(),
    });
    assert!(matches!(exec.next_action(), ExecAction::WaitCloseAndExit));
    exec.advance(ExecEvent::Exited { exit_status: 7 });
    assert!(exec.is_finished());
    match exec.take_result() {
        Ok(Outcome::CommandResult {
            exit_status,
            stdout,
            stderr,
        }) => {
            assert_eq!(exit_status, 7);
            assert_eq!(stdout, b"load 0.5".to_vec());
            assert_eq!(stderr, b"warning".to_vec());
        }
        _ => panic!("expected a command result"),
    }
}

#[test]
fn upload_stream_is_predeclared_with_stat_size_and_masked_mode() {
    let mut exec = upload_after_auth();
    match exec.next_action() {
        ExecAction::StatLocal { path } => assert_eq!(path, "/tmp/src.bin"),
        _ => panic!("the upload path stats the local file first"),
    }
    exec.advance(ExecEvent::Stat {
        size: 4096,
        mode: 0o100644,
    });
    match exec.next_action() {
        ExecAction::OpenUpload { path, mode, size } => {
            assert_eq!(path, "/opt/dst.bin");
            assert_eq!(mode, 0o644);
            assert_eq!(size, 4096);
        }
        _ => panic!("the upload stream is opened next"),
    }
}

#[test]
fn upload_success_needs_all_four_shutdown_phases() {
    let mut exec = upload_after_auth();
    exec.advance(ExecEvent::Stat { size: 10, mode: 0o755 });
    exec.advance(ExecEvent::Succeeded); // upload stream open
    assert!(matches!(
        exec.next_action(),
        ExecAction::OpenLocalFile { .. }
    ));
    exec.advance(ExecEvent::Succeeded); // local file open
    assert!(matches!(exec.next_action(), ExecAction::TransferData));
    exec.advance(ExecEvent::Succeeded); // bytes copied
    assert!(matches!(exec.next_action(), ExecAction::SendEof));
    exec.advance(ExecEvent::Succeeded);
    assert!(matches!(exec.next_action(), ExecAction::WaitEof));
    exec.advance(ExecEvent::Succeeded);
    assert!(matches!(exec.next_action(), ExecAction::CloseChannel));
    exec.advance(ExecEvent::Succeeded);
    assert!(matches!(exec.next_action(), ExecAction::WaitChannelClose));
    assert!(!exec.is_finished());
    exec.advance(ExecEvent::Succeeded);
    assert!(exec.is_finished());
    assert!(matches!(exec.take_result(), Ok(Outcome::TransferComplete)));
}

#[test]
fn failure_in_any_shutdown_phase_is_an_error_never_partial_success() {
    for failing_phase in 0..4 {
        let mut exec = upload_after_auth();
        exec.advance(ExecEvent::Stat { size: 10, mode: 0o644 });
        exec.advance(ExecEvent::Succeeded); // upload stream open
        exec.advance(ExecEvent::Succeeded); // local file open
        exec.advance(ExecEvent::Succeeded); // bytes copied
        for _ in 0..failing_phase {
            exec.advance(ExecEvent::Succeeded);
        }
        exec.advance(failed("shutdown interrupted"));
        assert!(exec.is_finished());
        match exec.take_result() {
            Err(f) => {
                assert_eq!(f.kind, ErrorKind::ProtocolError);
                assert_eq!(f.message, "shutdown interrupted");
            }
            Ok(_) => panic!("a broken shutdown must never look like success"),
        }
    }
}

#[test]
fn local_stat_failure_is_local_io_error() {
    let mut exec = upload_after_auth();
    exec.advance(failed("no such file"));
    match exec.take_result() {
        Err(f) => assert_eq!(f.kind, ErrorKind::LocalIOError),
        Ok(_) => panic!("expected a failure"),
    }
}

#[test]
fn local_open_failure_is_local_io_error() {
    let mut exec = upload_after_auth();
    exec.advance(ExecEvent::Stat { size: 10, mode: 0o644 });
    exec.advance(ExecEvent::Succeeded); // upload stream open
    exec.advance(failed("permission denied"));
    match exec.take_result() {
        Err(f) => assert_eq!(f.kind, ErrorKind::LocalIOError),
        Ok(_) => panic!("expected a failure"),
    }
}

#[test]
fn channel_and_transfer_failures_are_protocol_errors() {
    // Opening the upload stream fails.
    let mut exec = upload_after_auth();
    exec.advance(ExecEvent::Stat { size: 10, mode: 0o644 });
    exec.advance(failed("scp refused"));
    match exec.take_result() {
        Err(f) => assert_eq!(f.kind, ErrorKind::ProtocolError),
        Ok(_) => panic!("expected a failure"),
    }
    // Copying the bytes fails.
    let mut exec = upload_after_auth();
    exec.advance(ExecEvent::Stat { size: 10, mode: 0o644 });
    exec.advance(ExecEvent::Succeeded);
    exec.advance(ExecEvent::Succeeded);
    exec.advance(failed("broken pipe"));
    match exec.take_result() {
        Err(f) => assert_eq!(f.kind, ErrorKind::ProtocolError),
        Ok(_) => panic!("expected a failure"),
    }
    // Opening the command channel fails.
    let mut exec = PerHostExecutor::new(host(), run_op());
    exec.advance(ExecEvent::Succeeded);
    exec.advance(ExecEvent::Succeeded);
    exec.advance(failed("channel open failed"));
    match exec.take_result() {
        Err(f) => assert_eq!(f.kind, ErrorKind::ProtocolError),
        Ok(_) => panic!("expected a failure"),
    }
}

#[test]
fn command_maps_to_operation() {
    let init = Command::Init;
    assert!(init.to_operation().is_none());
    let run = Command::Run {
        command: "ls".to_string(),
    };
    match run.to_operation() {
        Some(Operation::RunCommand { command }) => assert_eq!(command, "ls"),
        _ => panic!("a run command maps to a remote command"),
    }
    let send = Command::Send {
        source_fpath: "a".to_string(),
        target_fpath: "b".to_string(),
    };
    match send.to_operation() {
        Some(Operation::SendFile {
            source_fpath,
            target_fpath,
        }) => {
            assert_eq!(source_fpath, "a");
            assert_eq!(target_fpath, "b");
        }
        _ => panic!("a send command maps to a file transfer"),
    }
}
