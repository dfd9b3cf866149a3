use servman::GAME_PORT;
use servman::IoChannel;
use servman::Manager;
use servman::SendOutcome;
use servman::ServerErrors;
use servman::SpawnOutcome;
use servman::StopOutcome;
use servman::de_op_command;
use servman::encode_command;
use servman::is_ready_marker;
use servman::jar_name;
use servman::op_command;
use servman::stop_command;

fn started() -> Manager {
    let mut m = Manager::new();
    let r = m.start(true, SpawnOutcome::Spawned);
    assert_eq!(r, Ok(GAME_PORT));
    m
}

#[test]
fn new_manager_is_offline() {
    let m = Manager::new();
    assert!(!m.is_online());
    let d = Manager::default();
    assert!(!d.is_online());
}

#[test]
fn start_returns_nominal_port() {
    let m = started();
    assert!(m.is_online());
}

#[test]
fn start_without_files_fails() {
    let mut m = Manager::new();
    assert_eq!(m.check_start(false), Err(ServerErrors::ServerFilesMissing));
    assert_eq!(m.start(false, SpawnOutcome::Spawned), Err(ServerErrors::ServerFilesMissing));
    assert!(!m.is_online());
}

#[test]
fn start_twice_fails_already_online() {
    // Two starts in a row: the second fails and exactly one process stays.
    let mut m = started();
    assert_eq!(m.check_start(true), Err(ServerErrors::ServerAlreadyOnline));
    assert_eq!(m.start(true, SpawnOutcome::Spawned), Err(ServerErrors::ServerAlreadyOnline));
    assert!(m.is_online());
}

#[test]
fn spawn_failure_reports_io_error_and_stays_offline() {
    let mut m = Manager::new();
    assert_eq!(m.start(true, SpawnOutcome::SpawnFailed), Err(ServerErrors::IoError));
    assert!(!m.is_online());
}

#[test]
fn lost_stdout_reports_thread_error() {
    let mut m = Manager::new();
    assert_eq!(
        m.start(true, SpawnOutcome::NoStdout),
        Err(ServerErrors::ThreadError(IoChannel::Stdout))
    );
    assert!(!m.is_online());
}

#[test]
fn stop_without_start_fails_offline() {
    // A stop with no prior start: offline error, no process as side effect.
    let mut m = Manager::new();
    assert_eq!(m.stop(true, StopOutcome::Stopped), Err(ServerErrors::ServerOffline));
    assert!(!m.is_online());
}

#[test]
fn stop_before_readiness_fails_still_starting() {
    // Start, then stop before the readiness marker: refused, process kept.
    let mut m = started();
    assert_eq!(m.check_stop(true), Err(ServerErrors::ServerStillStarting));
    assert_eq!(m.stop(true, StopOutcome::Stopped), Err(ServerErrors::ServerStillStarting));
    assert!(m.is_online());
}

#[test]
fn stop_after_readiness_succeeds() {
    // After the marker was observed, a completed shutdown flow clears
    // the slot: the process is no longer queryable as running.
    let mut m = started();
    m.mark_ready();
    assert_eq!(m.check_stop(true), Ok(()));
    assert_eq!(m.stop(true, StopOutcome::Stopped), Ok(()));
    assert!(!m.is_online());
}

#[test]
fn stop_of_exited_process_reports_process_exited() {
    let mut m = started();
    m.mark_ready();
    assert_eq!(m.stop(false, StopOutcome::Stopped), Err(ServerErrors::ServerProcessExited));
    assert!(m.is_online());
}

#[test]
fn failed_shutdown_flow_keeps_the_slot() {
    let mut m = started();
    m.mark_ready();
    assert_eq!(m.stop(true, StopOutcome::WriteFailed), Err(ServerErrors::IoError));
    assert!(m.is_online());
    assert_eq!(
        m.stop(true, StopOutcome::NoChannel),
        Err(ServerErrors::ThreadError(IoChannel::Stdin))
    );
    assert!(m.is_online());
    assert_eq!(m.stop(true, StopOutcome::WaitFailed), Err(ServerErrors::IoError));
    assert!(m.is_online());
}

#[test]
fn mark_ready_is_idempotent_and_offline_noop() {
    let mut m = Manager::new();
    m.mark_ready();
    assert!(!m.is_online());
    let mut m2 = started();
    m2.mark_ready();
    m2.mark_ready();
    assert_eq!(m2.check_stop(true), Ok(()));
}

#[test]
fn op_requires_a_running_server() {
    let m = Manager::new();
    assert_eq!(m.op("alice"), Err(ServerErrors::ServerOffline));
    assert_eq!(m.de_op("alice"), Err(ServerErrors::ServerOffline));
    let m2 = started();
    assert_eq!(m2.op("alice"), Ok(String::from("/op alice")));
    assert_eq!(m2.de_op("alice"), Ok(String::from("/deop alice")));
}

#[test]
fn delete_needs_installed_files() {
    let mut m = Manager::new();
    assert_eq!(
        m.delete(false, true, StopOutcome::Stopped),
        Err(ServerErrors::ServerFilesMissing)
    );
}

#[test]
fn delete_ignores_offline_and_licenses_removal() {
    let mut m = Manager::new();
    assert_eq!(m.delete(true, true, StopOutcome::Stopped), Ok(()));
}

#[test]
fn delete_refuses_while_starting() {
    let mut m = started();
    assert_eq!(
        m.delete(true, true, StopOutcome::Stopped),
        Err(ServerErrors::ServerStillStarting)
    );
    assert!(m.is_online());
}

#[test]
fn delete_stops_a_ready_server_first() {
    let mut m = started();
    m.mark_ready();
    assert_eq!(m.delete(true, true, StopOutcome::Stopped), Ok(()));
    assert!(!m.is_online());
}

#[test]
fn send_maps_delivery_outcomes() {
    let inst = servman::Instance { starting: false };
    assert_eq!(inst.send(true, SendOutcome::Sent), Ok(()));
    assert_eq!(inst.send(false, SendOutcome::Sent), Err(ServerErrors::ServerProcessExited));
    assert_eq!(
        inst.send(true, SendOutcome::NoChannel),
        Err(ServerErrors::ThreadError(IoChannel::Stdin))
    );
    assert_eq!(inst.send(true, SendOutcome::WriteFailed), Err(ServerErrors::IoError));
    assert_eq!(inst.process_check(true), Ok(()));
    assert_eq!(inst.process_check(false), Err(ServerErrors::ServerProcessExited));
    assert_eq!(inst.stop(true, SendOutcome::Sent), Ok(()));
    assert_eq!(inst.stop(false, SendOutcome::Sent), Err(ServerErrors::ServerProcessExited));
}

#[test]
fn readiness_marker_is_detected_at_fixed_position() {
    let line = "[12:34:56] [Server thread/INFO]: Done (35.251s)! For help, type \"help\"";
    assert_eq!(&line[33..37], "Done");
    assert!(is_ready_marker(line));
}

#[test]
fn readiness_marker_needs_enough_length() {
    // Exactly 38 characters is still too short: the check needs more.
    let line = "[12:34:56] [Server thread/INFO]: Done!";
    assert_eq!(line.len(), 38);
    assert!(!is_ready_marker(line));
    assert!(!is_ready_marker("Done"));
    assert!(!is_ready_marker(""));
}

#[test]
fn readiness_marker_rejects_other_positions() {
    let line = "Done [12:34:56] [Server thread/INFO]: starting the server now, hold on";
    assert!(!is_ready_marker(line));
}

#[test]
fn command_templates() {
    assert_eq!(op_command("bob"), "/op bob");
    assert_eq!(de_op_command("bob"), "/deop bob");
    assert_eq!(stop_command(), "/stop");
    assert_eq!(encode_command("/stop"), "/stop\n");
    assert_eq!(jar_name(), "fabric-server-launch.jar");
}

#[test]
fn error_descriptions_are_stable() {
    assert_eq!(ServerErrors::ServerOffline.description(), "ServerOffline");
    assert_eq!(ServerErrors::ServerFilesMissing.description(), "MissingServer");
    assert_eq!(ServerErrors::IoError.description(), "IOError");
    assert_eq!(
        ServerErrors::ServerStillStarting.message(),
        "Attempted to stop server whilst mid-loading"
    );
    assert_eq!(
        ServerErrors::ServerAlreadyOnline.message(),
        "Attempted to start server whilst online"
    );
}
