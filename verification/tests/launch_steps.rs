use backend_supervisor::drain::{after_read, DrainStep, ReadOutcome};
use backend_supervisor::launcher::{executable_name, LaunchError, Platform, EXECUTABLE_MODE};
use backend_supervisor::supervisor::{Action, Phase, Supervisor};

fn running(platform: Platform) -> Supervisor<u32> {
    let mut supervisor = Supervisor::new(platform);
    assert_eq!(supervisor.launch(), Action::Locate);
    let mut action = supervisor.located(true);
    if action == (Action::MakeExecutable { mode: 0o755 }) {
        action = supervisor.prepared(true);
    }
    assert_eq!(action, Action::Spawn);
    assert_eq!(supervisor.spawned(17), Ok(Action::ReadLine));
    supervisor
}

#[test]
fn executable_is_named_by_platform() {
    assert_eq!(executable_name(Platform::Windows), "server.exe");
    assert_eq!(executable_name(Platform::Unix), "server");
}

#[test]
fn executable_mode_is_rwx_for_owner_rx_for_others() {
    assert_eq!(EXECUTABLE_MODE, 0o755);
    assert_eq!(EXECUTABLE_MODE, 0o700 | 0o050 | 0o005);
    assert_eq!(EXECUTABLE_MODE, 493);
}

#[test]
fn new_supervisor_is_idle() {
    let supervisor: Supervisor<u32> = Supervisor::new(Platform::Unix);
    assert_eq!(supervisor.phase(), Phase::Idle);
    assert_eq!(supervisor.platform(), Platform::Unix);
    assert_eq!(supervisor.query_port(), None);
    assert!(!supervisor.has_process());
}

#[test]
fn unix_launch_marks_the_executable_runnable_first() {
    let mut supervisor: Supervisor<u32> = Supervisor::new(Platform::Unix);
    assert_eq!(supervisor.launch(), Action::Locate);
    assert_eq!(supervisor.phase(), Phase::Locating);
    assert_eq!(supervisor.located(true), Action::MakeExecutable { mode: 0o755 });
    assert_eq!(supervisor.phase(), Phase::Preparing);
    assert_eq!(supervisor.prepared(true), Action::Spawn);
    assert_eq!(supervisor.phase(), Phase::Spawning);
    assert!(!supervisor.has_process());
    assert_eq!(supervisor.spawned(5), Ok(Action::ReadLine));
    assert_eq!(supervisor.phase(), Phase::Handshaking);
    assert!(supervisor.has_process());
    assert_eq!(supervisor.query_port(), None);
}

#[test]
fn windows_launch_skips_permissions() {
    let mut supervisor: Supervisor<u32> = Supervisor::new(Platform::Windows);
    assert_eq!(supervisor.launch(), Action::Locate);
    assert_eq!(supervisor.located(true), Action::Spawn);
    assert_eq!(supervisor.phase(), Phase::Spawning);
    assert_eq!(supervisor.prepared(false), Action::Nothing);
    assert_eq!(supervisor.phase(), Phase::Spawning);
    assert_eq!(supervisor.spawned(5), Ok(Action::ReadLine));
    assert_eq!(supervisor.phase(), Phase::Handshaking);
}

#[test]
fn missing_executable_is_not_found() {
    for platform in [Platform::Unix, Platform::Windows] {
        let mut supervisor: Supervisor<u32> = Supervisor::new(platform);
        assert_eq!(supervisor.launch(), Action::Locate);
        assert_eq!(supervisor.located(false), Action::Abort(LaunchError::NotFound));
        assert_eq!(supervisor.phase(), Phase::Failed(LaunchError::NotFound));
        assert!(!supervisor.has_process());
        assert_eq!(supervisor.query_port(), None);
        assert_eq!(supervisor.spawned(9), Err(9));
        assert_eq!(supervisor.stdout_line("SERVER_PORT:4321"), Action::Nothing);
        assert_eq!(supervisor.query_port(), None);
        assert_eq!(supervisor.launch(), Action::Nothing);
        assert_eq!(supervisor.phase(), Phase::Failed(LaunchError::NotFound));
    }
}

#[test]
fn failed_permissions_are_a_permission_error() {
    let mut supervisor: Supervisor<u32> = Supervisor::new(Platform::Unix);
    supervisor.launch();
    supervisor.located(true);
    assert_eq!(supervisor.prepared(false), Action::Abort(LaunchError::PermissionError));
    assert_eq!(supervisor.phase(), Phase::Failed(LaunchError::PermissionError));
    assert!(!supervisor.has_process());
    assert_eq!(supervisor.spawned(9), Err(9));
    assert_eq!(supervisor.query_port(), None);
}

#[test]
fn refused_spawn_is_a_spawn_error() {
    let mut supervisor: Supervisor<u32> = Supervisor::new(Platform::Windows);
    supervisor.launch();
    supervisor.located(true);
    assert_eq!(supervisor.spawn_failed(), Action::Abort(LaunchError::SpawnError));
    assert_eq!(supervisor.phase(), Phase::Failed(LaunchError::SpawnError));
    assert!(!supervisor.has_process());
    assert_eq!(supervisor.query_port(), None);
}

#[test]
fn reports_out_of_turn_change_nothing() {
    let mut supervisor: Supervisor<u32> = Supervisor::new(Platform::Unix);
    assert_eq!(supervisor.located(true), Action::Nothing);
    assert_eq!(supervisor.prepared(true), Action::Nothing);
    assert_eq!(supervisor.spawn_failed(), Action::Nothing);
    assert_eq!(supervisor.spawned(3), Err(3));
    assert_eq!(supervisor.stdout_line("SERVER_PORT:1"), Action::Nothing);
    assert_eq!(supervisor.stdout_closed(), Action::Nothing);
    assert_eq!(supervisor.phase(), Phase::Idle);
    assert_eq!(supervisor.query_port(), None);
    assert!(!supervisor.has_process());

    assert_eq!(supervisor.launch(), Action::Locate);
    assert_eq!(supervisor.launch(), Action::Nothing);
    assert_eq!(supervisor.prepared(true), Action::Nothing);
    assert_eq!(supervisor.phase(), Phase::Locating);
}

#[test]
fn a_second_process_is_handed_back() {
    let mut supervisor = running(Platform::Unix);
    assert_eq!(supervisor.spawned(99), Err(99));
    assert_eq!(supervisor.phase(), Phase::Handshaking);
    assert_eq!(supervisor.shutdown(), Some(17));
}

#[test]
fn single_announcement_then_closure_gives_the_port() {
    for port in [0u16, 1, 80, 4321, 65535] {
        let mut supervisor = running(Platform::Unix);
        let line = format!("SERVER_PORT:{}", port);
        assert_eq!(supervisor.stdout_line(&line), Action::StartDrain);
        assert_eq!(supervisor.stdout_closed(), Action::Nothing);
        assert_eq!(supervisor.query_port(), Some(port));
        assert_eq!(supervisor.phase(), Phase::Serving);
    }
}

#[test]
fn every_port_is_learned_from_its_announcement() {
    for port in 0..=u16::MAX {
        let mut supervisor = running(Platform::Windows);
        assert_eq!(supervisor.stdout_line(&format!("SERVER_PORT:{}", port)), Action::StartDrain);
        assert_eq!(supervisor.query_port(), Some(port));
    }
}

#[test]
fn closure_without_announcement_leaves_the_port_absent() {
    let mut supervisor = running(Platform::Unix);
    assert_eq!(supervisor.stdout_line("starting"), Action::ReadLine);
    assert_eq!(supervisor.stdout_line("loading resources from ./data"), Action::ReadLine);
    assert_eq!(supervisor.stdout_line(""), Action::ReadLine);
    assert_eq!(supervisor.phase(), Phase::Handshaking);
    assert_eq!(supervisor.stdout_closed(), Action::StartDrain);
    assert_eq!(supervisor.phase(), Phase::Serving);
    assert_eq!(supervisor.query_port(), None);
    assert!(supervisor.has_process());
}

#[test]
fn immediate_closure_leaves_the_port_absent() {
    let mut supervisor = running(Platform::Windows);
    assert_eq!(supervisor.stdout_closed(), Action::StartDrain);
    assert_eq!(supervisor.query_port(), None);
    assert_eq!(supervisor.phase(), Phase::Serving);
}

#[test]
fn malformed_announcement_is_log_text() {
    let mut supervisor = running(Platform::Unix);
    assert_eq!(supervisor.stdout_line("SERVER_PORT:abc"), Action::ReadLine);
    assert_eq!(supervisor.query_port(), None);
    assert_eq!(supervisor.phase(), Phase::Handshaking);
    assert_eq!(supervisor.stdout_line("SERVER_PORT:99999"), Action::ReadLine);
    assert_eq!(supervisor.query_port(), None);
    assert_eq!(supervisor.phase(), Phase::Handshaking);
    assert_eq!(supervisor.stdout_line("SERVER_PORT:8080"), Action::StartDrain);
    assert_eq!(supervisor.query_port(), Some(8080));
}

#[test]
fn first_announcement_wins() {
    let mut supervisor = running(Platform::Unix);
    assert_eq!(supervisor.stdout_line("booting"), Action::ReadLine);
    assert_eq!(supervisor.stdout_line("SERVER_PORT:3000"), Action::StartDrain);
    assert_eq!(supervisor.stdout_line("SERVER_PORT:4000"), Action::Nothing);
    assert_eq!(supervisor.stdout_line("ready"), Action::Nothing);
    assert_eq!(supervisor.stdout_closed(), Action::Nothing);
    assert_eq!(supervisor.query_port(), Some(3000));
}

#[test]
fn shutdown_clears_the_port_and_returns_the_process() {
    let mut supervisor = running(Platform::Unix);
    supervisor.stdout_line("SERVER_PORT:4321");
    assert_eq!(supervisor.query_port(), Some(4321));
    assert_eq!(supervisor.shutdown(), Some(17));
    assert_eq!(supervisor.query_port(), None);
    assert!(!supervisor.has_process());
    assert_eq!(supervisor.phase(), Phase::Idle);
    assert_eq!(supervisor.shutdown(), None);
    assert_eq!(supervisor.query_port(), None);
}

#[test]
fn shutdown_during_handshake_returns_the_process() {
    let mut supervisor = running(Platform::Windows);
    assert_eq!(supervisor.shutdown(), Some(17));
    assert_eq!(supervisor.query_port(), None);
    assert_eq!(supervisor.stdout_line("SERVER_PORT:4321"), Action::Nothing);
    assert_eq!(supervisor.query_port(), None);
}

#[test]
fn shutdown_without_launch_changes_nothing() {
    let mut supervisor: Supervisor<u32> = Supervisor::new(Platform::Unix);
    assert_eq!(supervisor.shutdown(), None);
    assert_eq!(supervisor.phase(), Phase::Idle);
    assert_eq!(supervisor.platform(), Platform::Unix);
    assert_eq!(supervisor.query_port(), None);
    assert!(!supervisor.has_process());
    assert_eq!(supervisor.launch(), Action::Locate);
}

#[test]
fn shutdown_after_failed_launch_has_nothing_to_stop() {
    let mut supervisor: Supervisor<u32> = Supervisor::new(Platform::Unix);
    supervisor.launch();
    supervisor.located(false);
    assert_eq!(supervisor.shutdown(), None);
    assert_eq!(supervisor.query_port(), None);
    assert_eq!(supervisor.phase(), Phase::Idle);
}

#[test]
fn port_is_read_whole_from_shared_references() {
    let mut supervisor = running(Platform::Unix);
    {
        let (first, second) = (&supervisor, &supervisor);
        assert_eq!(first.query_port(), None);
        assert_eq!(second.query_port(), None);
    }
    supervisor.stdout_line("SERVER_PORT:65535");
    let (first, second) = (&supervisor, &supervisor);
    assert_eq!(first.query_port(), Some(65535));
    assert_eq!(second.query_port(), Some(65535));
}

#[test]
fn end_to_end_with_a_stub_backend() {
    let mut supervisor: Supervisor<&str> = Supervisor::new(Platform::Unix);
    assert_eq!(supervisor.query_port(), None);
    assert_eq!(supervisor.launch(), Action::Locate);
    assert_eq!(supervisor.located(true), Action::MakeExecutable { mode: 0o755 });
    assert_eq!(supervisor.prepared(true), Action::Spawn);
    assert_eq!(supervisor.spawned("stub"), Ok(Action::ReadLine));
    assert_eq!(supervisor.stdout_line("SERVER_PORT:4321"), Action::StartDrain);
    assert_eq!(supervisor.query_port(), Some(4321));
    assert_eq!(supervisor.shutdown(), Some("stub"));
    assert_eq!(supervisor.query_port(), None);
}

#[test]
fn drain_emits_lines_and_stops_at_the_end() {
    assert_eq!(after_read(ReadOutcome::Line), DrainStep::Emit);
    assert_eq!(after_read(ReadOutcome::Closed), DrainStep::Finish);
    assert_eq!(after_read(ReadOutcome::Failed), DrainStep::ReportAndFinish);
}
