use tunnelforge::config::ServerConfig;
use tunnelforge::log_buffer::{LogBuffer, LogLevel};
use tunnelforge::supervisor::{
    Action, Event, OwnedChild, ServerStatus, Supervisor, SupervisorError, RESTART_DELAY_MS, SETTLE_DELAY_MS,
};

fn config_with(candidates: &[&str]) -> ServerConfig {
    ServerConfig::tunnelforge(
        "127.0.0.1".to_string(),
        4021,
        candidates.iter().map(|c| c.to_string()).collect(),
    )
    .unwrap()
}

fn last_level(log: &LogBuffer) -> LogLevel {
    log.recent(Some(1))[0].level
}

/// Drives a start from an idle supervisor through a directory holding a
/// pre-built binary, with the given probe results, up to its end.
fn start_with_binary(
    sup: &mut Supervisor<u32>,
    log: &mut LogBuffer,
    pid: u32,
    ready: bool,
) -> Action<u32> {
    assert!(matches!(sup.start(log), Action::ProbePort));
    let a = sup.advance(Event::PortProbed { reachable: false }, log);
    assert!(matches!(a, Action::CheckCandidate { index: 0 }));
    let a = sup.advance(Event::CandidateChecked { exists: true, has_descriptor: false, has_binary: true }, log);
    assert!(matches!(a, Action::Spawn { index: 0 }));
    let a = sup.advance(Event::Spawned { result: Ok(OwnedChild { pid, handle: pid }) }, log);
    assert!(matches!(a, Action::Sleep { millis } if millis == SETTLE_DELAY_MS));
    let a = sup.advance(Event::Slept, log);
    assert!(matches!(a, Action::ProbePort));
    sup.advance(Event::PortProbed { reachable: ready }, log)
}

#[test]
fn scenario_spawns_prebuilt_binary() {
    let mut log = LogBuffer::new();
    let mut sup: Supervisor<u32> = Supervisor::new(config_with(&["/srv/server"]));
    let end = start_with_binary(&mut sup, &mut log, 4242, true);
    match end {
        Action::Finish { result: Ok(()), announce } => {
            assert_eq!(announce, Some(ServerStatus { running: true, port: 4021, pid: Some(4242) }));
        }
        _ => panic!("start did not finish"),
    }
    assert!(sup.is_idle());
    assert_eq!(sup.status(true), ServerStatus { running: true, port: 4021, pid: Some(4242) });
    assert_eq!(last_level(&log), LogLevel::Info);
}

#[test]
fn scenario_unresponsive_spawn_still_succeeds() {
    let mut log = LogBuffer::new();
    let mut sup: Supervisor<u32> = Supervisor::new(config_with(&["/srv/server"]));
    let end = start_with_binary(&mut sup, &mut log, 77, false);
    assert!(matches!(end, Action::Finish { result: Ok(()), .. }));
    assert_eq!(last_level(&log), LogLevel::Warning);
    assert_eq!(sup.status(false), ServerStatus { running: false, port: 4021, pid: Some(77) });
}

#[test]
fn scenario_external_listener_not_spawned() {
    let mut log = LogBuffer::new();
    let mut sup: Supervisor<u32> = Supervisor::new(config_with(&["/srv/server"]));
    assert!(matches!(sup.start(&mut log), Action::ProbePort));
    let a = sup.advance(Event::PortProbed { reachable: true }, &mut log);
    assert!(matches!(a, Action::Finish { result: Ok(()), announce: None }));
    assert_eq!(last_level(&log), LogLevel::Info);
    assert_eq!(sup.pid(), None);
    assert_eq!(sup.status(true), ServerStatus { running: true, port: 4021, pid: None });
}

#[test]
fn scenario_directory_not_found_lists_candidates() {
    let candidates = ["/none/a", "/none/b", "/none/c", "/none/d", "/none/e"];
    let mut log = LogBuffer::new();
    let mut sup: Supervisor<u32> = Supervisor::new(config_with(&candidates));
    assert!(matches!(sup.start(&mut log), Action::ProbePort));
    let mut a = sup.advance(Event::PortProbed { reachable: false }, &mut log);
    for i in 0..5 {
        match a {
            Action::CheckCandidate { index } => assert_eq!(index, i),
            _ => panic!("expected a candidate check"),
        }
        a = sup.advance(Event::CandidateChecked { exists: false, has_descriptor: false, has_binary: false }, &mut log);
    }
    match a {
        Action::Finish { result: Err(SupervisorError::DirectoryNotFound { searched }), announce: None } => {
            assert_eq!(searched, candidates.iter().map(|c| c.to_string()).collect::<Vec<_>>());
        }
        _ => panic!("expected DirectoryNotFound"),
    }
    assert_eq!(last_level(&log), LogLevel::Error);
    assert!(sup.is_idle());
}

#[test]
fn empty_candidate_list_is_not_found() {
    let mut log = LogBuffer::new();
    let mut sup: Supervisor<u32> = Supervisor::new(config_with(&[]));
    sup.start(&mut log);
    let a = sup.advance(Event::PortProbed { reachable: false }, &mut log);
    match a {
        Action::Finish { result: Err(SupervisorError::DirectoryNotFound { searched }), .. } => {
            assert!(searched.is_empty())
        }
        _ => panic!("expected DirectoryNotFound"),
    }
}

#[test]
fn locator_takes_first_qualifying_candidate() {
    let mut log = LogBuffer::new();
    let mut sup: Supervisor<u32> = Supervisor::new(config_with(&["/a", "/b", "/c"]));
    sup.start(&mut log);
    sup.advance(Event::PortProbed { reachable: false }, &mut log);
    // exists but holds neither a descriptor nor a binary
    let a = sup.advance(Event::CandidateChecked { exists: true, has_descriptor: false, has_binary: false }, &mut log);
    assert!(matches!(a, Action::CheckCandidate { index: 1 }));
    let a = sup.advance(Event::CandidateChecked { exists: true, has_descriptor: true, has_binary: false }, &mut log);
    assert!(matches!(a, Action::CheckPrerequisites { index: 1 }));
}

#[test]
fn scenario_missing_entrypoint_blocks_build() {
    let mut log = LogBuffer::new();
    let mut sup: Supervisor<u32> = Supervisor::new(config_with(&["/srv/server"]));
    sup.start(&mut log);
    sup.advance(Event::PortProbed { reachable: false }, &mut log);
    let a = sup.advance(Event::CandidateChecked { exists: true, has_descriptor: true, has_binary: false }, &mut log);
    assert!(matches!(a, Action::CheckPrerequisites { index: 0 }));
    let a = sup.advance(Event::PrerequisitesChecked { descriptor: true, entrypoint: false }, &mut log);
    match a {
        Action::Finish { result: Err(SupervisorError::BuildPrerequisiteMissing { file }), .. } => {
            assert_eq!(file, "/srv/server/cmd/server/main.go")
        }
        _ => panic!("expected BuildPrerequisiteMissing"),
    }
    assert!(sup.is_idle());
}

#[test]
fn missing_descriptor_is_named() {
    let mut log = LogBuffer::new();
    let mut sup: Supervisor<u32> = Supervisor::new(config_with(&["/srv/server"]));
    sup.start(&mut log);
    sup.advance(Event::PortProbed { reachable: false }, &mut log);
    sup.advance(Event::CandidateChecked { exists: true, has_descriptor: true, has_binary: false }, &mut log);
    let a = sup.advance(Event::PrerequisitesChecked { descriptor: false, entrypoint: true }, &mut log);
    match a {
        Action::Finish { result: Err(SupervisorError::BuildPrerequisiteMissing { file }), .. } => {
            assert_eq!(file, "/srv/server/go.mod")
        }
        _ => panic!("expected BuildPrerequisiteMissing"),
    }
}

#[test]
fn build_then_spawn() {
    let mut log = LogBuffer::new();
    let mut sup: Supervisor<u32> = Supervisor::new(config_with(&["/srv/server"]));
    sup.start(&mut log);
    sup.advance(Event::PortProbed { reachable: false }, &mut log);
    sup.advance(Event::CandidateChecked { exists: true, has_descriptor: true, has_binary: false }, &mut log);
    let a = sup.advance(Event::PrerequisitesChecked { descriptor: true, entrypoint: true }, &mut log);
    assert!(matches!(a, Action::RunBuild { index: 0 }));
    let a = sup.advance(Event::BuildFinished { result: Ok(()) }, &mut log);
    assert!(matches!(a, Action::Spawn { index: 0 }));
}

#[test]
fn build_failure_keeps_stderr() {
    let mut log = LogBuffer::new();
    let mut sup: Supervisor<u32> = Supervisor::new(config_with(&["/srv/server"]));
    sup.start(&mut log);
    sup.advance(Event::PortProbed { reachable: false }, &mut log);
    sup.advance(Event::CandidateChecked { exists: true, has_descriptor: true, has_binary: false }, &mut log);
    sup.advance(Event::PrerequisitesChecked { descriptor: true, entrypoint: true }, &mut log);
    let a = sup.advance(Event::BuildFinished { result: Err("main.go:3: syntax error".to_string()) }, &mut log);
    match a {
        Action::Finish { result: Err(SupervisorError::BuildFailed { stderr }), .. } => {
            assert_eq!(stderr, "main.go:3: syntax error")
        }
        _ => panic!("expected BuildFailed"),
    }
    assert_eq!(last_level(&log), LogLevel::Error);
}

#[test]
fn spawn_failure_is_reported() {
    let mut log = LogBuffer::new();
    let mut sup: Supervisor<u32> = Supervisor::new(config_with(&["/srv/server"]));
    sup.start(&mut log);
    sup.advance(Event::PortProbed { reachable: false }, &mut log);
    sup.advance(Event::CandidateChecked { exists: true, has_descriptor: false, has_binary: true }, &mut log);
    let a = sup.advance(Event::Spawned { result: Err("permission denied".to_string()) }, &mut log);
    match a {
        Action::Finish { result: Err(SupervisorError::SpawnFailed { cause }), .. } => {
            assert_eq!(cause, "permission denied")
        }
        _ => panic!("expected SpawnFailed"),
    }
    assert_eq!(sup.pid(), None);
}

#[test]
fn second_start_is_already_running() {
    let mut log = LogBuffer::new();
    let mut sup: Supervisor<u32> = Supervisor::new(config_with(&["/srv/server"]));
    start_with_binary(&mut sup, &mut log, 10, true);
    for _ in 0..3 {
        let a = sup.start(&mut log);
        assert!(matches!(a, Action::Finish { result: Err(SupervisorError::AlreadyRunning), announce: None }));
        assert_eq!(last_level(&log), LogLevel::Warning);
        assert_eq!(sup.pid(), Some(10));
        assert!(sup.is_idle());
    }
}

#[test]
fn stop_when_stopped_is_idempotent() {
    let mut log = LogBuffer::new();
    let mut sup: Supervisor<u32> = Supervisor::new(config_with(&["/srv/server"]));
    for _ in 0..3 {
        let a = sup.stop(&mut log);
        assert!(matches!(a, Action::Finish { result: Ok(()), announce: None }));
        assert!(sup.is_idle());
        assert_eq!(sup.status(false), ServerStatus { running: false, port: 4021, pid: None });
    }
}

#[test]
fn stop_terminates_owned_child() {
    let mut log = LogBuffer::new();
    let mut sup: Supervisor<u32> = Supervisor::new(config_with(&["/srv/server"]));
    start_with_binary(&mut sup, &mut log, 31, true);
    match sup.stop(&mut log) {
        Action::Terminate { child } => {
            assert_eq!(child.pid, 31);
            assert!(!sup.is_idle());
        }
        _ => panic!("expected Terminate"),
    }
    let a = sup.advance(Event::Terminated { result: Ok(()) }, &mut log);
    assert!(matches!(a, Action::Finish { result: Ok(()), announce: None }));
    assert_eq!(sup.pid(), None);
    assert!(sup.is_idle());
}

#[test]
fn failed_stop_keeps_child() {
    let mut log = LogBuffer::new();
    let mut sup: Supervisor<u32> = Supervisor::new(config_with(&["/srv/server"]));
    start_with_binary(&mut sup, &mut log, 31, true);
    let child = match sup.stop(&mut log) {
        Action::Terminate { child } => child,
        _ => panic!("expected Terminate"),
    };
    let a = sup.advance(Event::Terminated { result: Err((child, "no such process".to_string())) }, &mut log);
    match a {
        Action::Finish { result: Err(SupervisorError::StopFailed { cause }), .. } => {
            assert_eq!(cause, "no such process")
        }
        _ => panic!("expected StopFailed"),
    }
    assert_eq!(sup.pid(), Some(31));
}

#[test]
fn restart_replaces_child_atomically() {
    let mut log = LogBuffer::new();
    let mut sup: Supervisor<u32> = Supervisor::new(config_with(&["/srv/server"]));
    start_with_binary(&mut sup, &mut log, 1, true);
    let child = match sup.restart(&mut log) {
        Action::Terminate { child } => child,
        _ => panic!("expected Terminate"),
    };
    assert_eq!(child.pid, 1);
    assert!(!sup.is_idle());
    let a = sup.advance(Event::Terminated { result: Ok(()) }, &mut log);
    assert!(matches!(a, Action::Sleep { millis } if millis == RESTART_DELAY_MS));
    assert!(!sup.is_idle());
    let a = sup.advance(Event::Slept, &mut log);
    assert!(matches!(a, Action::ProbePort));
    assert!(!sup.is_idle());
    sup.advance(Event::PortProbed { reachable: false }, &mut log);
    sup.advance(Event::CandidateChecked { exists: true, has_descriptor: false, has_binary: true }, &mut log);
    sup.advance(Event::Spawned { result: Ok(OwnedChild { pid: 2, handle: 2 }) }, &mut log);
    sup.advance(Event::Slept, &mut log);
    let a = sup.advance(Event::PortProbed { reachable: true }, &mut log);
    assert!(matches!(a, Action::Finish { result: Ok(()), announce: Some(_) }));
    assert_eq!(sup.pid(), Some(2));
    // a start after the restart finds the new child
    assert!(matches!(sup.start(&mut log), Action::Finish { result: Err(SupervisorError::AlreadyRunning), .. }));
}

#[test]
fn restart_without_child_pauses_then_starts() {
    let mut log = LogBuffer::new();
    let mut sup: Supervisor<u32> = Supervisor::new(config_with(&["/srv/server"]));
    let a = sup.restart(&mut log);
    assert!(matches!(a, Action::Sleep { millis } if millis == RESTART_DELAY_MS));
    let a = sup.advance(Event::Slept, &mut log);
    assert!(matches!(a, Action::ProbePort));
}

#[test]
fn supervisor_url() {
    let sup: Supervisor<u32> = Supervisor::new(config_with(&[]));
    assert_eq!(sup.url(), "http://127.0.0.1:4021");
}
