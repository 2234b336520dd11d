use redwood_supervisor::config::{
    resolve_mode, Mode, StartError, API_PORT, GRACE_MILLIS, SETTLE_MILLIS, WEB_PORT,
};
use redwood_supervisor::plan::{Signal, StopStep};
use redwood_supervisor::supervisor::{RedwoodServer, SupervisorState};

#[test]
fn mode_absent_defaults_to_production() {
    assert_eq!(resolve_mode(None), Mode::Production);
}

#[test]
fn mode_dev_marker_selects_development() {
    assert_eq!(resolve_mode(Some(&String::from("dev"))), Mode::Development);
}

#[test]
fn mode_other_values_select_production() {
    assert_eq!(resolve_mode(Some(&String::from("production"))), Mode::Production);
    assert_eq!(resolve_mode(Some(&String::from("DEV"))), Mode::Production);
    assert_eq!(resolve_mode(Some(&String::from("development"))), Mode::Production);
    assert_eq!(resolve_mode(Some(&String::from(""))), Mode::Production);
}

#[test]
fn new_supervisor_is_idle_with_standard_services() {
    let s = RedwoodServer::new();
    assert_eq!(s.state(), SupervisorState::Idle);
    assert!(s.can_start());
    assert!(!s.awaiting_spawn());
    assert_eq!(s.service_count(), 2);
    assert_eq!(s.recorded_count(), 0);
    assert_eq!(s.service_name(0), "api");
    assert_eq!(s.service_port(0), API_PORT);
    assert_eq!(s.service_name(1), "web");
    assert_eq!(s.service_port(1), WEB_PORT);
    assert_eq!(s.pid_of(0), None);
    assert_eq!(s.pid_of(1), None);
}

#[test]
fn dev_mode_start_spawns_nothing_and_succeeds() {
    let mut s = RedwoodServer::new();
    let r = s.start(Mode::Development, None, false);
    let cmds = r.expect("development mode must succeed");
    assert!(cmds.is_empty());
    assert_eq!(s.state(), SupervisorState::Idle);
    assert!(!s.awaiting_spawn());
    assert_eq!(s.recorded_count(), 0);
}

#[test]
fn production_without_cwd_fails_directory_resolution() {
    let mut s = RedwoodServer::new();
    let r = s.start(Mode::Production, None, true);
    assert!(matches!(r, Err(StartError::DirectoryResolutionFailed)));
    assert_eq!(s.state(), SupervisorState::Idle);
}

#[test]
fn production_without_build_fails_with_path_and_remediation() {
    let mut s = RedwoodServer::new();
    let r = s.start(Mode::Production, Some(String::from("/srv/app")), false);
    match r {
        Err(StartError::BuildNotFound { expected_path, remediation }) => {
            assert_eq!(expected_path, "/srv/app/api/dist");
            assert_eq!(remediation, "yarn redwood build");
        },
        other => panic!("expected BuildNotFound, got {:?}", other),
    }
    assert_eq!(s.state(), SupervisorState::Idle);
    assert_eq!(s.recorded_count(), 0);
    assert!(s.can_start());
}

#[test]
fn production_start_plans_both_services_in_order() {
    let mut s = RedwoodServer::new();
    let cmds = s
        .start(Mode::Production, Some(String::from("/srv/app")), true)
        .expect("start must succeed with the build present");
    assert_eq!(cmds.len(), 2);

    let api = &cmds[0];
    assert_eq!(api.program, "yarn");
    assert_eq!(api.args, vec!["rw".to_string(), "serve".to_string(), "api".to_string()]);
    assert_eq!(api.port, API_PORT);
    assert_eq!(api.host, "0.0.0.0");
    assert_eq!(api.env, vec![("NODE_ENV".to_string(), "production".to_string())]);
    assert_eq!(api.workdir, "/srv/app");
    assert!(api.new_process_group);
    assert_eq!(api.settle_millis, SETTLE_MILLIS);

    let web = &cmds[1];
    assert_eq!(web.program, "yarn");
    assert_eq!(web.args, vec!["rw".to_string(), "serve".to_string(), "web".to_string()]);
    assert_eq!(web.port, WEB_PORT);
    assert_eq!(web.host, "0.0.0.0");
    assert!(web.env.is_empty());
    assert_eq!(web.workdir, "/srv/app");
    assert!(web.new_process_group);
    assert_eq!(web.settle_millis, SETTLE_MILLIS);

    assert!(s.awaiting_spawn());
    assert_eq!(s.state(), SupervisorState::Idle);
}

fn teardown_of(pid: u32) -> [StopStep; 4] {
    [
        StopStep::SignalGroup { pid, signal: Signal::Graceful },
        StopStep::WaitGrace { millis: GRACE_MILLIS },
        StopStep::SignalGroup { pid, signal: Signal::Forceful },
        StopStep::Reap { pid },
    ]
}

#[test]
fn full_lifecycle_stops_web_group_before_api_group() {
    let mut s = RedwoodServer::new();
    s.start(Mode::Production, Some(String::from("/srv/app")), true)
        .expect("start must succeed with the build present");

    assert_eq!(s.record_spawn(Ok(101)), Ok(false));
    assert!(s.awaiting_spawn());
    assert_eq!(s.record_spawn(Ok(202)), Ok(true));
    assert!(!s.awaiting_spawn());

    assert_eq!(s.state(), SupervisorState::Running);
    assert_eq!(s.recorded_count(), 2);
    assert_eq!(s.pid_of(0), Some(101));
    assert_eq!(s.pid_of(1), Some(202));

    let plan = s.stop();
    let mut expected: Vec<StopStep> = Vec::new();
    expected.extend_from_slice(&teardown_of(202));
    expected.extend_from_slice(&teardown_of(101));
    assert_eq!(plan, expected);

    assert_eq!(s.state(), SupervisorState::Stopped);
    assert_eq!(s.recorded_count(), 0);
    assert_eq!(s.pid_of(0), None);
    assert_eq!(s.pid_of(1), None);
}

#[test]
fn escalation_is_unconditional_and_bounded() {
    let mut s = RedwoodServer::new();
    s.start(Mode::Production, Some(String::from("/srv/app")), true)
        .expect("start must succeed with the build present");
    s.record_spawn(Ok(77)).expect("first spawn recorded");

    // Whether or not the process exits during the grace wait, the plan holds
    // the forceful group signal right after the bounded wait, then the reap.
    let plan = s.stop();
    assert_eq!(plan.len(), 4);
    assert_eq!(plan[0], StopStep::SignalGroup { pid: 77, signal: Signal::Graceful });
    assert_eq!(plan[1], StopStep::WaitGrace { millis: GRACE_MILLIS });
    assert_eq!(plan[2], StopStep::SignalGroup { pid: 77, signal: Signal::Forceful });
    assert_eq!(plan[3], StopStep::Reap { pid: 77 });
}

#[test]
fn partial_failure_still_tears_down_recorded_service() {
    let mut s = RedwoodServer::new();
    s.start(Mode::Production, Some(String::from("/srv/app")), true)
        .expect("start must succeed with the build present");

    assert_eq!(s.record_spawn(Ok(101)), Ok(false));
    let r = s.record_spawn(Err(String::from("No such file or directory")));
    match r {
        Err(StartError::SpawnFailed { service, message }) => {
            assert_eq!(service, "web");
            assert_eq!(message, "No such file or directory");
        },
        other => panic!("expected SpawnFailed, got {:?}", other),
    }
    assert!(!s.awaiting_spawn());
    assert_eq!(s.state(), SupervisorState::Running);
    assert_eq!(s.recorded_count(), 1);
    assert_eq!(s.pid_of(0), Some(101));

    let plan = s.stop();
    assert_eq!(plan, teardown_of(101).to_vec());
    assert_eq!(s.state(), SupervisorState::Stopped);
    assert_eq!(s.pid_of(0), None);
}

#[test]
fn spawn_failure_of_first_service_leaves_nothing_recorded() {
    let mut s = RedwoodServer::new();
    s.start(Mode::Production, Some(String::from("/srv/app")), true)
        .expect("start must succeed with the build present");
    let r = s.record_spawn(Err(String::from("yarn: command not found")));
    match r {
        Err(StartError::SpawnFailed { service, message }) => {
            assert_eq!(service, "api");
            assert_eq!(message, "yarn: command not found");
        },
        other => panic!("expected SpawnFailed, got {:?}", other),
    }
    assert_eq!(s.state(), SupervisorState::Idle);
    assert_eq!(s.recorded_count(), 0);
    let plan = s.stop();
    assert!(plan.is_empty());
}

#[test]
fn stop_is_idempotent_without_start() {
    let mut s = RedwoodServer::new();
    let first = s.stop();
    assert!(first.is_empty());
    assert_eq!(s.state(), SupervisorState::Stopped);
    let second = s.stop();
    assert!(second.is_empty());
    assert_eq!(s.state(), SupervisorState::Stopped);
}

#[test]
fn stop_twice_after_running_does_nothing_the_second_time() {
    let mut s = RedwoodServer::new();
    s.start(Mode::Production, Some(String::from("/srv/app")), true)
        .expect("start must succeed with the build present");
    s.record_spawn(Ok(101)).expect("api recorded");
    s.record_spawn(Ok(202)).expect("web recorded");

    let first = s.stop();
    assert_eq!(first.len(), 8);
    let second = s.stop();
    assert!(second.is_empty());
    assert_eq!(s.state(), SupervisorState::Stopped);
    assert_eq!(s.recorded_count(), 0);
}
