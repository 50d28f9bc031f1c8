use backend_supervisor::supervisor::{
    ProcessCheck, StopAction, Supervisor, SupervisorError,
};

fn launched(port: u16, token: &str, pid: u32) -> Supervisor {
    let mut sup = Supervisor::new();
    let already = sup.begin_start();
    assert!(!already);
    sup.record_launch(port, token.to_string());
    sup.record_spawn(pid);
    sup
}

#[test]
fn fresh_supervisor_is_idle() {
    let sup = Supervisor::new();
    assert_eq!(sup.owned_pid, None);
    assert_eq!(sup.port, 0);
    assert_eq!(sup.boot_token, None);
    assert!(!sup.starting);
}

#[test]
fn start_is_idempotent_against_healthy_process() {
    let mut sup = launched(8010, "tok", 4242);
    let first = sup.start_precheck(ProcessCheck::StillRunning).expect("running");
    let second = sup.start_precheck(ProcessCheck::StillRunning).expect("running");
    assert_eq!(first.port, 8010);
    assert_eq!(second.port, 8010);
    assert_eq!(first.pid, Some(4242));
    assert_eq!(second.pid, Some(4242));
    assert!(first.running && second.running);
    assert_eq!(first.boot_token, Some("tok".to_string()));
    assert_eq!(second.boot_token, Some("tok".to_string()));
    assert_eq!(sup.owned_pid, Some(4242));
}

#[test]
fn start_stop_status_round_trip() {
    let mut sup = launched(8010, "tok", 4242);
    assert_eq!(sup.stop_begin(), StopAction::Kill(4242));
    assert_eq!(sup.stop_finish(true), Ok(true));
    assert_eq!(sup.owned_pid, None);
    let st = sup.status_no_process();
    assert!(!st.running);
    assert_eq!(st.port, 0);
    assert_eq!(st.pid, None);
    assert_eq!(st.boot_token, None);
}

#[test]
fn concurrent_start_collapses_to_one_launch() {
    let mut sup = Supervisor::new();
    let first_already = sup.begin_start();
    assert!(!first_already);
    sup.record_launch(8020, "tok".to_string());
    let second_already = sup.begin_start();
    assert!(second_already);
    let report = sup.collapse_status();
    assert!(report.running);
    assert_eq!(report.port, 8020);
    assert_eq!(report.pid, None);
    sup.record_spawn(7);
    let first_report = sup.running_status(Some(7));
    assert_eq!(first_report.port, report.port);
}

#[test]
fn collapse_before_port_is_recorded_reports_not_running() {
    let mut sup = Supervisor::new();
    sup.begin_start();
    let report = sup.collapse_status();
    assert!(!report.running);
    assert_eq!(report.port, 0);
}

#[test]
fn exited_process_is_cleared_by_precheck() {
    let mut sup = launched(8010, "tok", 4242);
    assert_eq!(sup.start_precheck(ProcessCheck::Exited), None);
    assert_eq!(sup.owned_pid, None);
}

#[test]
fn precheck_without_process_is_silent() {
    let mut sup = Supervisor::new();
    assert_eq!(sup.start_precheck(ProcessCheck::StillRunning), None);
}

#[test]
fn adoption_records_identity_without_spawn() {
    let mut sup = Supervisor::new();
    sup.adopt_discovered(8005, Some("remote".to_string()));
    assert_eq!(sup.owned_pid, None);
    let st = sup.running_status(None);
    assert!(st.running);
    assert_eq!(st.port, 8005);
    assert_eq!(st.pid, None);
    assert_eq!(st.boot_token, Some("remote".to_string()));
}

#[test]
fn stop_without_process_is_a_no_op() {
    let mut sup = Supervisor::new();
    assert_eq!(sup.stop_begin(), StopAction::NoOp);
}

#[test]
fn failed_kill_is_reported_and_keeps_state() {
    let mut sup = launched(8010, "tok", 4242);
    assert_eq!(sup.stop_begin(), StopAction::Kill(4242));
    assert_eq!(sup.stop_finish(false), Err(SupervisorError::StopFailed));
    assert_eq!(sup.port, 8010);
}

#[test]
fn status_of_running_child() {
    let mut sup = launched(8010, "tok", 4242);
    let st = sup.status_step(ProcessCheck::StillRunning).expect("status");
    assert!(st.running);
    assert_eq!(st.port, 8010);
    assert_eq!(st.pid, Some(4242));
}

#[test]
fn status_clears_exited_child() {
    let mut sup = launched(8010, "tok", 4242);
    let st = sup.status_step(ProcessCheck::Exited).expect("status");
    assert!(!st.running);
    assert_eq!(st.port, 0);
    assert_eq!(st.pid, None);
    assert_eq!(sup.owned_pid, None);
}

#[test]
fn status_check_failure_is_an_error() {
    let mut sup = launched(8010, "tok", 4242);
    assert_eq!(
        sup.status_step(ProcessCheck::CheckFailed),
        Err(SupervisorError::StatusCheckFailed)
    );
    assert_eq!(sup.owned_pid, Some(4242));
}

#[test]
fn spawn_failure_resets_to_idle() {
    let mut sup = Supervisor::new();
    sup.begin_start();
    sup.record_launch(8030, "tok".to_string());
    sup.spawn_failed();
    assert_eq!(sup.port, 0);
    assert_eq!(sup.boot_token, None);
    assert!(!sup.starting);
}

#[test]
fn recovered_port_replaces_requested_one() {
    let mut sup = launched(8010, "tok", 4242);
    sup.recover_port(8777);
    let st = sup.running_status(Some(4242));
    assert_eq!(st.port, 8777);
    assert_eq!(st.boot_token, Some("tok".to_string()));
}

#[test]
fn error_messages_are_descriptive() {
    assert!(SupervisorError::ReadinessTimeout.message().contains("log"));
    assert!(!SupervisorError::Resolution.message().is_empty());
    assert!(!SupervisorError::Spawn.message().is_empty());
    assert!(!SupervisorError::StopFailed.message().is_empty());
    assert!(!SupervisorError::StatusCheckFailed.message().is_empty());
}
