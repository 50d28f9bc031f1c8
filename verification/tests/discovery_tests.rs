use backend_supervisor::discovery::{
    backend_identifier, discovery_plan, effective_forced_port, evaluate_probe_response,
    quick_candidates, scan_candidates, DiscoveryPlan,
};
use backend_supervisor::supervisor::Supervisor;

fn info_body(identifier: &str, port: Option<u64>, token: Option<&str>) -> String {
    let mut body = String::from("{\"data\":{\"identifier\":\"");
    body.push_str(identifier);
    body.push('"');
    if let Some(p) = port {
        body.push_str(",\"port\":");
        body.push_str(&p.to_string());
    }
    if let Some(t) = token {
        body.push_str(",\"boot_token\":\"");
        body.push_str(t);
        body.push('"');
    }
    body.push_str("}}");
    body
}

#[test]
fn matching_identifier_is_adopted() {
    let body = info_body(backend_identifier(), Some(8005), Some("abc"));
    let r = evaluate_probe_response(&body, 8005, false);
    assert_eq!(r, Some((8005, Some("abc".to_string()))));
}

#[test]
fn mismatched_identifier_is_never_adopted() {
    let body = info_body("some-unrelated-service", Some(8005), Some("abc"));
    assert_eq!(evaluate_probe_response(&body, 8005, false), None);
    assert_eq!(evaluate_probe_response(&body, 8005, true), None);
}

#[test]
fn missing_port_field_uses_probed_port() {
    let body = info_body(backend_identifier(), None, None);
    assert_eq!(evaluate_probe_response(&body, 8042, false), Some((8042, None)));
}

#[test]
fn oversized_port_field_uses_probed_port() {
    let body = info_body(backend_identifier(), Some(70000), None);
    assert_eq!(evaluate_probe_response(&body, 8042, false), Some((8042, None)));
}

#[test]
fn token_required_but_absent_is_rejected() {
    let body = info_body(backend_identifier(), Some(18000), None);
    assert_eq!(evaluate_probe_response(&body, 18000, true), None);
}

#[test]
fn empty_token_counts_as_absent() {
    let body = info_body(backend_identifier(), Some(18000), Some(""));
    assert_eq!(evaluate_probe_response(&body, 18000, true), None);
    assert_eq!(evaluate_probe_response(&body, 18000, false), Some((18000, None)));
}

#[test]
fn malformed_bodies_are_rejected() {
    assert_eq!(evaluate_probe_response("not json at all", 8000, false), None);
    assert_eq!(evaluate_probe_response("{}", 8000, false), None);
    assert_eq!(evaluate_probe_response("{\"data\":{}}", 8000, false), None);
    assert_eq!(
        evaluate_probe_response("{\"data\":{\"identifier\":42}}", 8000, false),
        None
    );
}

#[test]
fn scan_covers_both_ranges() {
    let c = scan_candidates();
    assert_eq!(c.len(), 202);
    assert_eq!(c[0], 8000);
    assert_eq!(c[100], 8100);
    assert_eq!(c[101], 18000);
    assert_eq!(c[201], 18100);
}

#[test]
fn quick_scan_checks_log_port_first() {
    assert_eq!(quick_candidates(Some(9001)), vec![9001, 18000, 8000]);
    assert_eq!(quick_candidates(None), vec![18000, 8000]);
}

#[test]
fn discovery_policy_by_mode() {
    assert_eq!(
        discovery_plan(true, None),
        DiscoveryPlan::Exhaustive { require_token: false }
    );
    assert_eq!(
        discovery_plan(false, None),
        DiscoveryPlan::Quick { require_token: true }
    );
    assert_eq!(discovery_plan(true, Some(9005)), DiscoveryPlan::Skip);
    assert_eq!(discovery_plan(false, Some(9005)), DiscoveryPlan::Skip);
    assert_eq!(
        discovery_plan(true, Some(0)),
        DiscoveryPlan::Exhaustive { require_token: false }
    );
}

#[test]
fn discovered_instance_takes_precedence_over_spawning() {
    // Development mode, no forced port: the plan is the exhaustive scan.
    assert_eq!(
        discovery_plan(true, None),
        DiscoveryPlan::Exhaustive { require_token: false }
    );
    // A compatible instance answers on port 8005; adopting it reports that
    // port with no pid, and nothing is ever spawned.
    let body = info_body(backend_identifier(), None, None);
    let (port, token) = evaluate_probe_response(&body, 8005, false).expect("adopted");
    let mut sup = Supervisor::new();
    sup.adopt_discovered(port, token);
    assert_eq!(sup.owned_pid, None);
    let st = sup.running_status(None);
    assert!(st.running);
    assert_eq!(st.port, 8005);
    assert_eq!(st.pid, None);
}

#[test]
fn zero_forced_port_forces_nothing() {
    assert_eq!(effective_forced_port(Some(0)), None);
    assert_eq!(effective_forced_port(Some(8100)), Some(8100));
    assert_eq!(effective_forced_port(None), None);
}
