use backend_supervisor::ports::{
    port_candidates, select_port, PortDecision, DEV_BASE_PORT, SECONDARY_BASE_PORT,
};

#[test]
fn dev_candidates_prefer_low_base() {
    let c = port_candidates(true);
    assert_eq!(c.len(), 203);
    assert_eq!(c[0], 8000);
    assert_eq!(c[1], 8000);
    assert_eq!(c[101], 8100);
    assert_eq!(c[102], 18000);
    assert_eq!(c[202], 18100);
}

#[test]
fn prod_candidates_prefer_high_range() {
    let c = port_candidates(false);
    assert_eq!(c.len(), 202);
    assert_eq!(c[0], 18000);
    assert_eq!(c[100], 18100);
    assert_eq!(c[101], 8000);
    assert_eq!(c[201], 8100);
}

#[test]
fn first_free_candidate_wins() {
    let c = port_candidates(true);
    let free = vec![true; c.len()];
    assert_eq!(select_port(true, &free), PortDecision::Free(8000));
}

#[test]
fn occupied_prefix_is_skipped() {
    let c = port_candidates(true);
    let mut free = vec![true; c.len()];
    free[0] = false;
    free[1] = false;
    free[2] = false;
    assert_eq!(select_port(true, &free), PortDecision::Free(c[3]));
    assert_eq!(c[3], 8002);
}

#[test]
fn primary_range_occupied_falls_back_to_secondary() {
    let c = port_candidates(true);
    let free: Vec<bool> = c.iter().map(|p| *p >= 18000).collect();
    match select_port(true, &free) {
        PortDecision::Free(p) => {
            assert!((18000..=18100).contains(&p));
            assert_eq!(p, 18000);
        }
        other => panic!("expected a secondary-range port, got {:?}", other),
    }
}

#[test]
fn all_occupied_dev_returns_last_resort() {
    let c = port_candidates(true);
    let free = vec![false; c.len()];
    assert_eq!(select_port(true, &free), PortDecision::LastResort(DEV_BASE_PORT));
}

#[test]
fn all_occupied_prod_asks_os() {
    let c = port_candidates(false);
    let free = vec![false; c.len()];
    assert_eq!(select_port(false, &free), PortDecision::OsEphemeral);
    assert_eq!(SECONDARY_BASE_PORT, 18000);
}
