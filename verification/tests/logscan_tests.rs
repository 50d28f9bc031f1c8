use backend_supervisor::logscan::parse_port_from_log;

#[test]
fn plain_banner_yields_port() {
    let log = "INFO:     Started server process\nINFO:     Uvicorn running on http://127.0.0.1:8123 (Press CTRL+C to quit)\n";
    assert_eq!(parse_port_from_log(log), Some(8123));
}

#[test]
fn tagged_banner_yields_port() {
    let log = "[meta] start requested\n[stdout] Uvicorn running on http://127.0.0.1:8010 (Press CTRL+C to quit)\n";
    assert_eq!(parse_port_from_log(log), Some(8010));
}

#[test]
fn last_banner_wins() {
    let log = "Uvicorn running on http://127.0.0.1:8001\nsome noise\nUvicorn running on http://127.0.0.1:8002\n";
    assert_eq!(parse_port_from_log(log), Some(8002));
}

#[test]
fn generic_listening_banner_is_accepted() {
    let log = "boot\nCustom server listening on http://127.0.0.1:9001\n";
    assert_eq!(parse_port_from_log(log), Some(9001));
}

#[test]
fn banner_match_ignores_ascii_case() {
    let log = "SERVING ON http://127.0.0.1:9002\n";
    assert_eq!(parse_port_from_log(log), Some(9002));
}

#[test]
fn address_without_banner_words_is_no_hint() {
    let log = "see the docs at http://127.0.0.1:9003 for details\n";
    assert_eq!(parse_port_from_log(log), None);
}

#[test]
fn port_zero_is_no_hint() {
    let log = "Uvicorn running on http://127.0.0.1:0\n";
    assert_eq!(parse_port_from_log(log), None);
}

#[test]
fn huge_digit_run_saturates() {
    let log = "Uvicorn running on http://127.0.0.1:99999999\n";
    assert_eq!(parse_port_from_log(log), Some(65535));
}

#[test]
fn empty_or_silent_log_gives_nothing() {
    assert_eq!(parse_port_from_log(""), None);
    assert_eq!(parse_port_from_log("[stderr] traceback: something failed\n"), None);
}

#[test]
fn banner_missing_digits_gives_nothing() {
    let log = "Uvicorn running on http://127.0.0.1: (no port printed)\n";
    assert_eq!(parse_port_from_log(log), None);
}
