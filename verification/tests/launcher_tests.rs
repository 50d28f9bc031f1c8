use backend_supervisor::launcher::{
    backend_archive_name, build_path_env, child_env, choose_interpreter, executable_candidates,
    launch_kind, packaged_working_dir, path_join, prefer_dev_script, script_candidates,
    select_executable, select_first_existing, venv_interpreter_paths, LaunchKind,
};

#[test]
fn joins_use_the_platform_separator() {
    assert_eq!(path_join("a", "b", false), "a/b");
    assert_eq!(path_join("a", "b", true), "a\\b");
}

#[test]
fn dev_script_only_without_packaged_artifacts() {
    assert!(prefer_dev_script(true, false, false, false));
    assert!(!prefer_dev_script(true, true, false, false));
    assert!(!prefer_dev_script(true, false, true, false));
    assert!(!prefer_dev_script(true, false, false, true));
    assert!(!prefer_dev_script(false, false, false, false));
}

#[test]
fn candidate_order_is_staged_root_exe_dir_then_ancestors() {
    let ancestors = vec!["/x".to_string()];
    let c = executable_candidates(Some("/staged/app"), "/r", Some("/e"), &ancestors, false);
    assert_eq!(
        c,
        vec![
            "/staged/app".to_string(),
            "/r/superAutoCutVideoBackend/superAutoCutVideoBackend".to_string(),
            "/r/superAutoCutVideoBackend".to_string(),
            "/e/resources/superAutoCutVideoBackend".to_string(),
            "/e/resources/superAutoCutVideoBackend/superAutoCutVideoBackend".to_string(),
            "/x/src-tauri/resources/superAutoCutVideoBackend".to_string(),
            "/x/resources/superAutoCutVideoBackend".to_string(),
            "/x/src-tauri/resources/superAutoCutVideoBackend/superAutoCutVideoBackend".to_string(),
            "/x/resources/superAutoCutVideoBackend/superAutoCutVideoBackend".to_string(),
        ]
    );
}

#[test]
fn windows_candidates_use_exe_names() {
    let ancestors: Vec<String> = Vec::new();
    let c = executable_candidates(None, "C:\\r", None, &ancestors, true);
    assert_eq!(
        c,
        vec![
            "C:\\r\\superAutoCutVideoBackend\\superAutoCutVideoBackend.exe".to_string(),
            "C:\\r\\superAutoCutVideoBackend.exe".to_string(),
        ]
    );
    assert_eq!(backend_archive_name(), "superAutoCutVideoBackend.zip");
}

#[test]
fn first_existing_candidate_is_selected() {
    let cands = vec!["a".to_string(), "b".to_string(), "c".to_string()];
    assert_eq!(
        select_first_existing(&cands, &vec![false, true, true]),
        Some("b".to_string())
    );
    assert_eq!(select_first_existing(&cands, &vec![false, false, false]), None);
    let (chosen, found) = select_executable(&cands, &vec![false, false, false], 0);
    assert_eq!(chosen, "a");
    assert!(!found);
    let (chosen, found) = select_executable(&cands, &vec![false, false, true], 0);
    assert_eq!(chosen, "c");
    assert!(found);
}

#[test]
fn resolution_ladder() {
    assert_eq!(launch_kind(false, true, false), LaunchKind::Packaged);
    assert_eq!(launch_kind(false, true, true), LaunchKind::Packaged);
    assert_eq!(launch_kind(true, true, true), LaunchKind::DevScript);
    assert_eq!(launch_kind(false, false, true), LaunchKind::DevScript);
    assert_eq!(launch_kind(false, false, false), LaunchKind::NotFound);
}

#[test]
fn packaged_backend_runs_beside_its_executable() {
    assert_eq!(packaged_working_dir(Some("/opt/b".to_string()), "/r"), "/opt/b");
    assert_eq!(packaged_working_dir(None, "/r"), "/r");
}

#[test]
fn script_is_sought_under_each_ancestor() {
    let ancestors = vec!["/a/b".to_string(), "/a".to_string()];
    assert_eq!(
        script_candidates(&ancestors, false),
        vec!["/a/b/backend/main.py".to_string(), "/a/backend/main.py".to_string()]
    );
}

#[test]
fn interpreter_preference_order() {
    let (unix, alt, win) = venv_interpreter_paths("/p/backend", false);
    assert_eq!(unix, "/p/backend/.venv/bin/python3");
    assert_eq!(alt, "/p/backend/.venv/bin/python");
    assert_eq!(win, "/p/backend/.venv/Scripts/python.exe");
    let pick = |ov: Option<&str>, u: bool, a: bool, w: bool, p3: bool| {
        choose_interpreter(
            ov.map(|s| s.to_string()),
            unix.clone(),
            u,
            alt.clone(),
            a,
            win.clone(),
            w,
            p3,
        )
    };
    assert_eq!(pick(Some("/custom/python"), true, true, true, true), "/custom/python");
    assert_eq!(pick(None, true, true, true, true), unix);
    assert_eq!(pick(None, false, true, true, true), alt);
    assert_eq!(pick(None, false, false, true, true), win);
    assert_eq!(pick(None, false, false, false, true), "python3");
    assert_eq!(pick(None, false, false, false, false), "python");
}

#[test]
fn search_path_puts_backend_first() {
    assert_eq!(
        build_path_env("/b", "/r", Some("/b/_internal"), "/usr/bin", false),
        "/b:/r:/b/_internal:/usr/bin"
    );
    assert_eq!(build_path_env("/r", "/r", None, "/usr/bin", false), "/r:/usr/bin");
    assert_eq!(
        build_path_env("C:\\b", "C:\\r", None, "C:\\w", true),
        "C:\\b;C:\\r;C:\\w"
    );
}

#[test]
fn child_environment_is_complete() {
    let env = child_env("127.0.0.1", 8005, "/b:/usr/bin", "/tmp/backend", "deadbeef", "/install");
    let pairs: Vec<(&str, &str)> = env
        .iter()
        .map(|p| (p.name.as_str(), p.value.as_str()))
        .collect();
    assert_eq!(
        pairs,
        vec![
            ("HOST", "127.0.0.1"),
            ("PORT", "8005"),
            ("PATH", "/b:/usr/bin"),
            ("TEMP", "/tmp/backend"),
            ("TMP", "/tmp/backend"),
            ("SACV_BOOT_TOKEN", "deadbeef"),
            ("SACV_RUNTIME", "supervisor"),
            ("SACV_INSTALL_DIR", "/install"),
        ]
    );
}
