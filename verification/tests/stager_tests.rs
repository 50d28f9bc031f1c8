use backend_supervisor::stager::{
    classify_tool_entry, default_tools_archive_url, runtime_marker_path, should_refresh,
    staged_exe_path, stage_decision, stamp_matches, stamp_string, tool_plan, unpack_outcome,
    StageCheck, StageDecision, ToolEntry, ToolPlan, UnpackOutcome,
};

#[test]
fn stamp_renders_seconds_and_subseconds() {
    assert_eq!(stamp_string(123, 456), "123.456");
    assert_eq!(stamp_string(0, 0), "0.0");
    assert_eq!(stamp_string(1700000000, 999999999), "1700000000.999999999");
}

#[test]
fn stamp_comparison_ignores_surrounding_blanks() {
    assert!(stamp_matches("123.456", "123.456"));
    assert!(stamp_matches("123.456\n", "123.456"));
    assert!(stamp_matches("  123.456 \r\n", "123.456"));
    assert!(!stamp_matches("123.457", "123.456"));
    assert!(!stamp_matches("", "123.456"));
}

#[test]
fn refresh_rule() {
    assert!(!should_refresh(false, Some("1.2"), Some("9.9")));
    assert!(!should_refresh(true, None, Some("9.9")));
    assert!(!should_refresh(true, Some("1.2"), Some("1.2\n")));
    assert!(should_refresh(true, Some("1.2"), Some("9.9")));
    assert!(should_refresh(true, Some("1.2"), None));
}

#[test]
fn unchanged_archive_reuses_the_tree() {
    let check = StageCheck {
        root_valid: true,
        nested_valid: false,
        archive_exists: true,
        fingerprint: Some("55.7".to_string()),
        recorded: Some("55.7\n".to_string()),
    };
    assert_eq!(stage_decision(&check), StageDecision::ReuseRoot);
}

#[test]
fn second_staging_of_unchanged_archive_skips_extraction() {
    let first = StageCheck {
        root_valid: false,
        nested_valid: false,
        archive_exists: true,
        fingerprint: Some("55.7".to_string()),
        recorded: None,
    };
    assert_eq!(stage_decision(&first), StageDecision::Unpack);
    let second = StageCheck {
        root_valid: true,
        nested_valid: false,
        archive_exists: true,
        fingerprint: Some("55.7".to_string()),
        recorded: Some("55.7".to_string()),
    };
    assert_eq!(stage_decision(&second), StageDecision::ReuseRoot);
}

#[test]
fn nested_tree_is_reused_when_root_is_not_valid() {
    let check = StageCheck {
        root_valid: false,
        nested_valid: true,
        archive_exists: true,
        fingerprint: Some("55.7".to_string()),
        recorded: Some("55.7".to_string()),
    };
    assert_eq!(stage_decision(&check), StageDecision::ReuseNested);
}

#[test]
fn changed_archive_restages_even_over_a_valid_tree() {
    let check = StageCheck {
        root_valid: true,
        nested_valid: false,
        archive_exists: true,
        fingerprint: Some("56.0".to_string()),
        recorded: Some("55.7".to_string()),
    };
    assert_eq!(stage_decision(&check), StageDecision::Unpack);
}

#[test]
fn missing_archive_cannot_be_unpacked() {
    let check = StageCheck {
        root_valid: false,
        nested_valid: false,
        archive_exists: false,
        fingerprint: None,
        recorded: None,
    };
    assert_eq!(stage_decision(&check), StageDecision::MissingArchive);
}

#[test]
fn unpack_revalidation() {
    assert_eq!(unpack_outcome(true, false), UnpackOutcome::UsedRoot);
    assert_eq!(unpack_outcome(false, true), UnpackOutcome::UsedNested);
    assert_eq!(unpack_outcome(true, true), UnpackOutcome::UsedRoot);
    assert_eq!(unpack_outcome(false, false), UnpackOutcome::Failed);
}

#[test]
fn staging_paths() {
    assert_eq!(staged_exe_path("/d", false), "/d/superAutoCutVideoBackend");
    assert_eq!(staged_exe_path("C:\\d", true), "C:\\d\\superAutoCutVideoBackend.exe");
    assert_eq!(runtime_marker_path("C:\\d", true), "C:\\d\\_internal\\python311.dll");
}

#[test]
fn archive_entries_are_classified_by_suffix() {
    assert_eq!(classify_tool_entry("tools/bin/ffmpeg.exe"), ToolEntry::FfmpegExe);
    assert_eq!(classify_tool_entry("pkg\\bin\\ffprobe.exe"), ToolEntry::FfprobeExe);
    assert_eq!(classify_tool_entry("ffmpeg.exe"), ToolEntry::FfmpegExe);
    assert_eq!(classify_tool_entry("release-full/bin/ffprobe.exe"), ToolEntry::FfprobeExe);
    assert_eq!(classify_tool_entry("README.txt"), ToolEntry::Other);
    assert_eq!(classify_tool_entry("ffmpeg.txt"), ToolEntry::Other);
}

#[test]
fn tool_preparation_plan() {
    assert_eq!(tool_plan(true, true, false), ToolPlan::AlreadyPresent);
    assert_eq!(tool_plan(true, false, true), ToolPlan::CopyFromSearchPath);
    assert_eq!(tool_plan(false, false, false), ToolPlan::Download);
    assert!(default_tools_archive_url().ends_with(".zip"));
}
