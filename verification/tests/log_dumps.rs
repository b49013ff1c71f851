use robot_vacuum_firmware::api::error::ApiError;
use robot_vacuum_firmware::api::log_dump::{
    ensure_within_root, plan_batch_log_dump, plan_batch_summary, plan_manual_log_dump,
    validate_batch_log_dump_payload, validate_batch_summary_payload,
    validate_manual_log_dump_payload, validate_timeline_timestamps, FrameOutline,
    LogDumpOutline, LogDumpTarget,
};
use robot_vacuum_firmware::api::text::{is_blank, sanitize_identifier, str_equal};

fn frame(timestamp_ms: Option<u64>) -> FrameOutline {
    FrameOutline { timestamp_ms, battery_percent: 80, coverage_in_range: true }
}

fn outline(session_id: &str) -> LogDumpOutline {
    LogDumpOutline {
        session_id: session_id.to_string(),
        created_at: "2026-06-28T15:00:00Z".to_string(),
        room_width: 860,
        room_height: 560,
        robot_radius: 29,
        grid_cols: 43,
        grid_rows: 28,
        simulation_speed_at_most_zero: false,
        obstacle_distance_at_most_zero: false,
        coverage_in_range: true,
        summary_coverage_in_range: true,
        frames: vec![frame(Some(0)), frame(Some(100))],
        batch_id: None,
        run_index: None,
        batch_total_runs: None,
        batch_mode: None,
        has_run_config: false,
    }
}

fn batch_outline() -> LogDumpOutline {
    let mut log = outline("demo-map-20260628-001-run-001");
    log.batch_id = Some("batch-20260628-001".to_string());
    log.run_index = Some(1);
    log.batch_total_runs = Some(3);
    log.batch_mode = Some(true);
    log.has_run_config = true;
    log
}

fn message(error: &ApiError) -> String {
    match error {
        ApiError::Domain(e) => format!("{}: {}", e.code, e.message),
        ApiError::BadRequest(m) => m.clone(),
    }
}

#[test]
fn manual_log_dump_is_saved_under_its_session() {
    let target = plan_manual_log_dump(&outline("demo-map-20260628-01")).expect("valid");
    assert_eq!(target.saved_path, "demo-logs/demo-map-20260628-01/log.json");
    assert_eq!(target.directories, vec!["demo-map-20260628-01".to_string()]);
    assert_eq!(target.file_name, "log.json");
}

#[test]
fn manual_log_dump_rejects_missing_data() {
    let mut log = outline("  ");
    assert_eq!(
        message(&validate_manual_log_dump_payload(&log).unwrap_err()),
        "INVALID_LOG_DUMP: session_id is required"
    );
    log = outline("session");
    log.room_width = 0;
    assert_eq!(
        message(&validate_manual_log_dump_payload(&log).unwrap_err()),
        "INVALID_LOG_DUMP: log dump is missing required reconstruction or timeline data"
    );
    log = outline("session");
    log.frames.clear();
    assert!(validate_manual_log_dump_payload(&log).is_err());
    log = outline("session");
    log.summary_coverage_in_range = false;
    assert_eq!(
        message(&validate_manual_log_dump_payload(&log).unwrap_err()),
        "INVALID_LOG_DUMP: coverage percentages must be in the range 0..=100"
    );
    log = outline("session");
    log.frames[1].battery_percent = 101;
    assert_eq!(
        message(&validate_manual_log_dump_payload(&log).unwrap_err()),
        "INVALID_LOG_DUMP: timeline contains invalid battery or coverage values"
    );
}

#[test]
fn timeline_timestamps_must_not_decrease() {
    assert!(validate_timeline_timestamps(&[frame(Some(5)), frame(None), frame(Some(5))]).is_ok());
    assert!(validate_timeline_timestamps(&[]).is_ok());
    let error = validate_timeline_timestamps(&[frame(Some(10)), frame(None), frame(Some(9))])
        .unwrap_err();
    assert_eq!(
        message(&error),
        "INVALID_LOG_DUMP: timeline timestamp_ms values must be non-decreasing"
    );
}

#[test]
fn manual_log_dump_rejects_unusable_session_id() {
    let error = plan_manual_log_dump(&outline("!!!")).unwrap_err();
    assert_eq!(
        message(&error),
        "INVALID_SESSION_ID: session_id must contain only letters, digits, hyphens, or underscores"
    );
}

#[test]
fn batch_log_dump_is_saved_under_batch_and_session() {
    let target = plan_batch_log_dump(
        "batch-20260628-001",
        "demo-map-20260628-001-run-001",
        &batch_outline(),
    )
    .expect("valid");
    assert_eq!(
        target.saved_path,
        "demo-logs/batch-20260628-001/demo-map-20260628-001-run-001/log.json"
    );
    assert_eq!(target.directories.len(), 2);
}

#[test]
fn batch_log_dump_rejects_mismatched_identifiers() {
    let error = validate_batch_log_dump_payload(
        "other-batch",
        "demo-map-20260628-001-run-001",
        &batch_outline(),
    )
    .unwrap_err();
    assert_eq!(
        message(&error),
        "INVALID_LOG_DUMP: top-level and embedded batch/session identifiers must match"
    );
    let error = validate_batch_log_dump_payload(
        "batch-20260628-001",
        "different-session",
        &batch_outline(),
    )
    .unwrap_err();
    assert_eq!(
        message(&error),
        "INVALID_LOG_DUMP: top-level and embedded batch/session identifiers must match"
    );
}

#[test]
fn batch_log_dump_requires_consistent_metadata() {
    let mut log = batch_outline();
    log.run_index = Some(4);
    assert_eq!(
        message(&validate_batch_log_dump_payload(
            "batch-20260628-001",
            "demo-map-20260628-001-run-001",
            &log
        )
        .unwrap_err()),
        "INVALID_LOG_DUMP: batch run metadata is inconsistent"
    );
    let mut log = batch_outline();
    log.batch_mode = Some(false);
    assert_eq!(
        message(&validate_batch_log_dump_payload(
            "batch-20260628-001",
            "demo-map-20260628-001-run-001",
            &log
        )
        .unwrap_err()),
        "INVALID_LOG_DUMP: log.batch_mode must be true for batch log dumps"
    );
    let mut log = batch_outline();
    log.has_run_config = false;
    assert_eq!(
        message(&validate_batch_log_dump_payload(
            "batch-20260628-001",
            "demo-map-20260628-001-run-001",
            &log
        )
        .unwrap_err()),
        "INVALID_LOG_DUMP: log.run_config is required for batch log dumps"
    );
    assert_eq!(
        message(&validate_batch_log_dump_payload("", "x", &batch_outline()).unwrap_err()),
        "INVALID_LOG_DUMP: batch_id and session_id are required for batch log dumps"
    );
}

#[test]
fn batch_summary_requires_matching_batch_ids() {
    let target = plan_batch_summary("batch-20260628-001", "batch-20260628-001").expect("valid");
    assert_eq!(target.saved_path, "demo-logs/batch-20260628-001/batch-summary.json");
    assert_eq!(target.file_name, "batch-summary.json");
    assert_eq!(
        message(&validate_batch_summary_payload("batch-20260628-001", "").unwrap_err()),
        "INVALID_BATCH_SUMMARY: summary.batch_id is required"
    );
    assert_eq!(
        message(
            &validate_batch_summary_payload("batch-20260628-001", "batch-20260628-999")
                .unwrap_err()
        ),
        "INVALID_BATCH_SUMMARY: summary.batch_id must match top-level batch_id"
    );
    assert_eq!(
        message(&validate_batch_summary_payload(" ", "a").unwrap_err()),
        "INVALID_BATCH_SUMMARY: batch_id is required"
    );
}

#[test]
fn identifiers_keep_only_safe_characters() {
    assert_eq!(sanitize_identifier("  run/../01 ", "session_id"), Some("run01".to_string()));
    assert_eq!(sanitize_identifier("a_b-C9", "batch_id"), Some("a_b-C9".to_string()));
    assert_eq!(sanitize_identifier("   ", "batch_id"), None);
    assert_eq!(sanitize_identifier("éß!", "batch_id"), None);
}

#[test]
fn blank_and_equal_texts() {
    assert!(is_blank(""));
    assert!(is_blank(" \t\n\u{3000}"));
    assert!(!is_blank(" x "));
    assert!(str_equal("wall", "wall"));
    assert!(!str_equal("wall", "walls"));
    assert!(!str_equal("wall", "Wall"));
}

#[test]
fn batch_ids_without_safe_characters_are_refused() {
    let error = plan_batch_summary("!!!", "!!!").unwrap_err();
    assert_eq!(
        message(&error),
        "INVALID_BATCH_ID: batch_id must contain only letters, digits, hyphens, or underscores"
    );
    let mut log = batch_outline();
    log.batch_id = Some("../..".to_string());
    log.session_id = "...".to_string();
    let error = plan_batch_log_dump("../..", "...", &log).unwrap_err();
    assert_eq!(
        message(&error),
        "INVALID_BATCH_ID: batch_id must contain only letters, digits, hyphens, or underscores"
    );
}

#[test]
fn sanitizing_twice_changes_nothing() {
    let once = sanitize_identifier(" a/b..c_d ", "session_id").expect("some");
    assert_eq!(once, "abc_d");
    assert_eq!(sanitize_identifier(&once, "session_id"), Some(once.clone()));
}

#[test]
fn planned_targets_stay_within_the_log_root() {
    let target = plan_manual_log_dump(&outline("../run 7")).expect("plan");
    assert_eq!(target.directories, vec!["run7".to_string()]);
    assert!(ensure_within_root(&target).is_ok());
}

#[test]
fn targets_with_unsafe_directories_are_refused() {
    for directory in ["..", "", "a/b", "a.b"] {
        let target = LogDumpTarget {
            directories: vec!["batch".to_string(), directory.to_string()],
            file_name: "log.json",
            saved_path: "demo-logs/batch/log.json".to_string(),
        };
        let error = ensure_within_root(&target).expect_err("unsafe directory");
        assert_eq!(
            message(&error),
            "INVALID_LOG_DUMP: log path must remain inside the demo log directory"
        );
    }
}
