use vstd::prelude::*;

use crate::api::error::ApiError;
use crate::api::routes::refused;
use crate::api::text::{
    identifier_chars, is_blank, is_blank_text, is_identifier_char, is_identifier_character,
    sanitize_identifier,
};
use crate::domain::models::DomainError;

verus! {

/// What the checks of a simulation log read from one frame of its timeline.
#[derive(Clone, Copy, Debug)]
pub struct FrameOutline {
    pub timestamp_ms: Option<u64>,
    pub battery_percent: u8,
    /// Whether the frame's coverage percentage lies in 0..=100.
    pub coverage_in_range: bool,
}

/// What the checks of a simulation log read from it. The comparisons of
/// fractional values are recorded as their outcomes.
#[derive(Clone, Debug)]
pub struct LogDumpOutline {
    pub session_id: String,
    pub created_at: String,
    pub room_width: u32,
    pub room_height: u32,
    pub robot_radius: u32,
    pub grid_cols: u32,
    pub grid_rows: u32,
    /// Whether the simulation speed is at most zero.
    pub simulation_speed_at_most_zero: bool,
    /// Whether the obstacle distance threshold is at most zero.
    pub obstacle_distance_at_most_zero: bool,
    /// Whether the coverage percentage of the coverage export lies in 0..=100.
    pub coverage_in_range: bool,
    /// Whether the coverage percentage of the summary lies in 0..=100.
    pub summary_coverage_in_range: bool,
    pub frames: Vec<FrameOutline>,
    pub batch_id: Option<String>,
    pub run_index: Option<u64>,
    pub batch_total_runs: Option<u64>,
    pub batch_mode: Option<bool>,
    pub has_run_config: bool,
}

/// Where a log goes: directories below the log root, the file in the last
/// of them, and the path reported back to the client.
#[derive(Clone, Debug)]
pub struct LogDumpTarget {
    pub directories: Vec<String>,
    pub file_name: &'static str,
    pub saved_path: String,
}

/// Whether the timestamps that the frames carry never decrease.
pub open spec fn timestamps_ordered(frames: Seq<FrameOutline>) -> bool {
    forall|i: int, j: int|
        0 <= i < j < frames.len() && (#[trigger] frames[i]).timestamp_ms.is_some()
            && (#[trigger] frames[j]).timestamp_ms.is_some() ==> frames[i].timestamp_ms.unwrap()
            <= frames[j].timestamp_ms.unwrap()
}

/// Whether a frame holds an impossible battery level or coverage.
pub open spec fn frame_invalid(f: FrameOutline) -> bool {
    f.battery_percent > 100 || !f.coverage_in_range
}

/// Why a simulation log is refused, if it is: the first problem found, in
/// the order the checks run.
pub open spec fn log_dump_problem(o: LogDumpOutline) -> Option<Seq<char>> {
    if is_blank_text(o.session_id@) {
        Some("session_id is required"@)
    } else if is_blank_text(o.created_at@) || o.room_width == 0 || o.room_height == 0
        || o.robot_radius == 0 || o.grid_cols == 0 || o.grid_rows == 0
        || o.simulation_speed_at_most_zero || o.obstacle_distance_at_most_zero
        || o.frames@.len() == 0 {
        Some("log dump is missing required reconstruction or timeline data"@)
    } else if !o.coverage_in_range || !o.summary_coverage_in_range {
        Some("coverage percentages must be in the range 0..=100"@)
    } else if exists|i: int| 0 <= i < o.frames@.len() && frame_invalid(#[trigger] o.frames@[i]) {
        Some("timeline contains invalid battery or coverage values"@)
    } else if !timestamps_ordered(o.frames@) {
        Some("timeline timestamp_ms values must be non-decreasing"@)
    } else {
        None
    }
}

/// A refusal of a log with `message`.
fn invalid_log_dump(message: &str) -> (r: ApiError)
    ensures
        crate::api::routes::is_bad_request(r, "INVALID_LOG_DUMP", message@),
{
    ApiError::Domain(DomainError::bad_request("INVALID_LOG_DUMP", String::from_str(message)))
}

/// Checks that the timestamps of a timeline never decrease (frames without
/// one are skipped).
pub fn validate_timeline_timestamps(timeline: &[FrameOutline]) -> (r: Result<(), ApiError>)
    ensures
        r is Ok <==> timestamps_ordered(timeline@),
        r is Err ==> refused(
            r,
            "INVALID_LOG_DUMP",
            "timeline timestamp_ms values must be non-decreasing"@,
        ),
{
    let n = timeline.len();
    let mut last_timestamp: Option<u64> = None;
    let mut i: usize = 0;
    while i < n
        invariant
            n == timeline@.len(),
            0 <= i <= n,
            timestamps_ordered(timeline@.take(i as int)),
            last_timestamp.is_none() ==> forall|k: int|
                0 <= k < i ==> (#[trigger] timeline@[k]).timestamp_ms.is_none(),
            last_timestamp.is_some() ==> exists|k: int|
                0 <= k < i && (#[trigger] timeline@[k]).timestamp_ms == last_timestamp,
            last_timestamp.is_some() ==> forall|k: int|
                0 <= k < i && (#[trigger] timeline@[k]).timestamp_ms.is_some()
                    ==> timeline@[k].timestamp_ms.unwrap() <= last_timestamp.unwrap(),
        decreases n - i,
    {
        let frame = timeline[i];
        if let Some(timestamp_ms) = frame.timestamp_ms {
            if let Some(previous) = last_timestamp {
                if timestamp_ms < previous {
                    proof {
                        let k = choose|k: int|
                            0 <= k < i && (#[trigger] timeline@[k]).timestamp_ms
                                == last_timestamp;
                        assert(timeline@[k].timestamp_ms.is_some());
                        assert(!timestamps_ordered(timeline@));
                    }
                    return Err(
                        invalid_log_dump("timeline timestamp_ms values must be non-decreasing"),
                    );
                }
            }
            last_timestamp = Some(timestamp_ms);
        }
        proof {
            let s = timeline@.take(i + 1);
            assert forall|a: int, b: int|
                0 <= a < b < s.len() && (#[trigger] s[a]).timestamp_ms.is_some()
                    && (#[trigger] s[b]).timestamp_ms.is_some() implies s[a].timestamp_ms.unwrap()
                <= s[b].timestamp_ms.unwrap() by {
                if b < i {
                    assert(s[a] == timeline@.take(i as int)[a]);
                    assert(s[b] == timeline@.take(i as int)[b]);
                } else {
                    assert(s[a] == timeline@[a]);
                }
            }
            if last_timestamp.is_some() && frame.timestamp_ms.is_some() {
                assert(timeline@[i as int].timestamp_ms == last_timestamp);
            }
        }
        i = i + 1;
    }
    proof {
        assert(timeline@.take(n as int) =~= timeline@);
    }
    Ok(())
}

/// Checks a simulation log: identifiers, the data needed to replay it, and
/// the ranges and order of its values.
#[verifier::loop_isolation(false)]
pub fn validate_manual_log_dump_payload(payload: &LogDumpOutline) -> (r: Result<(), ApiError>)
    ensures
        log_dump_problem(*payload) is None <==> r is Ok,
        log_dump_problem(*payload) matches Some(message) ==> refused(
            r,
            "INVALID_LOG_DUMP",
            message,
        ),
{
    if is_blank(payload.session_id.as_str()) {
        return Err(invalid_log_dump("session_id is required"));
    }
    if is_blank(payload.created_at.as_str()) || payload.room_width == 0 || payload.room_height == 0
        || payload.robot_radius == 0 || payload.grid_cols == 0 || payload.grid_rows == 0
        || payload.simulation_speed_at_most_zero || payload.obstacle_distance_at_most_zero
        || payload.frames.len() == 0 {
        return Err(
            invalid_log_dump("log dump is missing required reconstruction or timeline data"),
        );
    }
    if !payload.coverage_in_range || !payload.summary_coverage_in_range {
        return Err(invalid_log_dump("coverage percentages must be in the range 0..=100"));
    }
    let n = payload.frames.len();
    let mut i: usize = 0;
    while i < n
        invariant
            n == payload.frames@.len(),
            0 <= i <= n,
            forall|k: int| 0 <= k < i ==> !frame_invalid(#[trigger] payload.frames@[k]),
        decreases n - i,
    {
        let frame = payload.frames[i];
        if frame.battery_percent > 100 || !frame.coverage_in_range {
            assert(frame_invalid(payload.frames@[i as int]));
            return Err(invalid_log_dump("timeline contains invalid battery or coverage values"));
        }
        i = i + 1;
    }
    validate_timeline_timestamps(payload.frames.as_slice())
}

/// Why a batch log is refused, if it is.
pub open spec fn batch_log_dump_problem(
    batch_id: Seq<char>,
    session_id: Seq<char>,
    log: LogDumpOutline,
) -> Option<Seq<char>> {
    if is_blank_text(batch_id) || is_blank_text(session_id) {
        Some("batch_id and session_id are required for batch log dumps"@)
    } else if log_dump_problem(log).is_some() {
        log_dump_problem(log)
    } else if log.batch_id.is_none() {
        Some("log.batch_id is required for batch log dumps"@)
    } else if log.run_index.is_none() {
        Some("log.run_index is required for batch log dumps"@)
    } else if log.batch_total_runs.is_none() {
        Some("log.batch_total_runs is required for batch log dumps"@)
    } else if log.batch_mode.is_none() {
        Some("log.batch_mode is required for batch log dumps"@)
    } else if !log.has_run_config {
        Some("log.run_config is required for batch log dumps"@)
    } else if log.batch_id.unwrap()@ != batch_id || log.session_id@ != session_id {
        Some("top-level and embedded batch/session identifiers must match"@)
    } else if !log.batch_mode.unwrap() {
        Some("log.batch_mode must be true for batch log dumps"@)
    } else if log.batch_total_runs.unwrap() == 0 || log.run_index.unwrap() == 0
        || log.run_index.unwrap() > log.batch_total_runs.unwrap() {
        Some("batch run metadata is inconsistent"@)
    } else {
        None
    }
}

/// Checks a log that belongs to a batch run: the log itself, and that its
/// batch metadata is present, consistent and matches the request.
pub fn validate_batch_log_dump_payload(
    batch_id: &str,
    session_id: &str,
    log: &LogDumpOutline,
) -> (r: Result<(), ApiError>)
    ensures
        batch_log_dump_problem(batch_id@, session_id@, *log) is None <==> r is Ok,
        batch_log_dump_problem(batch_id@, session_id@, *log) matches Some(message) ==> refused(
            r,
            "INVALID_LOG_DUMP",
            message,
        ),
{
    if is_blank(batch_id) || is_blank(session_id) {
        return Err(invalid_log_dump("batch_id and session_id are required for batch log dumps"));
    }
    validate_manual_log_dump_payload(log)?;
    let embedded_batch_id = match &log.batch_id {
        Some(b) => b,
        None => {
            return Err(invalid_log_dump("log.batch_id is required for batch log dumps"));
        },
    };
    let embedded_run_index = match log.run_index {
        Some(r) => r,
        None => {
            return Err(invalid_log_dump("log.run_index is required for batch log dumps"));
        },
    };
    let embedded_total_runs = match log.batch_total_runs {
        Some(t) => t,
        None => {
            return Err(invalid_log_dump("log.batch_total_runs is required for batch log dumps"));
        },
    };
    let batch_mode = match log.batch_mode {
        Some(m) => m,
        None => {
            return Err(invalid_log_dump("log.batch_mode is required for batch log dumps"));
        },
    };
    if !log.has_run_config {
        return Err(invalid_log_dump("log.run_config is required for batch log dumps"));
    }
    if !crate::api::text::str_equal(embedded_batch_id.as_str(), batch_id)
        || !crate::api::text::str_equal(log.session_id.as_str(), session_id) {
        return Err(invalid_log_dump("top-level and embedded batch/session identifiers must match"));
    }
    if !batch_mode {
        return Err(invalid_log_dump("log.batch_mode must be true for batch log dumps"));
    }
    if embedded_total_runs == 0 || embedded_run_index == 0 || embedded_run_index
        > embedded_total_runs {
        return Err(invalid_log_dump("batch run metadata is inconsistent"));
    }
    Ok(())
}

/// Why a batch summary is refused, if it is.
pub open spec fn batch_summary_problem(batch_id: Seq<char>, summary_batch_id: Seq<char>) -> Option<
    Seq<char>,
> {
    if is_blank_text(batch_id) {
        Some("batch_id is required"@)
    } else if is_blank_text(summary_batch_id) {
        Some("summary.batch_id is required"@)
    } else if summary_batch_id != batch_id {
        Some("summary.batch_id must match top-level batch_id"@)
    } else {
        None
    }
}

/// Checks that a batch summary names its batch, and the same batch as the
/// request.
pub fn validate_batch_summary_payload(batch_id: &str, summary_batch_id: &str) -> (r: Result<
    (),
    ApiError,
>)
    ensures
        batch_summary_problem(batch_id@, summary_batch_id@) is None <==> r is Ok,
        batch_summary_problem(batch_id@, summary_batch_id@) matches Some(message) ==> refused(
            r,
            "INVALID_BATCH_SUMMARY",
            message,
        ),
{
    if is_blank(batch_id) {
        return Err(
            ApiError::Domain(
                DomainError::bad_request(
                    "INVALID_BATCH_SUMMARY",
                    String::from_str("batch_id is required"),
                ),
            ),
        );
    }
    if is_blank(summary_batch_id) {
        return Err(
            ApiError::Domain(
                DomainError::bad_request(
                    "INVALID_BATCH_SUMMARY",
                    String::from_str("summary.batch_id is required"),
                ),
            ),
        );
    }
    if !crate::api::text::str_equal(summary_batch_id, batch_id) {
        return Err(
            ApiError::Domain(
                DomainError::bad_request(
                    "INVALID_BATCH_SUMMARY",
                    String::from_str("summary.batch_id must match top-level batch_id"),
                ),
            ),
        );
    }
    Ok(())
}

/// Whether `r` is the target with these directories (by their text), file
/// and reported path.
pub open spec fn is_target(
    r: Result<LogDumpTarget, ApiError>,
    directories: Seq<Seq<char>>,
    file_name: &'static str,
    saved_path: Seq<char>,
) -> bool {
    match r {
        Ok(t) => {
            &&& t.directories@.len() == directories.len()
            &&& forall|i: int|
                0 <= i < directories.len() ==> (#[trigger] t.directories@[i])@ == directories[i]
            &&& t.file_name == file_name
            &&& t.saved_path@ == saved_path
        },
        Err(_) => false,
    }
}

/// The refusal of an identifier that holds no usable character.
fn invalid_identifier(code: &'static str, message: &str) -> (r: ApiError)
    ensures
        crate::api::routes::is_bad_request(r, code, message@),
{
    ApiError::Domain(DomainError::bad_request(code, String::from_str(message)))
}

/// Where a simulation log goes: `<session>/log.json` below the log root,
/// reported as `demo-logs/<session>/log.json`, where `<session>` is the
/// session identifier reduced to letters, digits, `-` and `_`.
pub fn plan_manual_log_dump(payload: &LogDumpOutline) -> (r: Result<LogDumpTarget, ApiError>)
    ensures
        log_dump_problem(*payload) matches Some(message) ==> refused(
            r,
            "INVALID_LOG_DUMP",
            message,
        ),
        log_dump_problem(*payload) is None && identifier_chars(payload.session_id@).len() == 0
            ==> refused(
            r,
            "INVALID_SESSION_ID",
            "session_id must contain only letters, digits, hyphens, or underscores"@,
        ),
        log_dump_problem(*payload) is None && identifier_chars(payload.session_id@).len() > 0
            ==> is_target(
            r,
            seq![identifier_chars(payload.session_id@)],
            "log.json",
            "demo-logs/"@ + identifier_chars(payload.session_id@) + "/log.json"@,
        ),
        r is Ok ==> target_within_root(r.unwrap()),
{
    validate_manual_log_dump_payload(payload)?;
    let safe_session_id = match sanitize_identifier(payload.session_id.as_str(), "session_id") {
        Some(s) => s,
        None => {
            return Err(invalid_identifier(
                    "INVALID_SESSION_ID",
                    "session_id must contain only letters, digits, hyphens, or underscores",
                ));
        },
    };
    let saved_path = String::from_str("demo-logs/").concat(safe_session_id.as_str()).concat(
        "/log.json",
    );
    let mut directories: Vec<String> = Vec::new();
    directories.push(safe_session_id);
    proof {
        law_log_directories_are_safe(payload.session_id@);
    }
    Ok(LogDumpTarget { directories, file_name: "log.json", saved_path })
}

/// Where a batch run's log goes: `<batch>/<session>/log.json` below the log
/// root, reported as `demo-logs/<batch>/<session>/log.json`, with both
/// identifiers reduced to letters, digits, `-` and `_`.
pub fn plan_batch_log_dump(batch_id: &str, session_id: &str, log: &LogDumpOutline) -> (r: Result<
    LogDumpTarget,
    ApiError,
>)
    ensures
        batch_log_dump_problem(batch_id@, session_id@, *log) matches Some(message) ==> refused(
            r,
            "INVALID_LOG_DUMP",
            message,
        ),
        batch_log_dump_problem(batch_id@, session_id@, *log) is None && identifier_chars(
            batch_id@,
        ).len() == 0 ==> refused(
            r,
            "INVALID_BATCH_ID",
            "batch_id must contain only letters, digits, hyphens, or underscores"@,
        ),
        batch_log_dump_problem(batch_id@, session_id@, *log) is None && identifier_chars(
            batch_id@,
        ).len() > 0 && identifier_chars(session_id@).len() == 0 ==> refused(
            r,
            "INVALID_SESSION_ID",
            "session_id must contain only letters, digits, hyphens, or underscores"@,
        ),
        batch_log_dump_problem(batch_id@, session_id@, *log) is None && identifier_chars(
            batch_id@,
        ).len() > 0 && identifier_chars(session_id@).len() > 0 ==> is_target(
            r,
            seq![identifier_chars(batch_id@), identifier_chars(session_id@)],
            "log.json",
            "demo-logs/"@ + identifier_chars(batch_id@) + "/"@ + identifier_chars(session_id@)
                + "/log.json"@,
        ),
        r is Ok ==> target_within_root(r.unwrap()),
{
    validate_batch_log_dump_payload(batch_id, session_id, log)?;
    let safe_batch_id = match sanitize_identifier(batch_id, "batch_id") {
        Some(s) => s,
        None => {
            return Err(invalid_identifier(
                    "INVALID_BATCH_ID",
                    "batch_id must contain only letters, digits, hyphens, or underscores",
                ));
        },
    };
    let safe_session_id = match sanitize_identifier(session_id, "session_id") {
        Some(s) => s,
        None => {
            return Err(invalid_identifier(
                    "INVALID_SESSION_ID",
                    "session_id must contain only letters, digits, hyphens, or underscores",
                ));
        },
    };
    let saved_path = String::from_str("demo-logs/").concat(safe_batch_id.as_str()).concat(
        "/",
    ).concat(safe_session_id.as_str()).concat("/log.json");
    let mut directories: Vec<String> = Vec::new();
    directories.push(safe_batch_id);
    directories.push(safe_session_id);
    proof {
        law_log_directories_are_safe(batch_id@);
        law_log_directories_are_safe(session_id@);
    }
    Ok(LogDumpTarget { directories, file_name: "log.json", saved_path })
}

/// Where a batch summary goes: `<batch>/batch-summary.json` below the log
/// root, reported as `demo-logs/<batch>/batch-summary.json`.
pub fn plan_batch_summary(batch_id: &str, summary_batch_id: &str) -> (r: Result<
    LogDumpTarget,
    ApiError,
>)
    ensures
        batch_summary_problem(batch_id@, summary_batch_id@) matches Some(message) ==> refused(
            r,
            "INVALID_BATCH_SUMMARY",
            message,
        ),
        batch_summary_problem(batch_id@, summary_batch_id@) is None && identifier_chars(
            batch_id@,
        ).len() == 0 ==> refused(
            r,
            "INVALID_BATCH_ID",
            "batch_id must contain only letters, digits, hyphens, or underscores"@,
        ),
        batch_summary_problem(batch_id@, summary_batch_id@) is None && identifier_chars(
            batch_id@,
        ).len() > 0 ==> is_target(
            r,
            seq![identifier_chars(batch_id@)],
            "batch-summary.json",
            "demo-logs/"@ + identifier_chars(batch_id@) + "/batch-summary.json"@,
        ),
        r is Ok ==> target_within_root(r.unwrap()),
{
    validate_batch_summary_payload(batch_id, summary_batch_id)?;
    let safe_batch_id = match sanitize_identifier(batch_id, "batch_id") {
        Some(s) => s,
        None => {
            return Err(invalid_identifier(
                    "INVALID_BATCH_ID",
                    "batch_id must contain only letters, digits, hyphens, or underscores",
                ));
        },
    };
    let saved_path = String::from_str("demo-logs/").concat(safe_batch_id.as_str()).concat(
        "/batch-summary.json",
    );
    let mut directories: Vec<String> = Vec::new();
    directories.push(safe_batch_id);
    proof {
        law_log_directories_are_safe(batch_id@);
    }
    Ok(LogDumpTarget { directories, file_name: "batch-summary.json", saved_path })
}

/// Whether a directory name is safe below the log root: not empty, and made
/// of ASCII letters, digits, `-` and `_` only, so that it holds no path
/// separator and cannot be `.` or `..`.
pub open spec fn safe_segment(segment: Seq<char>) -> bool {
    &&& segment.len() > 0
    &&& forall|i: int| 0 <= i < segment.len() ==> is_identifier_char(#[trigger] segment[i])
}

/// Every directory that a log is placed in is a safe name, whatever the
/// identifiers in the request: a log never leaves the log root.
pub proof fn law_log_directories_are_safe(raw: Seq<char>)
    requires
        identifier_chars(raw).len() > 0,
    ensures
        safe_segment(identifier_chars(raw)),
        !identifier_chars(raw).contains('/'),
        !identifier_chars(raw).contains('\\'),
        !identifier_chars(raw).contains('.'),
{
    crate::api::text::law_identifier_keeps_only_safe_chars(raw);
}

/// Whether every directory of `t` is a safe name, so that the file it names
/// stays below the log root.
pub open spec fn target_within_root(t: LogDumpTarget) -> bool {
    forall|k: int| 0 <= k < t.directories@.len() ==> safe_segment((#[trigger] t.directories@[k])@)
}

/// Whether `segment` is a safe directory name.
fn is_safe_segment(segment: &str) -> (r: bool)
    ensures
        r == safe_segment(segment@),
{
    let n = segment.unicode_len();
    if n == 0 {
        return false;
    }
    let mut i: usize = 0;
    while i < n
        invariant
            n == segment@.len(),
            0 <= i <= n,
            forall|k: int| 0 <= k < i ==> is_identifier_char(#[trigger] segment@[k]),
        decreases n - i,
    {
        let c = segment.get_char(i);
        if !is_identifier_character(c) {
            return false;
        }
        i = i + 1;
    }
    true
}

/// Checks that a log stays below the log root before it is written: every
/// directory must be a safe name, else the log is refused with
/// `INVALID_LOG_DUMP`.
pub fn ensure_within_root(target: &LogDumpTarget) -> (r: Result<(), ApiError>)
    ensures
        target_within_root(*target) ==> r is Ok,
        !target_within_root(*target) ==> refused(
            r,
            "INVALID_LOG_DUMP",
            "log path must remain inside the demo log directory"@,
        ),
{
    let mut k: usize = 0;
    while k < target.directories.len()
        invariant
            0 <= k <= target.directories@.len(),
            forall|j: int| 0 <= j < k ==> safe_segment((#[trigger] target.directories@[j])@),
        decreases target.directories@.len() - k,
    {
        if !is_safe_segment(target.directories[k].as_str()) {
            return Err(invalid_log_dump("log path must remain inside the demo log directory"));
        }
        k = k + 1;
    }
    Ok(())
}

/// A simulation log is accepted exactly when it names its session and
/// creation time, has a positive room, robot radius and grid, a positive
/// speed and obstacle distance, at least one frame, coverages within
/// 0..=100, frames with a battery level of at most 100 and a coverage within
/// range, and timestamps that never decrease along the timeline (frames
/// without one aside).
pub proof fn law_log_dump_acceptance(o: LogDumpOutline)
    ensures
        log_dump_problem(o).is_none() <==> {
            &&& !is_blank_text(o.session_id@)
            &&& !is_blank_text(o.created_at@)
            &&& o.room_width > 0 && o.room_height > 0 && o.robot_radius > 0
            &&& o.grid_cols > 0 && o.grid_rows > 0
            &&& !o.simulation_speed_at_most_zero && !o.obstacle_distance_at_most_zero
            &&& o.frames@.len() > 0
            &&& o.coverage_in_range && o.summary_coverage_in_range
            &&& forall|i: int|
                0 <= i < o.frames@.len() ==> (#[trigger] o.frames@[i]).battery_percent <= 100
                    && o.frames@[i].coverage_in_range
            &&& forall|i: int, j: int|
                0 <= i < j < o.frames@.len() && (#[trigger] o.frames@[i]).timestamp_ms.is_some()
                    && (#[trigger] o.frames@[j]).timestamp_ms.is_some()
                    ==> o.frames@[i].timestamp_ms.unwrap() <= o.frames@[j].timestamp_ms.unwrap()
        },
{
}

/// A log whose timeline goes back in time (a frame stamped later than a
/// frame after it) is refused, as a log on its own and as part of any batch;
/// when nothing else is wrong with it, the refusal says that the timestamps
/// must not decrease.
pub proof fn law_out_of_order_timeline_is_refused(
    o: LogDumpOutline,
    i: int,
    j: int,
    batch_id: Seq<char>,
    session_id: Seq<char>,
)
    requires
        0 <= i < j < o.frames@.len(),
        o.frames@[i].timestamp_ms.is_some(),
        o.frames@[j].timestamp_ms.is_some(),
        o.frames@[i].timestamp_ms.unwrap() > o.frames@[j].timestamp_ms.unwrap(),
    ensures
        log_dump_problem(o).is_some(),
        batch_log_dump_problem(batch_id, session_id, o).is_some(),
        ({
            &&& !is_blank_text(o.session_id@)
            &&& !is_blank_text(o.created_at@)
            &&& o.room_width > 0 && o.room_height > 0 && o.robot_radius > 0
            &&& o.grid_cols > 0 && o.grid_rows > 0
            &&& !o.simulation_speed_at_most_zero && !o.obstacle_distance_at_most_zero
            &&& o.coverage_in_range && o.summary_coverage_in_range
            &&& forall|k: int|
                0 <= k < o.frames@.len() ==> (#[trigger] o.frames@[k]).battery_percent <= 100
                    && o.frames@[k].coverage_in_range
        }) ==> log_dump_problem(o) == Some("timeline timestamp_ms values must be non-decreasing"@),
{
    law_log_dump_acceptance(o);
    assert(!timestamps_ordered(o.frames@));
}

/// A batch log is accepted exactly when the batch and session are named, the
/// log is accepted on its own, it carries the same batch and session, a run
/// index, a total of runs and the run configuration, is marked as a batch
/// run, and its run index lies between 1 and the total.
pub proof fn law_batch_log_dump_acceptance(batch_id: Seq<char>, session_id: Seq<char>, log: LogDumpOutline)
    ensures
        batch_log_dump_problem(batch_id, session_id, log).is_none() <==> {
            &&& !is_blank_text(batch_id) && !is_blank_text(session_id)
            &&& log_dump_problem(log).is_none()
            &&& log.batch_id.is_some() && log.batch_id.unwrap()@ == batch_id
            &&& log.session_id@ == session_id
            &&& log.batch_mode == Some(true)
            &&& log.has_run_config
            &&& log.run_index.is_some() && log.batch_total_runs.is_some()
            &&& 1 <= log.run_index.unwrap() <= log.batch_total_runs.unwrap()
        },
{
}

/// A batch summary is accepted exactly when it names the same, non-blank,
/// batch as the request.
pub proof fn law_batch_summary_acceptance(batch_id: Seq<char>, summary_batch_id: Seq<char>)
    ensures
        batch_summary_problem(batch_id, summary_batch_id).is_none() <==> (!is_blank_text(batch_id)
            && summary_batch_id == batch_id),
{
}

/// Which refusal a simulation log gets: a blank session first, then missing
/// replay data (creation time, room, radius, grid, speed, obstacle distance
/// or frames), then a coverage out of range, then a frame with an impossible
/// battery level or coverage.
pub proof fn law_log_dump_refusal_messages(o: LogDumpOutline)
    ensures
        ({
            let has_data = !is_blank_text(o.created_at@) && o.room_width > 0 && o.room_height > 0
                && o.robot_radius > 0 && o.grid_cols > 0 && o.grid_rows > 0
                && !o.simulation_speed_at_most_zero && !o.obstacle_distance_at_most_zero
                && o.frames@.len() > 0;
            let covered = o.coverage_in_range && o.summary_coverage_in_range;
            &&& is_blank_text(o.session_id@) ==> log_dump_problem(o) == Some(
                "session_id is required"@,
            )
            &&& !is_blank_text(o.session_id@) && !has_data ==> log_dump_problem(o) == Some(
                "log dump is missing required reconstruction or timeline data"@,
            )
            &&& !is_blank_text(o.session_id@) && has_data && !covered ==> log_dump_problem(o)
                == Some("coverage percentages must be in the range 0..=100"@)
            &&& forall|i: int|
                0 <= i < o.frames@.len() && ((#[trigger] o.frames@[i]).battery_percent > 100
                    || !o.frames@[i].coverage_in_range) && !is_blank_text(o.session_id@)
                    && has_data && covered ==> log_dump_problem(o) == Some(
                    "timeline contains invalid battery or coverage values"@,
                )
        }),
{
}

/// Which refusal a batch log gets: blank batch or session identifiers first,
/// then whatever refuses the log on its own, then missing batch metadata,
/// identifiers that differ from the request, a log not marked as a batch run,
/// and a run index outside 1 to the total.
pub proof fn law_batch_log_dump_refusal_messages(
    batch_id: Seq<char>,
    session_id: Seq<char>,
    log: LogDumpOutline,
)
    ensures
        ({
            let named = !is_blank_text(batch_id) && !is_blank_text(session_id);
            let complete = log.batch_id.is_some() && log.run_index.is_some()
                && log.batch_total_runs.is_some() && log.batch_mode.is_some() && log.has_run_config;
            let matching = complete && log.batch_id.unwrap()@ == batch_id && log.session_id@
                == session_id;
            &&& !named ==> batch_log_dump_problem(batch_id, session_id, log) == Some(
                "batch_id and session_id are required for batch log dumps"@,
            )
            &&& named && log_dump_problem(log).is_some() ==> batch_log_dump_problem(
                batch_id,
                session_id,
                log,
            ) == log_dump_problem(log)
            &&& named && log_dump_problem(log).is_none() && complete && !matching
                ==> batch_log_dump_problem(batch_id, session_id, log) == Some(
                "top-level and embedded batch/session identifiers must match"@,
            )
            &&& named && log_dump_problem(log).is_none() && matching && log.batch_mode == Some(
                false,
            ) ==> batch_log_dump_problem(batch_id, session_id, log) == Some(
                "log.batch_mode must be true for batch log dumps"@,
            )
            &&& named && log_dump_problem(log).is_none() && matching && log.batch_mode == Some(
                true,
            ) && !(1 <= log.run_index.unwrap() <= log.batch_total_runs.unwrap())
                ==> batch_log_dump_problem(batch_id, session_id, log) == Some(
                "batch run metadata is inconsistent"@,
            )
        }),
{
}

} // verus!
