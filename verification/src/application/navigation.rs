use vstd::prelude::*;

use crate::domain::models::{AutoNavigationPhase, ContactType, SensorSnapshot, WallSide};

verus! {

pub const ROOM_CROSSING_SPEED: i16 = 36;
pub const WALL_FOLLOW_SPEED: i16 = 30;
pub const BACKUP_SPEED: i16 = -24;
pub const TURN_SPEED: i16 = 22;
pub const CLEARANCE_TURN_SPEED: i16 = 6;
pub const ESCAPE_FORWARD_SPEED: i16 = 34;
pub const ANTI_LOOP_FORWARD_SPEED: i16 = 38;

pub const BACKUP_MS: u64 = 900;
pub const WALL_ALIGN_MS: u64 = 900;
pub const WALL_RELEASE_MS: u64 = 900;
pub const OBSTACLE_TURN_MS: u64 = 1000;
pub const OBSTACLE_ESCAPE_FORWARD_MS: u64 = 2500;
pub const ANTI_LOOP_BACKUP_MS: u64 = 1200;
pub const ANTI_LOOP_TURN_MS: u64 = 1500;
pub const ANTI_LOOP_FORWARD_MS: u64 = 3500;

pub const CLEARANCE_BACKUP_MS: u64 = 900;
pub const CLEARANCE_EXIT_FORWARD_MS: u64 = 1200;
pub const CLEAR_SENSOR_TICKS_REQUIRED: u8 = 2;

pub const WALL_BACKUP_MS: u64 = 900;
pub const WALL_TURN_AWAY_BASE_MIN_MS: u64 = 5000;
pub const WALL_TURN_AWAY_EXTRA_MS: u64 = 1000;
pub const WALL_TURN_AWAY_MAX_MIN_MS: u64 = 8000;
pub const WALL_STREAK_RESET_MS: u64 = 12000;
pub const WALL_EXIT_FORWARD_BASE_MS: u64 = 1600;
pub const WALL_EXIT_FORWARD_EXTRA_MS: u64 = 500;
pub const WALL_EXIT_FORWARD_MAX_MS: u64 = 2600;
pub const WALL_CLEAR_SENSOR_TICKS_REQUIRED: u8 = 2;

pub const ANTI_LOOP_CONTACT_WINDOW_MS: u64 = 8000;

/// The state of the autonomous navigation pattern, as mathematical values.
#[verifier::ext_equal]
pub struct NavModel {
    pub phase: AutoNavigationPhase,
    pub phase_started_ms: u64,
    pub escape_right: bool,
    pub clearance_turn_right: bool,
    pub wall_turn_right: bool,
    pub clear_sensor_ticks: u8,
    pub wall_clear_sensor_ticks: u8,
    pub wall_recovery_count: u8,
    pub wall_contact_streak: u8,
    pub recovery_attempts: u8,
    pub recent_contact_times: Seq<u64>,
    pub last_progress_ms: u64,
    pub contact_type: Option<ContactType>,
    pub wall_side: Option<WallSide>,
    pub last_contact_type: Option<ContactType>,
    pub last_wall_side: Option<WallSide>,
    pub last_wall_recovery_side: Option<WallSide>,
}

/// `x + 1`, stopping at 255.
pub open spec fn inc_u8(x: u8) -> u8 {
    if x < 255 {
        (x + 1) as u8
    } else {
        255
    }
}

/// The navigation state before anything has happened: idle, with the phase
/// clock at zero.
pub open spec fn initial_nav() -> NavModel {
    NavModel {
        phase: AutoNavigationPhase::Idle,
        phase_started_ms: 0,
        escape_right: true,
        clearance_turn_right: true,
        wall_turn_right: true,
        clear_sensor_ticks: 0,
        wall_clear_sensor_ticks: 0,
        wall_recovery_count: 0,
        wall_contact_streak: 0,
        recovery_attempts: 0,
        recent_contact_times: Seq::empty(),
        last_progress_ms: 0,
        contact_type: None,
        wall_side: None,
        last_contact_type: None,
        last_wall_side: None,
        last_wall_recovery_side: None,
    }
}

/// The navigation state after a reset at time `now`: idle, with every
/// counter cleared, the turn preferences back to the right, and the phase
/// clock started at `now`.
pub open spec fn reset_nav(now: u64) -> NavModel {
    NavModel { phase_started_ms: now, last_progress_ms: now, ..initial_nav() }
}

/// Enters `phase` at time `now`.
pub open spec fn enter_phase(m: NavModel, phase: AutoNavigationPhase, now: u64) -> NavModel {
    NavModel { phase, phase_started_ms: now, ..m }
}

/// How long the current phase has lasted at `now` (zero if `now` is earlier
/// than its start).
pub open spec fn elapsed_ms(m: NavModel, now: u64) -> u64 {
    now.saturating_sub(m.phase_started_ms)
}

/// Whether a contact time is still inside the anti-loop window at `now`.
pub open spec fn contact_is_recent(timestamp: u64, now: u64) -> bool {
    now.saturating_sub(timestamp) <= ANTI_LOOP_CONTACT_WINDOW_MS
}

/// The contact times that are still recent at `now`, in their order.
pub open spec fn recent_contacts(times: Seq<u64>, now: u64) -> Seq<u64> {
    times.filter(recent_at(now))
}

/// The predicate "still recent at `now`" on contact times.
pub open spec fn recent_at(now: u64) -> spec_fn(u64) -> bool {
    |t: u64| contact_is_recent(t, now)
}

/// Forgets the contacts that are no longer recent at `now`.
pub open spec fn prune_nav(m: NavModel, now: u64) -> NavModel {
    NavModel { recent_contact_times: recent_contacts(m.recent_contact_times, now), ..m }
}

/// Whether the bumper or the proximity sensor reports a contact.
pub open spec fn touching(s: SensorSnapshot) -> bool {
    s.proximity_contact || s.bumper_pressed
}

/// Whether a contact is with a wall.
pub open spec fn wall_contact(s: SensorSnapshot) -> bool {
    s.wall_side.is_some() || s.contact_type == Some(ContactType::Wall)
}

/// Whether nothing is touched, detected or blocking the way forward.
pub open spec fn path_clear(s: SensorSnapshot) -> bool {
    !touching(s) && !s.obstacle_detected && !s.forward_clearance_blocked
}

/// The minimum time to turn away from a wall: 5 s, plus 1 s for each wall
/// contact in the current streak after the first, at most 8 s.
pub open spec fn wall_turn_away_min_ms(m: NavModel) -> u64 {
    let extra = (if m.wall_contact_streak > 0 { m.wall_contact_streak - 1 } else { 0 }) * 1000;
    if WALL_TURN_AWAY_BASE_MIN_MS + extra <= WALL_TURN_AWAY_MAX_MIN_MS {
        (WALL_TURN_AWAY_BASE_MIN_MS + extra) as u64
    } else {
        WALL_TURN_AWAY_MAX_MIN_MS
    }
}

/// The time to drive forward after turning away from a wall: 1.6 s, plus
/// 0.5 s for each repeated contact with the same wall and for each wall
/// contact in the current streak after the first, at most 2.6 s.
pub open spec fn wall_exit_forward_ms(m: NavModel) -> u64 {
    let repeated = m.wall_recovery_count * 500;
    let streak = (if m.wall_contact_streak > 0 { m.wall_contact_streak - 1 } else { 0 }) * 500;
    if WALL_EXIT_FORWARD_BASE_MS + repeated + streak <= WALL_EXIT_FORWARD_MAX_MS {
        (WALL_EXIT_FORWARD_BASE_MS + repeated + streak) as u64
    } else {
        WALL_EXIT_FORWARD_MAX_MS
    }
}

/// The turn direction used to clear an obstacle: away from a side wall, and
/// otherwise the alternating fallback.
pub open spec fn clearance_turn_choice(
    wall_side: Option<WallSide>,
    contact_type: Option<ContactType>,
    fallback_turn_right: bool,
) -> bool {
    match wall_side {
        Some(WallSide::Right) => false,
        Some(WallSide::Left) => true,
        _ => fallback_turn_right,
    }
}

/// The turn direction used to recover from a wall: away from a side wall,
/// otherwise the alternating fallback; after two or more repeated contacts
/// with the same wall the direction is flipped.
pub open spec fn wall_recovery_turn_choice(
    wall_side: Option<WallSide>,
    fallback_turn_right: bool,
    repeated_same_wall_count: u8,
) -> bool {
    let preferred = match wall_side {
        Some(WallSide::Right) => false,
        Some(WallSide::Left) => true,
        _ => fallback_turn_right,
    };
    if repeated_same_wall_count >= 2 {
        !preferred
    } else {
        preferred
    }
}

/// Remembers a contact at `now`: its time, the wall side, and its type (a
/// wall whenever a wall side is known, else the reported type or unknown).
pub open spec fn record_contact_nav(m: NavModel, s: SensorSnapshot, now: u64) -> NavModel {
    NavModel {
        recent_contact_times: recent_contacts(m.recent_contact_times.push(now), now),
        wall_side: s.wall_side,
        contact_type: Some(
            if s.wall_side.is_some() {
                ContactType::Wall
            } else {
                match s.contact_type {
                    Some(c) => c,
                    None => ContactType::Unknown,
                }
            },
        ),
        ..m
    }
}

/// Starts recovering from a wall contact: back up, then turn away.
pub open spec fn begin_wall_recovery_nav(m: NavModel, s: SensorSnapshot, now: u64) -> NavModel {
    let m1 = record_contact_nav(m, s, now);
    let same_wall = m1.last_wall_recovery_side == m1.wall_side;
    let count = if same_wall { inc_u8(m1.wall_recovery_count) } else { 0 };
    let last_side = if same_wall { m1.last_wall_recovery_side } else { m1.wall_side };
    enter_phase(
        NavModel {
            wall_contact_streak: inc_u8(m1.wall_contact_streak),
            wall_recovery_count: count,
            last_wall_recovery_side: last_side,
            wall_turn_right: wall_recovery_turn_choice(m1.wall_side, m1.escape_right, count),
            escape_right: !m1.escape_right,
            wall_clear_sensor_ticks: 0,
            ..m1
        },
        AutoNavigationPhase::WallBackup,
        now,
    )
}

/// Starts escaping from a non-wall contact: back up, then turn until clear.
pub open spec fn begin_clearance_escape_nav(m: NavModel, s: SensorSnapshot, now: u64) -> NavModel {
    let m1 = record_contact_nav(m, s, now);
    enter_phase(
        NavModel {
            wall_contact_streak: 0,
            wall_recovery_count: 0,
            last_wall_recovery_side: None,
            last_contact_type: m1.contact_type,
            last_wall_side: m1.wall_side,
            clearance_turn_right: clearance_turn_choice(
                m1.wall_side,
                m1.contact_type,
                m1.escape_right,
            ),
            escape_right: !m1.escape_right,
            clear_sensor_ticks: 0,
            ..m1
        },
        AutoNavigationPhase::ClearanceBackup,
        now,
    )
}

/// Starts the recovery that suits the contact.
pub open spec fn begin_contact_recovery_nav(m: NavModel, s: SensorSnapshot, now: u64) -> NavModel {
    if wall_contact(s) {
        begin_wall_recovery_nav(m, s, now)
    } else {
        begin_clearance_escape_nav(m, s, now)
    }
}

/// Back to crossing the room once a recovery has run its course.
pub open spec fn resume_crossing(m: NavModel, now: u64) -> NavModel {
    enter_phase(
        NavModel { recovery_attempts: 0, contact_type: None, wall_side: None, ..m },
        AutoNavigationPhase::RoomCrossing,
        now,
    )
}

/// Notes forward progress at `now`.
pub open spec fn progress(m: NavModel, now: u64) -> NavModel {
    NavModel { last_progress_ms: now, ..m }
}

/// One step of the navigation pattern at time `now` with sensor reading `s`,
/// after the stale contacts have been forgotten.
pub open spec fn nav_phase_step(m: NavModel, s: SensorSnapshot, now: u64) -> NavModel {
    let elapsed = elapsed_ms(m, now);
    match m.phase {
        AutoNavigationPhase::Idle => enter_phase(m, AutoNavigationPhase::RoomCrossing, now),
        AutoNavigationPhase::RoomCrossing => {
            if touching(s) {
                begin_contact_recovery_nav(m, s, now)
            } else if elapsed >= WALL_STREAK_RESET_MS {
                NavModel {
                    wall_contact_streak: 0,
                    wall_recovery_count: 0,
                    last_wall_recovery_side: None,
                    ..m
                }
            } else {
                m
            }
        },
        AutoNavigationPhase::ClearanceBackup => {
            if elapsed >= CLEARANCE_BACKUP_MS {
                enter_phase(
                    NavModel { clear_sensor_ticks: 0, ..m },
                    AutoNavigationPhase::ClearanceTurnClear,
                    now,
                )
            } else {
                m
            }
        },
        AutoNavigationPhase::CornerBackup => enter_phase(
            m,
            AutoNavigationPhase::ClearanceBackup,
            now,
        ),
        AutoNavigationPhase::ClearanceTurnClear => {
            let ticks = if path_clear(s) { inc_u8(m.clear_sensor_ticks) } else { 0 };
            let m1 = NavModel { clear_sensor_ticks: ticks, ..m };
            if ticks >= CLEAR_SENSOR_TICKS_REQUIRED {
                enter_phase(m1, AutoNavigationPhase::ClearanceExitForward, now)
            } else {
                m1
            }
        },
        AutoNavigationPhase::CornerTurnClear => enter_phase(
            m,
            AutoNavigationPhase::ClearanceTurnClear,
            now,
        ),
        AutoNavigationPhase::ClearanceExitForward => {
            if touching(s) {
                begin_contact_recovery_nav(m, s, now)
            } else if s.obstacle_detected || s.forward_clearance_blocked {
                enter_phase(
                    NavModel { clear_sensor_ticks: 0, ..m },
                    AutoNavigationPhase::ClearanceTurnClear,
                    now,
                )
            } else if elapsed >= CLEARANCE_EXIT_FORWARD_MS {
                resume_crossing(
                    NavModel { last_contact_type: None, last_wall_side: None, ..m },
                    now,
                )
            } else {
                progress(m, now)
            }
        },
        AutoNavigationPhase::CornerExitForward => enter_phase(
            m,
            AutoNavigationPhase::ClearanceExitForward,
            now,
        ),
        AutoNavigationPhase::WallBackup => {
            if elapsed >= WALL_BACKUP_MS {
                enter_phase(
                    NavModel { wall_clear_sensor_ticks: 0, ..m },
                    AutoNavigationPhase::WallTurnAway,
                    now,
                )
            } else {
                m
            }
        },
        AutoNavigationPhase::WallTurnAway => {
            let ticks = if elapsed >= wall_turn_away_min_ms(m) && path_clear(s) {
                inc_u8(m.wall_clear_sensor_ticks)
            } else {
                0
            };
            let m1 = NavModel { wall_clear_sensor_ticks: ticks, ..m };
            if ticks >= WALL_CLEAR_SENSOR_TICKS_REQUIRED {
                enter_phase(m1, AutoNavigationPhase::WallExitForward, now)
            } else {
                m1
            }
        },
        AutoNavigationPhase::WallExitForward => {
            if touching(s) {
                begin_contact_recovery_nav(m, s, now)
            } else if s.obstacle_detected || s.forward_clearance_blocked {
                enter_phase(
                    NavModel { wall_clear_sensor_ticks: 0, ..m },
                    AutoNavigationPhase::WallTurnAway,
                    now,
                )
            } else if elapsed >= wall_exit_forward_ms(m) {
                resume_crossing(m, now)
            } else {
                progress(m, now)
            }
        },
        AutoNavigationPhase::ContactBackup => {
            if elapsed >= BACKUP_MS {
                if m.contact_type == Some(ContactType::Wall) {
                    enter_phase(m, AutoNavigationPhase::WallAlign, now)
                } else {
                    enter_phase(m, AutoNavigationPhase::ObstacleTurnAway, now)
                }
            } else {
                m
            }
        },
        AutoNavigationPhase::WallAlign => {
            if elapsed >= WALL_ALIGN_MS {
                enter_phase(
                    NavModel { recovery_attempts: 0, ..m },
                    AutoNavigationPhase::WallFollow,
                    now,
                )
            } else {
                m
            }
        },
        AutoNavigationPhase::WallFollow => {
            if touching(s) {
                begin_contact_recovery_nav(m, s, now)
            } else {
                progress(m, now)
            }
        },
        AutoNavigationPhase::WallRelease => {
            if touching(s) {
                begin_contact_recovery_nav(m, s, now)
            } else if elapsed >= WALL_RELEASE_MS {
                resume_crossing(m, now)
            } else {
                m
            }
        },
        AutoNavigationPhase::ObstacleBackup => {
            if elapsed >= BACKUP_MS {
                enter_phase(m, AutoNavigationPhase::ObstacleTurnAway, now)
            } else {
                m
            }
        },
        AutoNavigationPhase::ObstacleTurnAway => {
            if elapsed >= OBSTACLE_TURN_MS {
                enter_phase(m, AutoNavigationPhase::ObstacleEscapeForward, now)
            } else {
                m
            }
        },
        AutoNavigationPhase::ObstacleEscapeForward => {
            if touching(s) {
                begin_contact_recovery_nav(m, s, now)
            } else if elapsed >= OBSTACLE_ESCAPE_FORWARD_MS {
                resume_crossing(m, now)
            } else {
                progress(m, now)
            }
        },
        AutoNavigationPhase::AntiLoopBackup => {
            if elapsed >= ANTI_LOOP_BACKUP_MS {
                enter_phase(m, AutoNavigationPhase::AntiLoopTurn, now)
            } else {
                m
            }
        },
        AutoNavigationPhase::AntiLoopTurn => {
            if elapsed >= ANTI_LOOP_TURN_MS {
                enter_phase(m, AutoNavigationPhase::AntiLoopForward, now)
            } else {
                m
            }
        },
        AutoNavigationPhase::AntiLoopForward => {
            if touching(s) {
                begin_contact_recovery_nav(m, s, now)
            } else if elapsed >= ANTI_LOOP_FORWARD_MS {
                resume_crossing(m, now)
            } else {
                progress(m, now)
            }
        },
    }
}

/// One step of the navigation pattern: forget stale contacts, then advance
/// the phase.
pub open spec fn nav_step(m: NavModel, s: SensorSnapshot, now: u64) -> NavModel {
    nav_phase_step(prune_nav(m, now), s, now)
}

/// Wheel speeds for an in-place turn at `speed`, to the right or the left.
pub open spec fn spin(turn_right: bool, speed: i16) -> (i16, i16) {
    if turn_right {
        (speed, (-speed) as i16)
    } else {
        ((-speed) as i16, speed)
    }
}

/// The (left, right) wheel speeds that a navigation phase drives.
pub open spec fn nav_motion(m: NavModel) -> (i16, i16) {
    match m.phase {
        AutoNavigationPhase::Idle => (0i16, 0i16),
        AutoNavigationPhase::RoomCrossing
        | AutoNavigationPhase::ClearanceExitForward
        | AutoNavigationPhase::WallExitForward
        | AutoNavigationPhase::CornerExitForward => (ROOM_CROSSING_SPEED, ROOM_CROSSING_SPEED),
        AutoNavigationPhase::ClearanceBackup
        | AutoNavigationPhase::CornerBackup
        | AutoNavigationPhase::WallBackup
        | AutoNavigationPhase::ContactBackup
        | AutoNavigationPhase::ObstacleBackup
        | AutoNavigationPhase::AntiLoopBackup => (BACKUP_SPEED, BACKUP_SPEED),
        AutoNavigationPhase::ClearanceTurnClear
        | AutoNavigationPhase::CornerTurnClear => spin(m.clearance_turn_right, CLEARANCE_TURN_SPEED),
        AutoNavigationPhase::WallTurnAway => spin(m.wall_turn_right, CLEARANCE_TURN_SPEED),
        AutoNavigationPhase::WallAlign
        | AutoNavigationPhase::ObstacleTurnAway => spin(m.escape_right, TURN_SPEED),
        AutoNavigationPhase::WallRelease => spin(!m.escape_right, TURN_SPEED),
        AutoNavigationPhase::WallFollow => (WALL_FOLLOW_SPEED, WALL_FOLLOW_SPEED),
        AutoNavigationPhase::ObstacleEscapeForward => (ESCAPE_FORWARD_SPEED, ESCAPE_FORWARD_SPEED),
        AutoNavigationPhase::AntiLoopTurn => spin(m.escape_right, CLEARANCE_TURN_SPEED),
        AutoNavigationPhase::AntiLoopForward => (ANTI_LOOP_FORWARD_SPEED, ANTI_LOOP_FORWARD_SPEED),
    }
}


/// Whether the bumper or the proximity sensor reports a contact.
pub fn has_proximity_contact(sensors: &SensorSnapshot) -> (r: bool)
    ensures
        r == touching(*sensors),
{
    sensors.proximity_contact || sensors.bumper_pressed
}

/// Whether the contact is with a wall.
pub fn is_wall_contact(sensors: &SensorSnapshot) -> (r: bool)
    ensures
        r == wall_contact(*sensors),
{
    sensors.wall_side.is_some() || sensors.contact_type == Some(ContactType::Wall)
}

/// Whether the way out of a wall recovery is clear.
pub fn wall_recovery_path_is_clear(sensors: &SensorSnapshot) -> (r: bool)
    ensures
        r == path_clear(*sensors),
{
    !has_proximity_contact(sensors) && !sensors.obstacle_detected
        && !sensors.forward_clearance_blocked
}

/// Whether the way out of an obstacle escape is clear.
pub fn clearance_path_is_clear(sensors: &SensorSnapshot) -> (r: bool)
    ensures
        r == path_clear(*sensors),
{
    !has_proximity_contact(sensors) && !sensors.obstacle_detected
        && !sensors.forward_clearance_blocked
}

/// The turn direction used to clear an obstacle.
pub fn choose_clearance_turn_right(
    wall_side: Option<WallSide>,
    contact_type: Option<ContactType>,
    fallback_turn_right: bool,
) -> (r: bool)
    ensures
        r == clearance_turn_choice(wall_side, contact_type, fallback_turn_right),
{
    match wall_side {
        Some(WallSide::Right) => false,
        Some(WallSide::Left) => true,
        Some(WallSide::Top) | Some(WallSide::Bottom) => fallback_turn_right,
        None => match contact_type {
            Some(ContactType::Wall) => fallback_turn_right,
            Some(ContactType::Obstacle) => fallback_turn_right,
            Some(ContactType::Unknown) | None => fallback_turn_right,
        },
    }
}

/// The turn direction used to recover from a wall.
pub fn choose_wall_recovery_turn_right(
    wall_side: Option<WallSide>,
    fallback_turn_right: bool,
    repeated_same_wall_count: u8,
) -> (r: bool)
    ensures
        r == wall_recovery_turn_choice(wall_side, fallback_turn_right, repeated_same_wall_count),
{
    let preferred = match wall_side {
        Some(WallSide::Right) => false,
        Some(WallSide::Left) => true,
        Some(WallSide::Top) | Some(WallSide::Bottom) | None => fallback_turn_right,
    };
    if repeated_same_wall_count >= 2 {
        !preferred
    } else {
        preferred
    }
}

/// Wheel speeds for an in-place turn at the ordinary turning speed.
pub fn turn_speeds(turn_right: bool) -> (r: (i16, i16))
    ensures
        r == spin(turn_right, TURN_SPEED),
{
    if turn_right {
        (TURN_SPEED, -TURN_SPEED)
    } else {
        (-TURN_SPEED, TURN_SPEED)
    }
}

/// Wheel speeds for the slow in-place turn used to find a clear path.
pub fn clearance_turn_speeds(turn_right: bool) -> (r: (i16, i16))
    ensures
        r == spin(turn_right, CLEARANCE_TURN_SPEED),
{
    if turn_right {
        (CLEARANCE_TURN_SPEED, -CLEARANCE_TURN_SPEED)
    } else {
        (-CLEARANCE_TURN_SPEED, CLEARANCE_TURN_SPEED)
    }
}

/// The autonomous navigation pattern: crossing the room, backing away from
/// contacts, turning until the way is clear and driving out again.
#[derive(Debug)]
pub struct AutoNavigation {
    phase: AutoNavigationPhase,
    phase_started_ms: u64,
    escape_right: bool,
    clearance_turn_right: bool,
    wall_turn_right: bool,
    clear_sensor_ticks: u8,
    wall_clear_sensor_ticks: u8,
    wall_recovery_count: u8,
    wall_contact_streak: u8,
    recovery_attempts: u8,
    recent_contact_times: Vec<u64>,
    last_progress_ms: u64,
    contact_type: Option<ContactType>,
    wall_side: Option<WallSide>,
    last_contact_type: Option<ContactType>,
    last_wall_side: Option<WallSide>,
    last_wall_recovery_side: Option<WallSide>,
}

impl View for AutoNavigation {
    type V = NavModel;

    closed spec fn view(&self) -> NavModel {
        NavModel {
            phase: self.phase,
            phase_started_ms: self.phase_started_ms,
            escape_right: self.escape_right,
            clearance_turn_right: self.clearance_turn_right,
            wall_turn_right: self.wall_turn_right,
            clear_sensor_ticks: self.clear_sensor_ticks,
            wall_clear_sensor_ticks: self.wall_clear_sensor_ticks,
            wall_recovery_count: self.wall_recovery_count,
            wall_contact_streak: self.wall_contact_streak,
            recovery_attempts: self.recovery_attempts,
            recent_contact_times: self.recent_contact_times@,
            last_progress_ms: self.last_progress_ms,
            contact_type: self.contact_type,
            wall_side: self.wall_side,
            last_contact_type: self.last_contact_type,
            last_wall_side: self.last_wall_side,
            last_wall_recovery_side: self.last_wall_recovery_side,
        }
    }
}

impl AutoNavigation {
    /// The pattern before it has started.
    pub fn new() -> (r: AutoNavigation)
        ensures
            r@ == initial_nav(),
    {
        AutoNavigation {
            phase: AutoNavigationPhase::Idle,
            phase_started_ms: 0,
            escape_right: true,
            clearance_turn_right: true,
            wall_turn_right: true,
            clear_sensor_ticks: 0,
            wall_clear_sensor_ticks: 0,
            wall_recovery_count: 0,
            wall_contact_streak: 0,
            recovery_attempts: 0,
            recent_contact_times: Vec::with_capacity(8),
            last_progress_ms: 0,
            contact_type: None,
            wall_side: None,
            last_contact_type: None,
            last_wall_side: None,
            last_wall_recovery_side: None,
        }
    }

    /// The current phase.
    pub fn phase(&self) -> (r: AutoNavigationPhase)
        ensures
            r == self@.phase,
    {
        self.phase
    }

    /// Resets the pattern at time `now`.
    pub fn reset(&mut self, now: u64)
        ensures
            final(self)@ == reset_nav(now),
    {
        self.phase = AutoNavigationPhase::Idle;
        self.phase_started_ms = now;
        self.escape_right = true;
        self.clearance_turn_right = true;
        self.wall_turn_right = true;
        self.clear_sensor_ticks = 0;
        self.wall_clear_sensor_ticks = 0;
        self.wall_recovery_count = 0;
        self.wall_contact_streak = 0;
        self.recovery_attempts = 0;
        self.recent_contact_times.clear();
        self.last_progress_ms = now;
        self.contact_type = None;
        self.wall_side = None;
        self.last_contact_type = None;
        self.last_wall_side = None;
        self.last_wall_recovery_side = None;
    }

    /// Enters `phase` at time `now`.
    pub fn set_phase(&mut self, phase: AutoNavigationPhase, now: u64)
        ensures
            final(self)@ == enter_phase(old(self)@, phase, now),
    {
        self.phase = phase;
        self.phase_started_ms = now;
    }

    /// How long the current phase has lasted at `now`.
    pub fn phase_elapsed_ms(&self, now: u64) -> (r: u64)
        ensures
            r == elapsed_ms(self@, now),
    {
        now.saturating_sub(self.phase_started_ms)
    }

    /// The minimum time to turn away from a wall.
    pub fn current_wall_turn_away_min_ms(&self) -> (r: u64)
        ensures
            r == wall_turn_away_min_ms(self@),
    {
        let extra = (self.wall_contact_streak.saturating_sub(1) as u64) * WALL_TURN_AWAY_EXTRA_MS;
        let total = WALL_TURN_AWAY_BASE_MIN_MS + extra;
        if total <= WALL_TURN_AWAY_MAX_MIN_MS {
            total
        } else {
            WALL_TURN_AWAY_MAX_MIN_MS
        }
    }

    /// The time to drive forward after turning away from a wall.
    pub fn current_wall_exit_forward_ms(&self) -> (r: u64)
        ensures
            r == wall_exit_forward_ms(self@),
    {
        let repeated_wall_extra = (self.wall_recovery_count as u64) * WALL_EXIT_FORWARD_EXTRA_MS;
        let streak_extra = (self.wall_contact_streak.saturating_sub(1) as u64)
            * WALL_EXIT_FORWARD_EXTRA_MS;
        let total = WALL_EXIT_FORWARD_BASE_MS + repeated_wall_extra + streak_extra;
        if total <= WALL_EXIT_FORWARD_MAX_MS {
            total
        } else {
            WALL_EXIT_FORWARD_MAX_MS
        }
    }

    /// Forgets the contacts that are no longer recent at `now`.
    pub fn prune_recent_contacts(&mut self, now: u64)
        ensures
            final(self)@ == prune_nav(old(self)@, now),
    {
        let ghost pred = recent_at(now);
        let mut kept: Vec<u64> = Vec::with_capacity(8);
        let n = self.recent_contact_times.len();
        let mut i: usize = 0;
        while i < n
            invariant
                n == self.recent_contact_times@.len(),
                0 <= i <= n,
                pred == recent_at(now),
                kept@ == self.recent_contact_times@.take(i as int).filter(pred),
            decreases n - i,
        {
            let t = self.recent_contact_times[i];
            proof {
                let s = self.recent_contact_times@;
                assert(s.take(i + 1) == s.take(i as int).push(t));
                s.take(i as int).lemma_filter_push(t, pred);
                assert(pred(t) == (now.saturating_sub(t) <= ANTI_LOOP_CONTACT_WINDOW_MS));
            }
            if now.saturating_sub(t) <= ANTI_LOOP_CONTACT_WINDOW_MS {
                kept.push(t);
            }
            i = i + 1;
        }
        proof {
            assert(self.recent_contact_times@.take(n as int) == self.recent_contact_times@);
        }
        self.recent_contact_times = kept;
    }

    /// Remembers a contact at `now`.
    pub fn record_contact(&mut self, sensors: &SensorSnapshot, now: u64)
        ensures
            final(self)@ == record_contact_nav(old(self)@, *sensors, now),
    {
        self.recent_contact_times.push(now);
        self.prune_recent_contacts(now);
        self.wall_side = sensors.wall_side;
        self.contact_type = Some(
            if sensors.wall_side.is_some() {
                ContactType::Wall
            } else {
                match sensors.contact_type {
                    Some(c) => c,
                    None => ContactType::Unknown,
                }
            },
        );
    }

    /// Starts following the wall.
    pub fn begin_wall_follow(&mut self, now: u64)
        ensures
            final(self)@ == enter_phase(
                NavModel { recovery_attempts: 0, ..old(self)@ },
                AutoNavigationPhase::WallFollow,
                now,
            ),
    {
        self.recovery_attempts = 0;
        self.set_phase(AutoNavigationPhase::WallFollow, now);
    }

    /// Starts recovering from a wall contact.
    pub fn begin_wall_recovery(&mut self, sensors: &SensorSnapshot, now: u64)
        ensures
            final(self)@ == begin_wall_recovery_nav(old(self)@, *sensors, now),
    {
        self.record_contact(sensors, now);
        self.wall_contact_streak = self.wall_contact_streak.saturating_add(1);
        if self.last_wall_recovery_side == self.wall_side {
            self.wall_recovery_count = self.wall_recovery_count.saturating_add(1);
        } else {
            self.wall_recovery_count = 0;
            self.last_wall_recovery_side = self.wall_side;
        }
        self.wall_turn_right = choose_wall_recovery_turn_right(
            self.wall_side,
            self.escape_right,
            self.wall_recovery_count,
        );
        self.escape_right = !self.escape_right;
        self.wall_clear_sensor_ticks = 0;
        self.set_phase(AutoNavigationPhase::WallBackup, now);
    }

    /// Starts escaping from a non-wall contact.
    pub fn begin_clearance_escape(&mut self, sensors: &SensorSnapshot, now: u64)
        ensures
            final(self)@ == begin_clearance_escape_nav(old(self)@, *sensors, now),
    {
        self.record_contact(sensors, now);
        self.wall_contact_streak = 0;
        self.wall_recovery_count = 0;
        self.last_wall_recovery_side = None;
        self.last_contact_type = self.contact_type;
        self.last_wall_side = self.wall_side;
        self.clearance_turn_right = choose_clearance_turn_right(
            self.wall_side,
            self.contact_type,
            self.escape_right,
        );
        self.escape_right = !self.escape_right;
        self.clear_sensor_ticks = 0;
        self.set_phase(AutoNavigationPhase::ClearanceBackup, now);
    }

    /// Starts the recovery that suits the contact.
    pub fn begin_contact_recovery(&mut self, sensors: &SensorSnapshot, now: u64)
        ensures
            final(self)@ == begin_contact_recovery_nav(old(self)@, *sensors, now),
    {
        if is_wall_contact(sensors) {
            self.begin_wall_recovery(sensors, now);
        } else {
            self.begin_clearance_escape(sensors, now);
        }
    }

    /// Back to crossing the room.
    fn resume_room_crossing(&mut self, now: u64)
        ensures
            final(self)@ == resume_crossing(old(self)@, now),
    {
        self.recovery_attempts = 0;
        self.contact_type = None;
        self.wall_side = None;
        self.set_phase(AutoNavigationPhase::RoomCrossing, now);
    }

    /// Advances the pattern by one step at time `now` with reading `sensors`.
    pub fn step(&mut self, sensors: &SensorSnapshot, now: u64)
        ensures
            final(self)@ == nav_step(old(self)@, *sensors, now),
    {
        self.prune_recent_contacts(now);
        let elapsed = self.phase_elapsed_ms(now);
        match self.phase {
            AutoNavigationPhase::Idle => {
                self.set_phase(AutoNavigationPhase::RoomCrossing, now);
            },
            AutoNavigationPhase::RoomCrossing => {
                if has_proximity_contact(sensors) {
                    self.begin_contact_recovery(sensors, now);
                } else if elapsed >= WALL_STREAK_RESET_MS {
                    self.wall_contact_streak = 0;
                    self.wall_recovery_count = 0;
                    self.last_wall_recovery_side = None;
                }
            },
            AutoNavigationPhase::ClearanceBackup => {
                if elapsed >= CLEARANCE_BACKUP_MS {
                    self.clear_sensor_ticks = 0;
                    self.set_phase(AutoNavigationPhase::ClearanceTurnClear, now);
                }
            },
            AutoNavigationPhase::CornerBackup => {
                self.set_phase(AutoNavigationPhase::ClearanceBackup, now);
            },
            AutoNavigationPhase::ClearanceTurnClear => {
                if clearance_path_is_clear(sensors) {
                    self.clear_sensor_ticks = self.clear_sensor_ticks.saturating_add(1);
                } else {
                    self.clear_sensor_ticks = 0;
                }
                if self.clear_sensor_ticks >= CLEAR_SENSOR_TICKS_REQUIRED {
                    self.set_phase(AutoNavigationPhase::ClearanceExitForward, now);
                }
            },
            AutoNavigationPhase::CornerTurnClear => {
                self.set_phase(AutoNavigationPhase::ClearanceTurnClear, now);
            },
            AutoNavigationPhase::ClearanceExitForward => {
                if has_proximity_contact(sensors) {
                    self.begin_contact_recovery(sensors, now);
                } else if sensors.obstacle_detected || sensors.forward_clearance_blocked {
                    self.clear_sensor_ticks = 0;
                    self.set_phase(AutoNavigationPhase::ClearanceTurnClear, now);
                } else if elapsed >= CLEARANCE_EXIT_FORWARD_MS {
                    self.last_contact_type = None;
                    self.last_wall_side = None;
                    self.resume_room_crossing(now);
                } else {
                    self.last_progress_ms = now;
                }
            },
            AutoNavigationPhase::CornerExitForward => {
                self.set_phase(AutoNavigationPhase::ClearanceExitForward, now);
            },
            AutoNavigationPhase::WallBackup => {
                if elapsed >= WALL_BACKUP_MS {
                    self.wall_clear_sensor_ticks = 0;
                    self.set_phase(AutoNavigationPhase::WallTurnAway, now);
                }
            },
            AutoNavigationPhase::WallTurnAway => {
                let turn_minimum_elapsed = elapsed >= self.current_wall_turn_away_min_ms();
                if turn_minimum_elapsed && wall_recovery_path_is_clear(sensors) {
                    self.wall_clear_sensor_ticks = self.wall_clear_sensor_ticks.saturating_add(1);
                } else {
                    self.wall_clear_sensor_ticks = 0;
                }
                if self.wall_clear_sensor_ticks >= WALL_CLEAR_SENSOR_TICKS_REQUIRED {
                    self.set_phase(AutoNavigationPhase::WallExitForward, now);
                }
            },
            AutoNavigationPhase::WallExitForward => {
                if has_proximity_contact(sensors) {
                    self.begin_contact_recovery(sensors, now);
                } else if sensors.obstacle_detected || sensors.forward_clearance_blocked {
                    self.wall_clear_sensor_ticks = 0;
                    self.set_phase(AutoNavigationPhase::WallTurnAway, now);
                } else if elapsed >= self.current_wall_exit_forward_ms() {
                    self.resume_room_crossing(now);
                } else {
                    self.last_progress_ms = now;
                }
            },
            AutoNavigationPhase::ContactBackup => {
                if elapsed >= BACKUP_MS {
                    if self.contact_type == Some(ContactType::Wall) {
                        self.set_phase(AutoNavigationPhase::WallAlign, now);
                    } else {
                        self.set_phase(AutoNavigationPhase::ObstacleTurnAway, now);
                    }
                }
            },
            AutoNavigationPhase::WallAlign => {
                if elapsed >= WALL_ALIGN_MS {
                    self.begin_wall_follow(now);
                }
            },
            AutoNavigationPhase::WallFollow => {
                if has_proximity_contact(sensors) {
                    self.begin_contact_recovery(sensors, now);
                } else {
                    self.last_progress_ms = now;
                }
            },
            AutoNavigationPhase::WallRelease => {
                if has_proximity_contact(sensors) {
                    self.begin_contact_recovery(sensors, now);
                } else if elapsed >= WALL_RELEASE_MS {
                    self.resume_room_crossing(now);
                }
            },
            AutoNavigationPhase::ObstacleBackup => {
                if elapsed >= BACKUP_MS {
                    self.set_phase(AutoNavigationPhase::ObstacleTurnAway, now);
                }
            },
            AutoNavigationPhase::ObstacleTurnAway => {
                if elapsed >= OBSTACLE_TURN_MS {
                    self.set_phase(AutoNavigationPhase::ObstacleEscapeForward, now);
                }
            },
            AutoNavigationPhase::ObstacleEscapeForward => {
                if has_proximity_contact(sensors) {
                    self.begin_contact_recovery(sensors, now);
                } else if elapsed >= OBSTACLE_ESCAPE_FORWARD_MS {
                    self.resume_room_crossing(now);
                } else {
                    self.last_progress_ms = now;
                }
            },
            AutoNavigationPhase::AntiLoopBackup => {
                if elapsed >= ANTI_LOOP_BACKUP_MS {
                    self.set_phase(AutoNavigationPhase::AntiLoopTurn, now);
                }
            },
            AutoNavigationPhase::AntiLoopTurn => {
                if elapsed >= ANTI_LOOP_TURN_MS {
                    self.set_phase(AutoNavigationPhase::AntiLoopForward, now);
                }
            },
            AutoNavigationPhase::AntiLoopForward => {
                if has_proximity_contact(sensors) {
                    self.begin_contact_recovery(sensors, now);
                } else if elapsed >= ANTI_LOOP_FORWARD_MS {
                    self.resume_room_crossing(now);
                } else {
                    self.last_progress_ms = now;
                }
            },
        }
    }

    /// The (left, right) wheel speeds that the current phase drives.
    pub fn motion(&self) -> (r: (i16, i16))
        ensures
            r == nav_motion(self@),
    {
        match self.phase {
            AutoNavigationPhase::Idle => (0, 0),
            AutoNavigationPhase::RoomCrossing
            | AutoNavigationPhase::ClearanceExitForward
            | AutoNavigationPhase::WallExitForward
            | AutoNavigationPhase::CornerExitForward => (ROOM_CROSSING_SPEED, ROOM_CROSSING_SPEED),
            AutoNavigationPhase::ClearanceBackup
            | AutoNavigationPhase::CornerBackup
            | AutoNavigationPhase::WallBackup
            | AutoNavigationPhase::ContactBackup
            | AutoNavigationPhase::ObstacleBackup
            | AutoNavigationPhase::AntiLoopBackup => (BACKUP_SPEED, BACKUP_SPEED),
            AutoNavigationPhase::ClearanceTurnClear
            | AutoNavigationPhase::CornerTurnClear => clearance_turn_speeds(self.clearance_turn_right),
            AutoNavigationPhase::WallTurnAway => clearance_turn_speeds(self.wall_turn_right),
            AutoNavigationPhase::WallAlign
            | AutoNavigationPhase::ObstacleTurnAway => turn_speeds(self.escape_right),
            AutoNavigationPhase::WallRelease => turn_speeds(!self.escape_right),
            AutoNavigationPhase::WallFollow => (WALL_FOLLOW_SPEED, WALL_FOLLOW_SPEED),
            AutoNavigationPhase::ObstacleEscapeForward => (
                ESCAPE_FORWARD_SPEED,
                ESCAPE_FORWARD_SPEED,
            ),
            AutoNavigationPhase::AntiLoopTurn => clearance_turn_speeds(self.escape_right),
            AutoNavigationPhase::AntiLoopForward => (
                ANTI_LOOP_FORWARD_SPEED,
                ANTI_LOOP_FORWARD_SPEED,
            ),
        }
    }
}

} // verus!
