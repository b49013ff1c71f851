use vstd::prelude::*;

verus! {

/// The operating state of the robot.
#[derive(Clone, Copy, Debug, PartialEq, Eq, Structural)]
pub enum RobotState {
    Off,
    Standby,
    Cleaning,
    Paused,
    ManualControl,
    ReturningToDock,
    Charging,
    Error,
}

impl RobotState {
    /// The wire name of the state.
    pub open spec fn name(self) -> &'static str {
        match self {
            RobotState::Off => "OFF",
            RobotState::Standby => "STANDBY",
            RobotState::Cleaning => "CLEANING",
            RobotState::Paused => "PAUSED",
            RobotState::ManualControl => "MANUAL_CONTROL",
            RobotState::ReturningToDock => "RETURNING_TO_DOCK",
            RobotState::Charging => "CHARGING",
            RobotState::Error => "ERROR",
        }
    }

    /// Returns the wire name of the state (what the status API reports).
    pub fn as_str(&self) -> (r: &'static str)
        ensures
            r == self.name(),
    {
        match self {
            RobotState::Off => "OFF",
            RobotState::Standby => "STANDBY",
            RobotState::Cleaning => "CLEANING",
            RobotState::Paused => "PAUSED",
            RobotState::ManualControl => "MANUAL_CONTROL",
            RobotState::ReturningToDock => "RETURNING_TO_DOCK",
            RobotState::Charging => "CHARGING",
            RobotState::Error => "ERROR",
        }
    }
}

} // verus!

verus! {

/// The cleaning strategy selected for the robot.
#[derive(Clone, Copy, Debug, PartialEq, Eq, Structural)]
pub enum CleaningMode {
    Auto,
    Manual,
    ZigZag,
    WallFollowing,
    Spot,
}

impl CleaningMode {
    /// The wire name of the mode.
    pub open spec fn name(self) -> &'static str {
        match self {
            CleaningMode::Auto => "AUTO",
            CleaningMode::Manual => "MANUAL",
            CleaningMode::ZigZag => "ZIG_ZAG",
            CleaningMode::WallFollowing => "WALL_FOLLOWING",
            CleaningMode::Spot => "SPOT",
        }
    }

    /// Returns the wire name of the mode.
    pub fn as_str(&self) -> (r: &'static str)
        ensures
            r == self.name(),
    {
        match self {
            CleaningMode::Auto => "AUTO",
            CleaningMode::Manual => "MANUAL",
            CleaningMode::ZigZag => "ZIG_ZAG",
            CleaningMode::WallFollowing => "WALL_FOLLOWING",
            CleaningMode::Spot => "SPOT",
        }
    }
}

/// A direction for a manual movement command.
#[derive(Clone, Copy, Debug, PartialEq, Eq, Structural)]
pub enum ManualDirection {
    Forward,
    Backward,
    Left,
    Right,
    Stop,
}

impl ManualDirection {
    /// The wire name of the direction.
    pub open spec fn name(self) -> &'static str {
        match self {
            ManualDirection::Forward => "FORWARD",
            ManualDirection::Backward => "BACKWARD",
            ManualDirection::Left => "LEFT",
            ManualDirection::Right => "RIGHT",
            ManualDirection::Stop => "STOP",
        }
    }

    /// Returns the wire name of the direction.
    pub fn as_str(&self) -> (r: &'static str)
        ensures
            r == self.name(),
    {
        match self {
            ManualDirection::Forward => "FORWARD",
            ManualDirection::Backward => "BACKWARD",
            ManualDirection::Left => "LEFT",
            ManualDirection::Right => "RIGHT",
            ManualDirection::Stop => "STOP",
        }
    }
}

/// A safety condition that forces the robot into the error state.
#[derive(Clone, Copy, Debug, PartialEq, Eq, Structural)]
pub enum RobotError {
    DropOffDetected,
    WheelStuck,
    BrushStuck,
    TopCoverOpen,
    DustContainerFull,
}

impl RobotError {
    /// The wire name of the error.
    pub open spec fn name(self) -> &'static str {
        match self {
            RobotError::DropOffDetected => "DROP_OFF_DETECTED",
            RobotError::WheelStuck => "WHEEL_STUCK",
            RobotError::BrushStuck => "BRUSH_STUCK",
            RobotError::TopCoverOpen => "TOP_COVER_OPEN",
            RobotError::DustContainerFull => "DUST_CONTAINER_FULL",
        }
    }

    /// Returns the wire name of the error.
    pub fn as_str(&self) -> (r: &'static str)
        ensures
            r == self.name(),
    {
        match self {
            RobotError::DropOffDetected => "DROP_OFF_DETECTED",
            RobotError::WheelStuck => "WHEEL_STUCK",
            RobotError::BrushStuck => "BRUSH_STUCK",
            RobotError::TopCoverOpen => "TOP_COVER_OPEN",
            RobotError::DustContainerFull => "DUST_CONTAINER_FULL",
        }
    }
}

/// What the robot touched, as reported by its proximity sensing.
#[derive(Clone, Copy, Debug, PartialEq, Eq, Structural)]
pub enum ContactType {
    Wall,
    Obstacle,
    Unknown,
}

impl ContactType {
    /// The wire name of the contact type.
    pub open spec fn name(self) -> &'static str {
        match self {
            ContactType::Wall => "wall",
            ContactType::Obstacle => "obstacle",
            ContactType::Unknown => "unknown",
        }
    }

    /// Returns the wire name of the contact type.
    pub fn as_str(&self) -> (r: &'static str)
        ensures
            r == self.name(),
    {
        match self {
            ContactType::Wall => "wall",
            ContactType::Obstacle => "obstacle",
            ContactType::Unknown => "unknown",
        }
    }
}

/// The side of the room whose wall was touched.
#[derive(Clone, Copy, Debug, PartialEq, Eq, Structural)]
pub enum WallSide {
    Left,
    Right,
    Top,
    Bottom,
}

impl WallSide {
    /// The wire name of the wall side.
    pub open spec fn name(self) -> &'static str {
        match self {
            WallSide::Left => "left",
            WallSide::Right => "right",
            WallSide::Top => "top",
            WallSide::Bottom => "bottom",
        }
    }

    /// Returns the wire name of the wall side.
    pub fn as_str(&self) -> (r: &'static str)
        ensures
            r == self.name(),
    {
        match self {
            WallSide::Left => "left",
            WallSide::Right => "right",
            WallSide::Top => "top",
            WallSide::Bottom => "bottom",
        }
    }
}

/// The phase of the autonomous navigation pattern.
#[derive(Clone, Copy, Debug, PartialEq, Eq, Structural)]
pub enum AutoNavigationPhase {
    Idle,
    RoomCrossing,
    ClearanceBackup,
    CornerBackup,
    ClearanceTurnClear,
    CornerTurnClear,
    ClearanceExitForward,
    CornerExitForward,
    WallBackup,
    WallTurnAway,
    WallExitForward,
    ContactBackup,
    WallAlign,
    WallFollow,
    WallRelease,
    ObstacleBackup,
    ObstacleTurnAway,
    ObstacleEscapeForward,
    AntiLoopBackup,
    AntiLoopTurn,
    AntiLoopForward,
}

impl AutoNavigationPhase {
    /// The wire name of the phase.
    pub open spec fn name(self) -> &'static str {
        match self {
            AutoNavigationPhase::Idle => "IDLE",
            AutoNavigationPhase::RoomCrossing => "ROOM_CROSSING",
            AutoNavigationPhase::ClearanceBackup => "CLEARANCE_BACKUP",
            AutoNavigationPhase::CornerBackup => "CORNER_BACKUP",
            AutoNavigationPhase::ClearanceTurnClear => "CLEARANCE_TURN_CLEAR",
            AutoNavigationPhase::CornerTurnClear => "CORNER_TURN_CLEAR",
            AutoNavigationPhase::ClearanceExitForward => "CLEARANCE_EXIT_FORWARD",
            AutoNavigationPhase::CornerExitForward => "CORNER_EXIT_FORWARD",
            AutoNavigationPhase::WallBackup => "WALL_BACKUP",
            AutoNavigationPhase::WallTurnAway => "WALL_TURN_AWAY",
            AutoNavigationPhase::WallExitForward => "WALL_EXIT_FORWARD",
            AutoNavigationPhase::ContactBackup => "CONTACT_BACKUP",
            AutoNavigationPhase::WallAlign => "WALL_ALIGN",
            AutoNavigationPhase::WallFollow => "WALL_FOLLOW",
            AutoNavigationPhase::WallRelease => "WALL_RELEASE",
            AutoNavigationPhase::ObstacleBackup => "OBSTACLE_BACKUP",
            AutoNavigationPhase::ObstacleTurnAway => "OBSTACLE_TURN_AWAY",
            AutoNavigationPhase::ObstacleEscapeForward => "OBSTACLE_ESCAPE_FORWARD",
            AutoNavigationPhase::AntiLoopBackup => "ANTI_LOOP_BACKUP",
            AutoNavigationPhase::AntiLoopTurn => "ANTI_LOOP_TURN",
            AutoNavigationPhase::AntiLoopForward => "ANTI_LOOP_FORWARD",
        }
    }

    /// Returns the wire name of the phase.
    pub fn as_str(&self) -> (r: &'static str)
        ensures
            r == self.name(),
    {
        match self {
            AutoNavigationPhase::Idle => "IDLE",
            AutoNavigationPhase::RoomCrossing => "ROOM_CROSSING",
            AutoNavigationPhase::ClearanceBackup => "CLEARANCE_BACKUP",
            AutoNavigationPhase::CornerBackup => "CORNER_BACKUP",
            AutoNavigationPhase::ClearanceTurnClear => "CLEARANCE_TURN_CLEAR",
            AutoNavigationPhase::CornerTurnClear => "CORNER_TURN_CLEAR",
            AutoNavigationPhase::ClearanceExitForward => "CLEARANCE_EXIT_FORWARD",
            AutoNavigationPhase::CornerExitForward => "CORNER_EXIT_FORWARD",
            AutoNavigationPhase::WallBackup => "WALL_BACKUP",
            AutoNavigationPhase::WallTurnAway => "WALL_TURN_AWAY",
            AutoNavigationPhase::WallExitForward => "WALL_EXIT_FORWARD",
            AutoNavigationPhase::ContactBackup => "CONTACT_BACKUP",
            AutoNavigationPhase::WallAlign => "WALL_ALIGN",
            AutoNavigationPhase::WallFollow => "WALL_FOLLOW",
            AutoNavigationPhase::WallRelease => "WALL_RELEASE",
            AutoNavigationPhase::ObstacleBackup => "OBSTACLE_BACKUP",
            AutoNavigationPhase::ObstacleTurnAway => "OBSTACLE_TURN_AWAY",
            AutoNavigationPhase::ObstacleEscapeForward => "OBSTACLE_ESCAPE_FORWARD",
            AutoNavigationPhase::AntiLoopBackup => "ANTI_LOOP_BACKUP",
            AutoNavigationPhase::AntiLoopTurn => "ANTI_LOOP_TURN",
            AutoNavigationPhase::AntiLoopForward => "ANTI_LOOP_FORWARD",
        }
    }
}

/// One reading of every sensor of the robot.
#[derive(Clone, Copy, Debug, PartialEq, Eq, Structural)]
pub struct SensorSnapshot {
    pub obstacle_detected: bool,
    pub drop_off_detected: bool,
    pub bumper_pressed: bool,
    pub proximity_contact: bool,
    pub contact_type: Option<ContactType>,
    pub wall_side: Option<WallSide>,
    pub forward_clearance_blocked: bool,
    pub dust_container_full: bool,
    pub wheel_stuck: bool,
    pub brush_stuck: bool,
    pub top_cover_open: bool,
}

impl SensorSnapshot {
    /// The reading in which nothing is detected.
    pub open spec fn quiet() -> SensorSnapshot {
        SensorSnapshot {
            obstacle_detected: false,
            drop_off_detected: false,
            bumper_pressed: false,
            proximity_contact: false,
            contact_type: None,
            wall_side: None,
            forward_clearance_blocked: false,
            dust_container_full: false,
            wheel_stuck: false,
            brush_stuck: false,
            top_cover_open: false,
        }
    }
}

impl Default for SensorSnapshot {
    fn default() -> (r: SensorSnapshot)
        ensures
            r == SensorSnapshot::quiet(),
    {
        SensorSnapshot {
            obstacle_detected: false,
            drop_off_detected: false,
            bumper_pressed: false,
            proximity_contact: false,
            contact_type: None,
            wall_side: None,
            forward_clearance_blocked: false,
            dust_container_full: false,
            wheel_stuck: false,
            brush_stuck: false,
            top_cover_open: false,
        }
    }
}

/// Everything the status API reports about the robot.
#[derive(Clone, Copy, Debug, PartialEq, Eq, Structural)]
pub struct RobotStatus {
    pub state: RobotState,
    pub cleaning_mode: CleaningMode,
    pub battery_percent: u8,
    pub is_charging: bool,
    pub suction_enabled: bool,
    pub brushes_enabled: bool,
    pub left_wheel_speed: i16,
    pub right_wheel_speed: i16,
    pub current_error: Option<RobotError>,
    pub auto_navigation_phase: Option<AutoNavigationPhase>,
    pub sensors: SensorSnapshot,
}

/// A command that the robot accepts.
#[derive(Clone, Copy, Debug, PartialEq, Eq, Structural)]
pub enum RobotCommand {
    StartCleaning,
    StopCleaning,
    PauseCleaning,
    ReturnToDock,
    ManualMove { direction: ManualDirection, speed: u8, duration_ms: u64 },
    SetCleaningMode(CleaningMode),
    ClearError,
    GetStatus,
}

/// Whether a rejected command was malformed or conflicts with the robot's state.
#[derive(Clone, Copy, Debug, PartialEq, Eq, Structural)]
pub enum ErrorKind {
    BadRequest,
    Conflict,
}

/// Why the robot refused a command.
#[derive(Clone, Debug, PartialEq, Eq)]
pub struct DomainError {
    pub kind: ErrorKind,
    pub code: &'static str,
    pub message: String,
    pub current_state: Option<RobotState>,
}

impl DomainError {
    /// A rejection of a malformed request.
    pub fn bad_request(code: &'static str, message: String) -> (r: DomainError)
        ensures
            r.kind == ErrorKind::BadRequest,
            r.code == code,
            r.message@ == message@,
            r.current_state.is_none(),
    {
        DomainError { kind: ErrorKind::BadRequest, code, message, current_state: None }
    }

    /// A rejection of a request that the current state does not allow.
    pub fn conflict(code: &'static str, message: String, current_state: RobotState) -> (r:
        DomainError)
        ensures
            r.kind == ErrorKind::Conflict,
            r.code == code,
            r.message@ == message@,
            r.current_state == Some(current_state),
    {
        DomainError { kind: ErrorKind::Conflict, code, message, current_state: Some(current_state) }
    }
}

} // verus!
