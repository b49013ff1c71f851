use vstd::prelude::*;

use crate::domain::models::{CleaningMode, ManualDirection, RobotStatus, SensorSnapshot};

verus! {

/// A cleaning mode as a request names it.
#[derive(Clone, Copy, Debug, PartialEq, Eq, Structural)]
pub enum CleaningModeRequest {
    Auto,
    ZigZag,
    WallFollowing,
    Spot,
}

impl vstd::std_specs::convert::FromSpecImpl<CleaningModeRequest> for CleaningMode {
    open spec fn obeys_from_spec() -> bool {
        true
    }

    open spec fn from_spec(v: CleaningModeRequest) -> CleaningMode {
        match v {
            CleaningModeRequest::Auto => CleaningMode::Auto,
            CleaningModeRequest::ZigZag => CleaningMode::ZigZag,
            CleaningModeRequest::WallFollowing => CleaningMode::WallFollowing,
            CleaningModeRequest::Spot => CleaningMode::Spot,
        }
    }
}

impl From<CleaningModeRequest> for CleaningMode {
    fn from(value: CleaningModeRequest) -> (r: CleaningMode) {
        match value {
            CleaningModeRequest::Auto => CleaningMode::Auto,
            CleaningModeRequest::ZigZag => CleaningMode::ZigZag,
            CleaningModeRequest::WallFollowing => CleaningMode::WallFollowing,
            CleaningModeRequest::Spot => CleaningMode::Spot,
        }
    }
}

/// A manual direction as a request names it.
#[derive(Clone, Copy, Debug, PartialEq, Eq, Structural)]
pub enum ManualDirectionRequest {
    Forward,
    Backward,
    Left,
    Right,
    Stop,
}

impl vstd::std_specs::convert::FromSpecImpl<ManualDirectionRequest> for ManualDirection {
    open spec fn obeys_from_spec() -> bool {
        true
    }

    open spec fn from_spec(v: ManualDirectionRequest) -> ManualDirection {
        match v {
            ManualDirectionRequest::Forward => ManualDirection::Forward,
            ManualDirectionRequest::Backward => ManualDirection::Backward,
            ManualDirectionRequest::Left => ManualDirection::Left,
            ManualDirectionRequest::Right => ManualDirection::Right,
            ManualDirectionRequest::Stop => ManualDirection::Stop,
        }
    }
}

impl From<ManualDirectionRequest> for ManualDirection {
    fn from(value: ManualDirectionRequest) -> (r: ManualDirection) {
        match value {
            ManualDirectionRequest::Forward => ManualDirection::Forward,
            ManualDirectionRequest::Backward => ManualDirection::Backward,
            ManualDirectionRequest::Left => ManualDirection::Left,
            ManualDirectionRequest::Right => ManualDirection::Right,
            ManualDirectionRequest::Stop => ManualDirection::Stop,
        }
    }
}

/// The body of a manual move request.
#[derive(Clone, Copy, Debug)]
pub struct ManualMoveRequest {
    pub direction: ManualDirectionRequest,
    pub speed: u8,
    pub duration_ms: u64,
}

/// The body of a mode request.
#[derive(Clone, Copy, Debug)]
pub struct SetModeRequest {
    pub mode: CleaningModeRequest,
}

/// The body of a simulated sensor update; an absent field keeps or clears
/// its reading as `update_sensor_snapshot` says.
#[derive(Clone, Debug)]
pub struct SimulationSensorsRequest {
    pub obstacle_detected: Option<bool>,
    pub drop_off_detected: Option<bool>,
    pub bumper_pressed: Option<bool>,
    pub proximity_contact: Option<bool>,
    pub contact_type: Option<String>,
    pub wall_side: Option<String>,
    pub forward_clearance_blocked: Option<bool>,
    pub dust_container_full: Option<bool>,
    pub wheel_stuck: Option<bool>,
    pub brush_stuck: Option<bool>,
    pub top_cover_open: Option<bool>,
}

/// The body of a simulated battery update.
#[derive(Clone, Copy, Debug)]
pub struct SimulationBatteryRequest {
    pub battery_percent: u8,
}

/// The body of a simulated docking update; an absent field is left as it is.
#[derive(Clone, Copy, Debug)]
pub struct SimulationDockingRequest {
    pub dock_available: Option<bool>,
    pub dock_detected: Option<bool>,
}

/// The (empty) body of a simulation reset.
#[derive(Clone, Copy, Debug)]
pub struct SimulationResetRequest {}

/// The body of a simulation tick; without a `delta_ms` the clock advances
/// by 100 ms.
#[derive(Clone, Copy, Debug)]
pub struct SimulationTickRequest {
    pub delta_ms: Option<u64>,
}

/// The stop conditions of a batch run.
#[derive(Clone, Copy, Debug)]
pub struct BatchStopConditionsRequest {
    pub time_limit: bool,
    pub coverage_threshold: bool,
    pub successful_docking: bool,
    pub stuck_diagnostic: bool,
}

/// A sensor reading as a simulation log records it.
#[derive(Clone, Debug)]
pub struct SensorSnapshotResponseInput {
    pub obstacle_detected: bool,
    pub drop_off_detected: bool,
    pub bumper_pressed: bool,
    pub proximity_contact: bool,
    pub contact_type: Option<String>,
    pub wall_side: Option<String>,
    pub forward_clearance_blocked: bool,
    pub dust_container_full: bool,
    pub wheel_stuck: bool,
    pub brush_stuck: bool,
    pub top_cover_open: bool,
}

/// A covered cell of the coverage grid.
#[derive(Clone, Copy, Debug)]
pub struct CoverageCellRequest {
    pub col: u32,
    pub row: u32,
}

/// The body of an error answer.
#[derive(Clone, Debug)]
pub struct ErrorResponse {
    pub code: String,
    pub message: String,
    pub current_state: Option<String>,
}

/// A sensor reading as the status API reports it; the contact type and the
/// wall side are given by name.
#[derive(Clone, Copy, Debug, PartialEq, Eq)]
pub struct SensorSnapshotResponse {
    pub obstacle_detected: bool,
    pub drop_off_detected: bool,
    pub bumper_pressed: bool,
    pub proximity_contact: bool,
    pub contact_type: Option<&'static str>,
    pub wall_side: Option<&'static str>,
    pub forward_clearance_blocked: bool,
    pub dust_container_full: bool,
    pub wheel_stuck: bool,
    pub brush_stuck: bool,
    pub top_cover_open: bool,
}

/// The status as the status API reports it; states, modes, errors and
/// phases are given by name.
#[derive(Clone, Copy, Debug, PartialEq, Eq)]
pub struct RobotStatusResponse {
    pub state: &'static str,
    pub cleaning_mode: &'static str,
    pub battery_percent: u8,
    pub is_charging: bool,
    pub suction_enabled: bool,
    pub brushes_enabled: bool,
    pub left_wheel_speed: i16,
    pub right_wheel_speed: i16,
    pub current_error: Option<&'static str>,
    pub auto_navigation_phase: Option<&'static str>,
    pub sensors: SensorSnapshotResponse,
}

/// Where a log was saved, relative to the working directory.
#[derive(Clone, Debug)]
pub struct SavedPathResponse {
    pub saved_path: String,
}

/// The reported form of a sensor reading.
pub open spec fn sensor_response_of(s: SensorSnapshot) -> SensorSnapshotResponse {
    SensorSnapshotResponse {
        obstacle_detected: s.obstacle_detected,
        drop_off_detected: s.drop_off_detected,
        bumper_pressed: s.bumper_pressed,
        proximity_contact: s.proximity_contact,
        contact_type: match s.contact_type {
            Some(c) => Some(c.name()),
            None => None,
        },
        wall_side: match s.wall_side {
            Some(w) => Some(w.name()),
            None => None,
        },
        forward_clearance_blocked: s.forward_clearance_blocked,
        dust_container_full: s.dust_container_full,
        wheel_stuck: s.wheel_stuck,
        brush_stuck: s.brush_stuck,
        top_cover_open: s.top_cover_open,
    }
}

impl vstd::std_specs::convert::FromSpecImpl<RobotStatus> for RobotStatusResponse {
    open spec fn obeys_from_spec() -> bool {
        true
    }

    open spec fn from_spec(v: RobotStatus) -> RobotStatusResponse {
        RobotStatusResponse {
            state: v.state.name(),
            cleaning_mode: v.cleaning_mode.name(),
            battery_percent: v.battery_percent,
            is_charging: v.is_charging,
            suction_enabled: v.suction_enabled,
            brushes_enabled: v.brushes_enabled,
            left_wheel_speed: v.left_wheel_speed,
            right_wheel_speed: v.right_wheel_speed,
            current_error: match v.current_error {
                Some(e) => Some(e.name()),
                None => None,
            },
            auto_navigation_phase: match v.auto_navigation_phase {
                Some(p) => Some(p.name()),
                None => None,
            },
            sensors: sensor_response_of(v.sensors),
        }
    }
}

impl From<RobotStatus> for RobotStatusResponse {
    fn from(value: RobotStatus) -> (r: RobotStatusResponse) {
        let sensors = value.sensors;
        RobotStatusResponse {
            state: value.state.as_str(),
            cleaning_mode: value.cleaning_mode.as_str(),
            battery_percent: value.battery_percent,
            is_charging: value.is_charging,
            suction_enabled: value.suction_enabled,
            brushes_enabled: value.brushes_enabled,
            left_wheel_speed: value.left_wheel_speed,
            right_wheel_speed: value.right_wheel_speed,
            current_error: match value.current_error {
                Some(e) => Some(e.as_str()),
                None => None,
            },
            auto_navigation_phase: match value.auto_navigation_phase {
                Some(p) => Some(p.as_str()),
                None => None,
            },
            sensors: SensorSnapshotResponse {
                obstacle_detected: sensors.obstacle_detected,
                drop_off_detected: sensors.drop_off_detected,
                bumper_pressed: sensors.bumper_pressed,
                proximity_contact: sensors.proximity_contact,
                contact_type: match sensors.contact_type {
                    Some(c) => Some(c.as_str()),
                    None => None,
                },
                wall_side: match sensors.wall_side {
                    Some(w) => Some(w.as_str()),
                    None => None,
                },
                forward_clearance_blocked: sensors.forward_clearance_blocked,
                dust_container_full: sensors.dust_container_full,
                wheel_stuck: sensors.wheel_stuck,
                brush_stuck: sensors.brush_stuck,
                top_cover_open: sensors.top_cover_open,
            },
        }
    }
}

} // verus!
