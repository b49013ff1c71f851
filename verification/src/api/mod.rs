pub mod error;
pub mod log_dump;
pub mod models;
pub mod routes;
pub mod text;

pub use error::ApiError;
pub use models::{
    BatchStopConditionsRequest, CleaningModeRequest, CoverageCellRequest, ErrorResponse,
    ManualDirectionRequest, ManualMoveRequest, RobotStatusResponse, SavedPathResponse,
    SensorSnapshotResponse, SensorSnapshotResponseInput, SetModeRequest,
    SimulationBatteryRequest, SimulationDockingRequest, SimulationResetRequest,
    SimulationSensorsRequest, SimulationTickRequest,
};
