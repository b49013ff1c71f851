pub mod models;
pub mod state_machine;

pub use models::{
    AutoNavigationPhase, CleaningMode, ContactType, DomainError, ErrorKind, ManualDirection,
    RobotCommand, RobotError, RobotState, RobotStatus, SensorSnapshot, WallSide,
};
pub use state_machine::RobotStateMachine;
