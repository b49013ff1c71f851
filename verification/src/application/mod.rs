pub mod command_laws;
pub mod controller;
pub mod laws;
pub mod navigation;

pub use controller::RobotController;
