pub mod battery;
pub mod cleaning;
pub mod docking;
pub mod motion;
pub mod safety;

pub use battery::BatteryManager;
pub use cleaning::CleaningController;
pub use docking::DockingManager;
pub use motion::MotionController;
pub use safety::SafetyManager;
