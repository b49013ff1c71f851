pub mod traits;

pub use traits::{
    BatteryDriver, BatteryStatus, BrushDriver, Clock, DockingDriver, DockingStatus, SensorReader,
    SuctionDriver, WheelMotorDriver,
};
