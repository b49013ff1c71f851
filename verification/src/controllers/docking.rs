use vstd::prelude::*;

use crate::hal::traits::{DockingDriver, DockingStatus, WheelMotorDriver};

verus! {

/// The wheel speed at which the robot heads for its dock.
pub const RETURN_TO_DOCK_SPEED: i16 = 30;

/// Guidance towards the docking station.
#[derive(Debug, Default)]
pub struct DockingManager;

impl DockingManager {
    /// Drives straight towards the dock.
    pub fn start_return_to_dock<W: WheelMotorDriver>(&self, wheel_driver: &mut W)
        ensures
            final(wheel_driver).speeds() == (RETURN_TO_DOCK_SPEED, RETURN_TO_DOCK_SPEED),
    {
        wheel_driver.set_wheel_speeds(RETURN_TO_DOCK_SPEED, RETURN_TO_DOCK_SPEED);
    }

    /// Reads the docking link.
    pub fn read<D: DockingDriver>(&self, docking_driver: &D) -> (r: DockingStatus)
        ensures
            r == docking_driver.status(),
    {
        docking_driver.read_docking()
    }
}

} // verus!
