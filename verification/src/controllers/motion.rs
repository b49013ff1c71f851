use vstd::prelude::*;

use crate::domain::models::ManualDirection;
use crate::hal::traits::WheelMotorDriver;

verus! {

/// The (left, right) wheel speeds for moving in `direction` at `speed`:
/// both forward, both backward, spinning left or right in place, or halted.
pub open spec fn direction_speeds(direction: ManualDirection, speed: u8) -> (i16, i16) {
    let s = speed as i16;
    match direction {
        ManualDirection::Forward => (s, s),
        ManualDirection::Backward => ((-s) as i16, (-s) as i16),
        ManualDirection::Left => ((-s) as i16, s),
        ManualDirection::Right => (s, (-s) as i16),
        ManualDirection::Stop => (0i16, 0i16),
    }
}

/// Turns movement requests into wheel speeds.
#[derive(Debug, Default)]
pub struct MotionController;

impl MotionController {
    /// Drives the wheels in `direction` at `speed`.
    pub fn move_direction<D: WheelMotorDriver>(
        &self,
        driver: &mut D,
        direction: ManualDirection,
        speed: u8,
    )
        ensures
            final(driver).speeds() == direction_speeds(direction, speed),
    {
        let speed = speed as i16;
        let (left, right) = match direction {
            ManualDirection::Forward => (speed, speed),
            ManualDirection::Backward => (-speed, -speed),
            ManualDirection::Left => (-speed, speed),
            ManualDirection::Right => (speed, -speed),
            ManualDirection::Stop => (0, 0),
        };
        driver.set_wheel_speeds(left, right);
    }

    /// Halts the wheels.
    pub fn stop<D: WheelMotorDriver>(&self, driver: &mut D)
        ensures
            final(driver).speeds() == (0i16, 0i16),
    {
        driver.stop();
    }
}

} // verus!
