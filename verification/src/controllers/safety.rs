use vstd::prelude::*;

use crate::domain::models::{RobotError, SensorSnapshot};
use crate::hal::traits::{BrushDriver, SuctionDriver, WheelMotorDriver};

verus! {

/// The critical error that a sensor reading signals, by priority: a drop-off
/// first, then stuck wheels, stuck brushes, and an open top cover. A full dust
/// container is not critical on its own.
pub open spec fn critical_error(sensors: SensorSnapshot) -> Option<RobotError> {
    if sensors.drop_off_detected {
        Some(RobotError::DropOffDetected)
    } else if sensors.wheel_stuck {
        Some(RobotError::WheelStuck)
    } else if sensors.brush_stuck {
        Some(RobotError::BrushStuck)
    } else if sensors.top_cover_open {
        Some(RobotError::TopCoverOpen)
    } else {
        None
    }
}

/// Detection of unsafe conditions and the emergency stop.
#[derive(Debug, Default)]
pub struct SafetyManager;

impl SafetyManager {
    /// The critical error that `sensors` signals, if any.
    pub fn detect_critical_error(&self, sensors: &SensorSnapshot) -> (r: Option<RobotError>)
        ensures
            r == critical_error(*sensors),
    {
        if sensors.drop_off_detected {
            Some(RobotError::DropOffDetected)
        } else if sensors.wheel_stuck {
            Some(RobotError::WheelStuck)
        } else if sensors.brush_stuck {
            Some(RobotError::BrushStuck)
        } else if sensors.top_cover_open {
            Some(RobotError::TopCoverOpen)
        } else {
            None
        }
    }

    /// Stops the wheels, the suction and the brushes.
    pub fn stop_all<W: WheelMotorDriver, S: SuctionDriver, B: BrushDriver>(
        &self,
        wheel_driver: &mut W,
        suction_driver: &mut S,
        brush_driver: &mut B,
    )
        ensures
            final(wheel_driver).speeds() == (0i16, 0i16),
            !final(suction_driver).running(),
            !final(brush_driver).running(),
    {
        wheel_driver.stop();
        suction_driver.set_running(false);
        brush_driver.set_running(false);
    }
}

} // verus!
