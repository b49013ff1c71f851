use vstd::prelude::*;

use crate::domain::models::SensorSnapshot;
use crate::hal::traits::{BrushDriver, SuctionDriver};

verus! {

/// Switches the cleaning actuators.
#[derive(Debug, Default)]
pub struct CleaningController;

impl CleaningController {
    /// Switches suction and brushes on.
    pub fn start_cleaning<S: SuctionDriver, B: BrushDriver>(
        &self,
        suction_driver: &mut S,
        brush_driver: &mut B,
    )
        ensures
            final(suction_driver).running(),
            final(brush_driver).running(),
    {
        suction_driver.set_running(true);
        brush_driver.set_running(true);
    }

    /// Switches suction and brushes off.
    pub fn stop_cleaning<S: SuctionDriver, B: BrushDriver>(
        &self,
        suction_driver: &mut S,
        brush_driver: &mut B,
    )
        ensures
            !final(suction_driver).running(),
            !final(brush_driver).running(),
    {
        suction_driver.set_running(false);
        brush_driver.set_running(false);
    }

    /// Switches suction and brushes off when the dust container is full, and
    /// otherwise leaves them as they are.
    pub fn react_to_dust_container_full<S: SuctionDriver, B: BrushDriver>(
        &self,
        sensors: &SensorSnapshot,
        suction_driver: &mut S,
        brush_driver: &mut B,
    )
        ensures
            sensors.dust_container_full ==> !final(suction_driver).running()
                && !final(brush_driver).running(),
            !sensors.dust_container_full ==> *final(suction_driver) == *old(suction_driver)
                && *final(brush_driver) == *old(brush_driver),
    {
        if sensors.dust_container_full {
            self.stop_cleaning(suction_driver, brush_driver);
        }
    }
}

} // verus!
