use vstd::prelude::*;

use crate::hal::traits::{BatteryDriver, BatteryStatus};

verus! {

/// Judgements on battery readings.
#[derive(Debug, Default)]
pub struct BatteryManager;

impl BatteryManager {
    /// At or below this charge level the battery counts as low.
    pub const LOW_BATTERY_THRESHOLD: u8 = 15;

    /// Reads the battery through its driver.
    pub fn read<D: BatteryDriver>(&self, driver: &D) -> (r: BatteryStatus)
        ensures
            r == driver.status(),
    {
        driver.read_battery()
    }

    /// Whether the charge is at or below `LOW_BATTERY_THRESHOLD`.
    pub fn is_low(&self, status: BatteryStatus) -> (r: bool)
        ensures
            r == (status.percentage <= Self::LOW_BATTERY_THRESHOLD),
    {
        status.percentage <= Self::LOW_BATTERY_THRESHOLD
    }

    /// Whether the battery is full.
    pub fn is_full(&self, status: BatteryStatus) -> (r: bool)
        ensures
            r == (status.percentage >= 100),
    {
        status.percentage >= 100
    }

    /// Whether the battery is charging.
    pub fn is_charging(&self, status: BatteryStatus) -> (r: bool)
        ensures
            r == status.charging,
    {
        status.charging
    }
}

} // verus!
