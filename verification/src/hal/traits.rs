use vstd::prelude::*;

use crate::domain::models::SensorSnapshot;

verus! {

/// A reading of the battery.
#[derive(Clone, Copy, Debug, PartialEq, Eq, Structural)]
pub struct BatteryStatus {
    pub percentage: u8,
    pub charging: bool,
}

/// A reading of the docking station.
#[derive(Clone, Copy, Debug, PartialEq, Eq, Structural)]
pub struct DockingStatus {
    pub dock_available: bool,
    pub dock_detected: bool,
}

/// The two drive wheels. An implementation keeps the speeds it was last given.
pub trait WheelMotorDriver {
    /// The (left, right) speeds the wheels run at.
    spec fn speeds(&self) -> (i16, i16);

    /// Drives the wheels at the given speeds.
    fn set_wheel_speeds(&mut self, left_speed: i16, right_speed: i16)
        ensures
            final(self).speeds() == (left_speed, right_speed),
    ;

    /// Reads back the (left, right) speeds.
    fn wheel_speeds(&self) -> (r: (i16, i16))
        ensures
            r == self.speeds(),
    ;

    /// Brings both wheels to a halt.
    fn stop(&mut self)
        ensures
            final(self).speeds() == (0i16, 0i16),
    {
        self.set_wheel_speeds(0, 0);
    }
}

/// The suction motor.
pub trait SuctionDriver {
    /// Whether the motor runs.
    spec fn running(&self) -> bool;

    /// Switches the motor on or off.
    fn set_running(&mut self, running: bool)
        ensures
            final(self).running() == running,
    ;

    /// Reads back whether the motor runs.
    fn is_running(&self) -> (r: bool)
        ensures
            r == self.running(),
    ;
}

/// The brush motors.
pub trait BrushDriver {
    /// Whether the brushes run.
    spec fn running(&self) -> bool;

    /// Switches the brushes on or off.
    fn set_running(&mut self, running: bool)
        ensures
            final(self).running() == running,
    ;

    /// Reads back whether the brushes run.
    fn is_running(&self) -> (r: bool)
        ensures
            r == self.running(),
    ;
}

/// The robot's sensors.
pub trait SensorReader {
    /// What the sensors currently report.
    spec fn snapshot(&self) -> SensorSnapshot;

    /// Reads every sensor.
    fn read_sensors(&self) -> (r: SensorSnapshot)
        ensures
            r == self.snapshot(),
    ;
}

/// The battery and its charger.
pub trait BatteryDriver {
    /// What the battery currently reports.
    spec fn status(&self) -> BatteryStatus;

    /// Reads the battery.
    fn read_battery(&self) -> (r: BatteryStatus)
        ensures
            r == self.status(),
    ;

    /// Switches charging on or off; the charge level is left as it is.
    fn set_charging(&mut self, charging: bool)
        ensures
            final(self).status() == (BatteryStatus {
                percentage: old(self).status().percentage,
                charging,
            }),
    ;
}

/// The docking station link.
pub trait DockingDriver {
    /// What the docking link currently reports.
    spec fn status(&self) -> DockingStatus;

    /// Reads the docking link.
    fn read_docking(&self) -> (r: DockingStatus)
        ensures
            r == self.status(),
    ;
}

/// A millisecond clock.
pub trait Clock {
    /// The current time in milliseconds.
    spec fn now(&self) -> u64;

    /// Reads the clock.
    fn now_millis(&self) -> (r: u64)
        ensures
            r == self.now(),
    ;
}

} // verus!
