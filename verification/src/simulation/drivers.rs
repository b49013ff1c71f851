use vstd::prelude::*;

use crate::domain::models::{ContactType, SensorSnapshot, WallSide};
use crate::hal::traits::{
    BatteryDriver, BatteryStatus, BrushDriver, Clock, DockingDriver, DockingStatus, SensorReader,
    SuctionDriver, WheelMotorDriver,
};

verus! {

/// Wheels that hold the speeds they are given.
#[derive(Clone, Debug)]
pub struct SimulatedWheelMotorDriver {
    pub left_speed: i16,
    pub right_speed: i16,
}

impl Default for SimulatedWheelMotorDriver {
    fn default() -> (r: SimulatedWheelMotorDriver)
        ensures
            r.left_speed == 0 && r.right_speed == 0,
    {
        SimulatedWheelMotorDriver { left_speed: 0, right_speed: 0 }
    }
}

impl WheelMotorDriver for SimulatedWheelMotorDriver {
    open spec fn speeds(&self) -> (i16, i16) {
        (self.left_speed, self.right_speed)
    }

    fn set_wheel_speeds(&mut self, left_speed: i16, right_speed: i16) {
        self.left_speed = left_speed;
        self.right_speed = right_speed;
    }

    fn wheel_speeds(&self) -> (r: (i16, i16)) {
        (self.left_speed, self.right_speed)
    }
}

/// A suction motor that is on or off as it is told.
#[derive(Clone, Debug)]
pub struct SimulatedSuctionDriver {
    pub running: bool,
}

impl Default for SimulatedSuctionDriver {
    fn default() -> (r: SimulatedSuctionDriver)
        ensures
            !r.running,
    {
        SimulatedSuctionDriver { running: false }
    }
}

impl SuctionDriver for SimulatedSuctionDriver {
    open spec fn running(&self) -> bool {
        self.running
    }

    fn set_running(&mut self, running: bool) {
        self.running = running;
    }

    fn is_running(&self) -> (r: bool) {
        self.running
    }
}

/// Brushes that are on or off as they are told.
#[derive(Clone, Debug)]
pub struct SimulatedBrushDriver {
    pub running: bool,
}

impl Default for SimulatedBrushDriver {
    fn default() -> (r: SimulatedBrushDriver)
        ensures
            !r.running,
    {
        SimulatedBrushDriver { running: false }
    }
}

impl BrushDriver for SimulatedBrushDriver {
    open spec fn running(&self) -> bool {
        self.running
    }

    fn set_running(&mut self, running: bool) {
        self.running = running;
    }

    fn is_running(&self) -> (r: bool) {
        self.running
    }
}

/// Sensors whose readings are set by the simulation.
#[derive(Clone, Debug)]
pub struct SimulatedSensorReader {
    pub obstacle_detected: bool,
    pub drop_off_detected: bool,
    pub bumper_pressed: bool,
    pub proximity_contact: bool,
    pub contact_type: Option<ContactType>,
    pub wall_side: Option<WallSide>,
    pub forward_clearance_blocked: bool,
    pub dust_container_full: bool,
    pub wheel_stuck: bool,
    pub brush_stuck: bool,
    pub top_cover_open: bool,
}

impl Default for SimulatedSensorReader {
    fn default() -> (r: SimulatedSensorReader)
        ensures
            r.snapshot() == SensorSnapshot::quiet(),
    {
        SimulatedSensorReader {
            obstacle_detected: false,
            drop_off_detected: false,
            bumper_pressed: false,
            proximity_contact: false,
            contact_type: None,
            wall_side: None,
            forward_clearance_blocked: false,
            dust_container_full: false,
            wheel_stuck: false,
            brush_stuck: false,
            top_cover_open: false,
        }
    }
}

impl SimulatedSensorReader {
    /// Makes every sensor report what `snapshot` holds.
    pub fn set_snapshot(&mut self, snapshot: SensorSnapshot)
        ensures
            final(self).snapshot() == snapshot,
    {
        self.obstacle_detected = snapshot.obstacle_detected;
        self.drop_off_detected = snapshot.drop_off_detected;
        self.bumper_pressed = snapshot.bumper_pressed;
        self.proximity_contact = snapshot.proximity_contact;
        self.contact_type = snapshot.contact_type;
        self.wall_side = snapshot.wall_side;
        self.forward_clearance_blocked = snapshot.forward_clearance_blocked;
        self.dust_container_full = snapshot.dust_container_full;
        self.wheel_stuck = snapshot.wheel_stuck;
        self.brush_stuck = snapshot.brush_stuck;
        self.top_cover_open = snapshot.top_cover_open;
    }
}

impl SensorReader for SimulatedSensorReader {
    open spec fn snapshot(&self) -> SensorSnapshot {
        SensorSnapshot {
            obstacle_detected: self.obstacle_detected,
            drop_off_detected: self.drop_off_detected,
            bumper_pressed: self.bumper_pressed,
            proximity_contact: self.proximity_contact,
            contact_type: self.contact_type,
            wall_side: self.wall_side,
            forward_clearance_blocked: self.forward_clearance_blocked,
            dust_container_full: self.dust_container_full,
            wheel_stuck: self.wheel_stuck,
            brush_stuck: self.brush_stuck,
            top_cover_open: self.top_cover_open,
        }
    }

    fn read_sensors(&self) -> (r: SensorSnapshot) {
        SensorSnapshot {
            obstacle_detected: self.obstacle_detected,
            drop_off_detected: self.drop_off_detected,
            bumper_pressed: self.bumper_pressed,
            proximity_contact: self.proximity_contact,
            contact_type: self.contact_type,
            wall_side: self.wall_side,
            forward_clearance_blocked: self.forward_clearance_blocked,
            dust_container_full: self.dust_container_full,
            wheel_stuck: self.wheel_stuck,
            brush_stuck: self.brush_stuck,
            top_cover_open: self.top_cover_open,
        }
    }
}

/// A battery whose charge level is set by the simulation.
#[derive(Clone, Debug)]
pub struct SimulatedBatteryDriver {
    pub percentage: u8,
    pub charging: bool,
}

impl SimulatedBatteryDriver {
    /// A battery at `percentage`, not charging.
    pub fn new(percentage: u8) -> (r: SimulatedBatteryDriver)
        ensures
            r.percentage == percentage,
            !r.charging,
    {
        SimulatedBatteryDriver { percentage, charging: false }
    }

    /// Sets the charge level, capped at 100.
    pub fn set_percentage(&mut self, percentage: u8)
        ensures
            final(self).percentage == (if percentage <= 100 { percentage } else { 100 }),
            final(self).charging == old(self).charging,
    {
        self.percentage = if percentage <= 100 {
            percentage
        } else {
            100
        };
    }
}

impl BatteryDriver for SimulatedBatteryDriver {
    open spec fn status(&self) -> BatteryStatus {
        BatteryStatus { percentage: self.percentage, charging: self.charging }
    }

    fn read_battery(&self) -> (r: BatteryStatus) {
        BatteryStatus { percentage: self.percentage, charging: self.charging }
    }

    fn set_charging(&mut self, charging: bool) {
        self.charging = charging;
    }
}

/// A docking station link whose readings are set by the simulation.
#[derive(Clone, Debug)]
pub struct SimulatedDockingDriver {
    pub dock_available: bool,
    pub dock_detected: bool,
}

impl SimulatedDockingDriver {
    /// A link to a dock that is or is not available, not yet detected.
    pub fn new(dock_available: bool) -> (r: SimulatedDockingDriver)
        ensures
            r.dock_available == dock_available,
            !r.dock_detected,
    {
        SimulatedDockingDriver { dock_available, dock_detected: false }
    }

    /// Sets whether the dock is detected.
    pub fn set_dock_detected(&mut self, dock_detected: bool)
        ensures
            final(self).dock_detected == dock_detected,
            final(self).dock_available == old(self).dock_available,
    {
        self.dock_detected = dock_detected;
    }

    /// Sets whether the dock is available.
    pub fn set_dock_available(&mut self, dock_available: bool)
        ensures
            final(self).dock_available == dock_available,
            final(self).dock_detected == old(self).dock_detected,
    {
        self.dock_available = dock_available;
    }
}

impl DockingDriver for SimulatedDockingDriver {
    open spec fn status(&self) -> DockingStatus {
        DockingStatus { dock_available: self.dock_available, dock_detected: self.dock_detected }
    }

    fn read_docking(&self) -> (r: DockingStatus) {
        DockingStatus { dock_available: self.dock_available, dock_detected: self.dock_detected }
    }
}

/// A clock that only moves when the simulation advances it.
#[derive(Clone, Debug)]
pub struct SimulatedClock {
    pub current_time_ms: u64,
}

impl Default for SimulatedClock {
    fn default() -> (r: SimulatedClock)
        ensures
            r.current_time_ms == 0,
    {
        SimulatedClock { current_time_ms: 0 }
    }
}

impl SimulatedClock {
    /// Moves the clock forward by `delta_ms`, stopping at `u64::MAX`.
    pub fn advance_ms(&mut self, delta_ms: u64)
        ensures
            final(self).current_time_ms == (if old(self).current_time_ms + delta_ms <= u64::MAX {
                (old(self).current_time_ms + delta_ms) as u64
            } else {
                u64::MAX
            }),
    {
        self.current_time_ms = self.current_time_ms.saturating_add(delta_ms);
    }

    /// Sets the clock to `value`.
    pub fn set_time_ms(&mut self, value: u64)
        ensures
            final(self).current_time_ms == value,
    {
        self.current_time_ms = value;
    }
}

impl Clock for SimulatedClock {
    open spec fn now(&self) -> u64 {
        self.current_time_ms
    }

    fn now_millis(&self) -> (r: u64) {
        self.current_time_ms
    }
}

} // verus!
