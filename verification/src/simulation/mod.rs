pub mod drivers;

use vstd::prelude::*;

use crate::application::controller::{RobotController, RobotModel};
use crate::application::navigation::initial_nav;
use crate::domain::models::{CleaningMode, RobotState, SensorSnapshot};
use crate::hal::traits::{BatteryStatus, DockingStatus};

pub use drivers::{
    SimulatedBatteryDriver, SimulatedBrushDriver, SimulatedClock, SimulatedDockingDriver,
    SimulatedSensorReader, SimulatedSuctionDriver, SimulatedWheelMotorDriver,
};

verus! {

/// The starting conditions of a simulated robot.
#[derive(Clone, Copy, Debug)]
pub struct SimulationConfig {
    pub initial_battery_percent: u8,
    pub dock_available: bool,
}

impl Default for SimulationConfig {
    /// 80 % battery and an available dock.
    fn default() -> (r: SimulationConfig)
        ensures
            r.initial_battery_percent == 80,
            r.dock_available,
    {
        SimulationConfig { initial_battery_percent: 80, dock_available: true }
    }
}

/// A controller over the simulated drivers.
pub type SimulationRobotController = RobotController<
    SimulatedWheelMotorDriver,
    SimulatedSuctionDriver,
    SimulatedBrushDriver,
    SimulatedSensorReader,
    SimulatedBatteryDriver,
    SimulatedDockingDriver,
    SimulatedClock,
>;

/// The model of a freshly built simulated robot.
pub open spec fn fresh_simulation(config: SimulationConfig) -> RobotModel {
    RobotModel {
        state: RobotState::Standby,
        cleaning_mode: CleaningMode::Auto,
        current_error: None,
        manual_move_deadline_ms: None,
        nav: initial_nav(),
        wheels: (0i16, 0i16),
        suction: false,
        brushes: false,
        battery: BatteryStatus { percentage: config.initial_battery_percent, charging: false },
        docking: DockingStatus { dock_available: config.dock_available, dock_detected: false },
        sensors: SensorSnapshot::quiet(),
        now: 0,
    }
}

/// A simulated robot in `STANDBY` at time zero with quiet sensors, the
/// configured battery level and dock availability.
pub fn create_simulation_controller(config: SimulationConfig) -> (r: SimulationRobotController)
    ensures
        r.wf(),
        r.model() == fresh_simulation(config),
{
    RobotController::new(
        SimulatedWheelMotorDriver::default(),
        SimulatedSuctionDriver::default(),
        SimulatedBrushDriver::default(),
        SimulatedSensorReader::default(),
        SimulatedBatteryDriver::new(config.initial_battery_percent),
        SimulatedDockingDriver::new(config.dock_available),
        SimulatedClock::default(),
    )
}

/// Replaces the simulated robot by a fresh one built from `config`.
pub fn reset_simulation_controller(
    controller: &mut SimulationRobotController,
    config: SimulationConfig,
)
    ensures
        final(controller).wf(),
        final(controller).model() == fresh_simulation(config),
{
    *controller = create_simulation_controller(config);
}

} // verus!
