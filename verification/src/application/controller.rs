use vstd::prelude::*;

use crate::application::navigation::{
    initial_nav, nav_motion, nav_step, reset_nav, enter_phase, AutoNavigation, NavModel,
};
use crate::controllers::docking::RETURN_TO_DOCK_SPEED;
use crate::controllers::motion::direction_speeds;
use crate::controllers::safety::critical_error;
use crate::controllers::{
    BatteryManager, CleaningController, DockingManager, MotionController, SafetyManager,
};
use crate::domain::models::{
    AutoNavigationPhase, CleaningMode, DomainError, ErrorKind, ManualDirection, RobotCommand,
    RobotError, RobotState, RobotStatus, SensorSnapshot,
};
use crate::domain::state_machine::RobotStateMachine;
use crate::hal::traits::{
    BatteryDriver, BatteryStatus, BrushDriver, Clock, DockingDriver, DockingStatus, SensorReader,
    SuctionDriver, WheelMotorDriver,
};

verus! {

/// Everything that determines how the robot behaves, as mathematical values:
/// its own state and what its drivers report.
#[verifier::ext_equal]
pub struct RobotModel {
    pub state: RobotState,
    pub cleaning_mode: CleaningMode,
    pub current_error: Option<RobotError>,
    pub manual_move_deadline_ms: Option<u64>,
    pub nav: NavModel,
    pub wheels: (i16, i16),
    pub suction: bool,
    pub brushes: bool,
    pub battery: BatteryStatus,
    pub docking: DockingStatus,
    pub sensors: SensorSnapshot,
    pub now: u64,
}

/// The status that a robot in model `m` reports. The navigation phase is
/// reported only while cleaning in the automatic mode.
pub open spec fn status_of(m: RobotModel) -> RobotStatus {
    RobotStatus {
        state: m.state,
        cleaning_mode: m.cleaning_mode,
        battery_percent: m.battery.percentage,
        is_charging: m.battery.charging,
        suction_enabled: m.suction,
        brushes_enabled: m.brushes,
        left_wheel_speed: m.wheels.0,
        right_wheel_speed: m.wheels.1,
        current_error: m.current_error,
        auto_navigation_phase: if m.state == RobotState::Cleaning && m.cleaning_mode
            == CleaningMode::Auto {
            Some(m.nav.phase)
        } else {
            None
        },
        sensors: m.sensors,
    }
}

/// Wheels, suction and brushes stopped.
pub open spec fn stop_all_model(m: RobotModel) -> RobotModel {
    RobotModel { wheels: (0i16, 0i16), suction: false, brushes: false, ..m }
}

/// Charging switched off.
pub open spec fn not_charging(m: RobotModel) -> RobotModel {
    RobotModel { battery: BatteryStatus { percentage: m.battery.percentage, charging: false }, ..m }
}

/// The fail-safe reaction to `error`: every actuator stopped, charging off,
/// the error recorded, any manual move and the navigation pattern cancelled,
/// the automatic mode selected, and the robot in `ERROR`.
pub open spec fn fail_safe_model(m: RobotModel, error: RobotError) -> RobotModel {
    RobotModel {
        current_error: Some(error),
        manual_move_deadline_ms: None,
        cleaning_mode: CleaningMode::Auto,
        nav: reset_nav(m.now),
        state: RobotState::Error,
        ..not_charging(stop_all_model(m))
    }
}

/// A manual move whose deadline has passed ends: wheels stopped, the robot
/// back in `STANDBY` in the automatic mode.
pub open spec fn expire_manual_move(m: RobotModel) -> RobotModel {
    if m.state == RobotState::ManualControl && m.manual_move_deadline_ms.is_some()
        && m.now >= m.manual_move_deadline_ms.unwrap() {
        RobotModel {
            wheels: (0i16, 0i16),
            manual_move_deadline_ms: None,
            state: RobotState::Standby,
            cleaning_mode: CleaningMode::Auto,
            ..m
        }
    } else {
        m
    }
}

/// Cleaning with a low battery turns into a return to the dock.
pub open spec fn low_battery_return(m: RobotModel) -> RobotModel {
    if m.state == RobotState::Cleaning && m.battery.percentage <= BatteryManager::LOW_BATTERY_THRESHOLD {
        RobotModel {
            suction: false,
            brushes: false,
            wheels: (RETURN_TO_DOCK_SPEED, RETURN_TO_DOCK_SPEED),
            manual_move_deadline_ms: None,
            state: RobotState::ReturningToDock,
            ..m
        }
    } else {
        m
    }
}

/// Automatic cleaning advances the navigation pattern and drives its wheels.
pub open spec fn auto_navigation_model(m: RobotModel) -> RobotModel {
    if m.state == RobotState::Cleaning && m.cleaning_mode == CleaningMode::Auto {
        let nav = nav_step(m.nav, m.sensors, m.now);
        RobotModel { nav, wheels: nav_motion(nav), ..m }
    } else {
        m
    }
}

/// Reaching the dock stops the wheels and starts charging.
pub open spec fn dock_arrival(m: RobotModel) -> RobotModel {
    if m.state == RobotState::ReturningToDock && m.docking.dock_detected {
        RobotModel {
            wheels: (0i16, 0i16),
            battery: BatteryStatus { percentage: m.battery.percentage, charging: true },
            state: RobotState::Charging,
            ..m
        }
    } else {
        m
    }
}

/// A full battery ends charging: back to `STANDBY` in the automatic mode.
pub open spec fn charge_complete(m: RobotModel) -> RobotModel {
    if m.state == RobotState::Charging && m.battery.percentage >= 100 {
        RobotModel {
            battery: BatteryStatus { percentage: m.battery.percentage, charging: false },
            state: RobotState::Standby,
            cleaning_mode: CleaningMode::Auto,
            ..m
        }
    } else {
        m
    }
}

/// One periodic update of the robot. A critical sensor condition, or a full
/// dust container while cleaning, triggers the fail-safe and nothing else;
/// otherwise an expired manual move ends, a low battery while cleaning sends
/// the robot home, automatic cleaning advances its pattern, reaching the dock
/// starts charging, and a full battery ends charging, in this order.
pub open spec fn tick_model(m: RobotModel) -> RobotModel {
    match critical_error(m.sensors) {
        Some(error) => fail_safe_model(m, error),
        None => {
            if m.state == RobotState::Cleaning && m.sensors.dust_container_full {
                fail_safe_model(m, RobotError::DustContainerFull)
            } else {
                charge_complete(
                    dock_arrival(auto_navigation_model(low_battery_return(expire_manual_move(m)))),
                )
            }
        },
    }
}

/// How a command was refused: its kind, code, message and the state that
/// is reported with it.
pub struct Rejection {
    pub kind: ErrorKind,
    pub code: &'static str,
    pub message: Seq<char>,
    pub current_state: Option<RobotState>,
}

/// A refusal because the request is malformed.
pub open spec fn bad_request(code: &'static str, message: Seq<char>) -> Rejection {
    Rejection { kind: ErrorKind::BadRequest, code, message, current_state: None }
}

/// A refusal because the robot's state does not allow the request.
pub open spec fn conflict(code: &'static str, message: Seq<char>, state: RobotState) -> Rejection {
    Rejection { kind: ErrorKind::Conflict, code, message, current_state: Some(state) }
}

/// Whether `e` is the refusal `j`.
pub open spec fn is_rejection(e: DomainError, j: Rejection) -> bool {
    &&& e.kind == j.kind
    &&& e.code == j.code
    &&& e.message@ == j.message
    &&& e.current_state == j.current_state
}

/// The outcome of a command: the new model, and the refusal if there is one.
/// A refused command (other than by the safety check) leaves the model as it was.
pub open spec fn outcome(m: RobotModel, j: Option<Rejection>) -> (RobotModel, Option<Rejection>) {
    (m, j)
}

/// `START_CLEANING`: allowed from `STANDBY` or `PAUSED` with a battery that is
/// not low; starts suction and brushes and the navigation pattern at room
/// crossing, in the automatic mode, with any error cleared.
pub open spec fn start_cleaning_model(m: RobotModel) -> (RobotModel, Option<Rejection>) {
    if !(m.state == RobotState::Standby || m.state == RobotState::Paused) {
        outcome(
            m,
            Some(
                conflict(
                    "COMMAND_NOT_ALLOWED",
                    "START_CLEANING is only allowed from STANDBY or PAUSED"@,
                    m.state,
                ),
            ),
        )
    } else if m.battery.percentage <= BatteryManager::LOW_BATTERY_THRESHOLD {
        outcome(
            m,
            Some(conflict("BATTERY_TOO_LOW", "Battery is too low to start cleaning"@, m.state)),
        )
    } else {
        let nav = enter_phase(reset_nav(m.now), AutoNavigationPhase::RoomCrossing, m.now);
        outcome(
            RobotModel {
                battery: BatteryStatus { percentage: m.battery.percentage, charging: false },
                suction: true,
                brushes: true,
                cleaning_mode: CleaningMode::Auto,
                manual_move_deadline_ms: None,
                nav,
                wheels: nav_motion(nav),
                current_error: None,
                state: RobotState::Cleaning,
                ..m
            },
            None,
        )
    }
}

/// `STOP_CLEANING`: allowed while cleaning, paused, under manual control or
/// returning to the dock; stops everything and goes to `STANDBY` in the
/// automatic mode.
pub open spec fn stop_cleaning_model(m: RobotModel) -> (RobotModel, Option<Rejection>) {
    if !(m.state == RobotState::Cleaning || m.state == RobotState::Paused || m.state
        == RobotState::ManualControl || m.state == RobotState::ReturningToDock) {
        outcome(
            m,
            Some(
                conflict(
                    "COMMAND_NOT_ALLOWED",
                    "STOP_CLEANING is not allowed in the current state"@,
                    m.state,
                ),
            ),
        )
    } else {
        outcome(
            RobotModel {
                manual_move_deadline_ms: None,
                cleaning_mode: CleaningMode::Auto,
                nav: reset_nav(m.now),
                state: RobotState::Standby,
                ..not_charging(stop_all_model(m))
            },
            None,
        )
    }
}

/// `PAUSE_CLEANING`: allowed while cleaning or under manual control; stops
/// everything and goes to `PAUSED`, keeping the mode.
pub open spec fn pause_cleaning_model(m: RobotModel) -> (RobotModel, Option<Rejection>) {
    if !(m.state == RobotState::Cleaning || m.state == RobotState::ManualControl) {
        outcome(
            m,
            Some(
                conflict(
                    "COMMAND_NOT_ALLOWED",
                    "PAUSE_CLEANING is only allowed while actively moving"@,
                    m.state,
                ),
            ),
        )
    } else {
        outcome(
            RobotModel {
                manual_move_deadline_ms: None,
                nav: reset_nav(m.now),
                state: RobotState::Paused,
                ..not_charging(stop_all_model(m))
            },
            None,
        )
    }
}

/// `RETURN_TO_DOCK`: allowed from standby, cleaning, paused or manual control
/// when the dock is available; stops suction and brushes and drives home.
pub open spec fn return_to_dock_model(m: RobotModel) -> (RobotModel, Option<Rejection>) {
    if !(m.state == RobotState::Standby || m.state == RobotState::Cleaning || m.state
        == RobotState::Paused || m.state == RobotState::ManualControl) {
        outcome(
            m,
            Some(
                conflict(
                    "COMMAND_NOT_ALLOWED",
                    "RETURN_TO_DOCK is not allowed in the current state"@,
                    m.state,
                ),
            ),
        )
    } else if !m.docking.dock_available {
        outcome(
            m,
            Some(conflict("DOCK_UNAVAILABLE", "Docking station is not available"@, m.state)),
        )
    } else {
        outcome(
            RobotModel {
                suction: false,
                brushes: false,
                wheels: (RETURN_TO_DOCK_SPEED, RETURN_TO_DOCK_SPEED),
                manual_move_deadline_ms: None,
                nav: reset_nav(m.now),
                state: RobotState::ReturningToDock,
                ..m
            },
            None,
        )
    }
}

/// `now + duration`, stopping at `u64::MAX`.
pub open spec fn deadline_after(now: u64, duration_ms: u64) -> u64 {
    now.saturating_add(duration_ms)
}

/// `MANUAL_MOVE`: the duration must be positive and the speed at most 100,
/// and positive unless the direction is `STOP`; allowed from standby, paused
/// or manual control. Stops suction and brushes, drives the wheels in the
/// direction, and sets the deadline at which the move ends.
pub open spec fn manual_move_model(
    m: RobotModel,
    direction: ManualDirection,
    speed: u8,
    duration_ms: u64,
) -> (RobotModel, Option<Rejection>) {
    if duration_ms == 0 {
        outcome(
            m,
            Some(
                bad_request(
                    "INVALID_DURATION",
                    "MANUAL_MOVE requires duration_ms greater than zero"@,
                ),
            ),
        )
    } else if speed > 100 {
        outcome(
            m,
            Some(bad_request("INVALID_SPEED", "MANUAL_MOVE speed must be in the range 0..=100"@)),
        )
    } else if direction != ManualDirection::Stop && speed == 0 {
        outcome(
            m,
            Some(
                bad_request(
                    "INVALID_SPEED",
                    "MANUAL_MOVE speed must be greater than zero for movement directions"@,
                ),
            ),
        )
    } else if !(m.state == RobotState::Standby || m.state == RobotState::Paused || m.state
        == RobotState::ManualControl) {
        outcome(
            m,
            Some(
                conflict(
                    "COMMAND_NOT_ALLOWED",
                    "MANUAL_MOVE is only allowed from STANDBY, PAUSED, or MANUAL_CONTROL"@,
                    m.state,
                ),
            ),
        )
    } else {
        outcome(
            RobotModel {
                suction: false,
                brushes: false,
                wheels: direction_speeds(direction, speed),
                cleaning_mode: CleaningMode::Manual,
                manual_move_deadline_ms: Some(deadline_after(m.now, duration_ms)),
                nav: reset_nav(m.now),
                state: RobotState::ManualControl,
                ..m
            },
            None,
        )
    }
}

/// `SET_CLEANING_MODE`: only the automatic mode is supported.
pub open spec fn set_cleaning_mode_model(m: RobotModel, mode: CleaningMode) -> (
    RobotModel,
    Option<Rejection>,
) {
    if mode != CleaningMode::Auto {
        outcome(
            m,
            Some(
                bad_request(
                    "UNSUPPORTED_MODE",
                    mode.name()@ + " is not supported in this implementation"@,
                ),
            ),
        )
    } else {
        outcome(RobotModel { cleaning_mode: CleaningMode::Auto, ..m }, None)
    }
}

/// `CLEAR_ERROR`: allowed only in `ERROR`, once no safety condition is active
/// and, for a full dust container, once it has been emptied; stops everything
/// and goes to `STANDBY` in the automatic mode with the error cleared.
pub open spec fn clear_error_model(m: RobotModel) -> (RobotModel, Option<Rejection>) {
    if m.state != RobotState::Error {
        outcome(
            m,
            Some(
                conflict("COMMAND_NOT_ALLOWED", "CLEAR_ERROR is only allowed from ERROR"@, m.state),
            ),
        )
    } else if critical_error(m.sensors).is_some() {
        outcome(
            m,
            Some(
                conflict(
                    "SAFETY_CONDITION_ACTIVE",
                    "Cannot clear error while "@ + critical_error(m.sensors).unwrap().name()@
                        + " is still active"@,
                    m.state,
                ),
            ),
        )
    } else if m.current_error == Some(RobotError::DustContainerFull)
        && m.sensors.dust_container_full {
        outcome(
            m,
            Some(
                conflict(
                    "DUST_CONTAINER_FULL",
                    "Cannot clear error while the dust container is still full"@,
                    m.state,
                ),
            ),
        )
    } else {
        outcome(
            RobotModel {
                current_error: None,
                cleaning_mode: CleaningMode::Auto,
                manual_move_deadline_ms: None,
                nav: reset_nav(m.now),
                state: RobotState::Standby,
                ..not_charging(stop_all_model(m))
            },
            None,
        )
    }
}

/// What a command does to a robot in model `m` once the safety checks have
/// passed.
pub open spec fn command_model(m: RobotModel, command: RobotCommand) -> (
    RobotModel,
    Option<Rejection>,
) {
    match command {
        RobotCommand::StartCleaning => start_cleaning_model(m),
        RobotCommand::StopCleaning => stop_cleaning_model(m),
        RobotCommand::PauseCleaning => pause_cleaning_model(m),
        RobotCommand::ReturnToDock => return_to_dock_model(m),
        RobotCommand::ManualMove { direction, speed, duration_ms } => manual_move_model(
            m,
            direction,
            speed,
            duration_ms,
        ),
        RobotCommand::SetCleaningMode(mode) => set_cleaning_mode_model(m, mode),
        RobotCommand::ClearError => clear_error_model(m),
        RobotCommand::GetStatus => outcome(m, None),
    }
}

/// What handling a command does. An active critical sensor condition, or a
/// full dust container while cleaning, triggers the fail-safe and refuses the
/// command; otherwise the command takes its effect or is refused.
pub open spec fn handle_command_model(m: RobotModel, command: RobotCommand) -> (
    RobotModel,
    Option<Rejection>,
) {
    match critical_error(m.sensors) {
        Some(error) => outcome(
            fail_safe_model(m, error),
            Some(
                conflict(
                    "SAFETY_CONDITION_ACTIVE",
                    "Cannot process command while safety condition "@ + error.name()@
                        + " is active"@,
                    RobotState::Error,
                ),
            ),
        ),
        None => {
            if m.state == RobotState::Cleaning && m.sensors.dust_container_full {
                outcome(
                    fail_safe_model(m, RobotError::DustContainerFull),
                    Some(
                        conflict(
                            "DUST_CONTAINER_FULL",
                            "Cannot process command while the dust container is full"@,
                            RobotState::Error,
                        ),
                    ),
                )
            } else {
                command_model(m, command)
            }
        },
    }
}

/// The robot's controller: it owns the drivers and decides, command by
/// command and tick by tick, what the actuators do.
#[derive(Debug)]
pub struct RobotController<W, S, B, Se, Bd, D, C> where
    W: WheelMotorDriver,
    S: SuctionDriver,
    B: BrushDriver,
    Se: SensorReader,
    Bd: BatteryDriver,
    D: DockingDriver,
    C: Clock,
 {
    state_machine: RobotStateMachine,
    motion_controller: MotionController,
    cleaning_controller: CleaningController,
    battery_manager: BatteryManager,
    docking_manager: DockingManager,
    safety_manager: SafetyManager,
    wheel_driver: W,
    suction_driver: S,
    brush_driver: B,
    sensor_reader: Se,
    battery_driver: Bd,
    docking_driver: D,
    clock: C,
    cleaning_mode: CleaningMode,
    current_error: Option<RobotError>,
    manual_move_deadline_ms: Option<u64>,
    nav: AutoNavigation,
}

impl<W, S, B, Se, Bd, D, C> RobotController<W, S, B, Se, Bd, D, C> where
    W: WheelMotorDriver,
    S: SuctionDriver,
    B: BrushDriver,
    Se: SensorReader,
    Bd: BatteryDriver,
    D: DockingDriver,
    C: Clock,
 {
    /// The model of the robot: its own state and what its drivers report.
    pub closed spec fn model(&self) -> RobotModel {
        RobotModel {
            state: self.state_machine.current(),
            cleaning_mode: self.cleaning_mode,
            current_error: self.current_error,
            manual_move_deadline_ms: self.manual_move_deadline_ms,
            nav: self.nav@,
            wheels: self.wheel_driver.speeds(),
            suction: self.suction_driver.running(),
            brushes: self.brush_driver.running(),
            battery: self.battery_driver.status(),
            docking: self.docking_driver.status(),
            sensors: self.sensor_reader.snapshot(),
            now: self.clock.now(),
        }
    }

    /// The robot is never in `OFF`: it starts in `STANDBY` and no transition
    /// leads to `OFF`.
    pub open spec fn wf(&self) -> bool {
        self.model().state != RobotState::Off
    }

    /// The wheel driver.
    pub closed spec fn wheels_spec(&self) -> W {
        self.wheel_driver
    }

    /// The suction driver.
    pub closed spec fn suction_spec(&self) -> S {
        self.suction_driver
    }

    /// The brush driver.
    pub closed spec fn brushes_spec(&self) -> B {
        self.brush_driver
    }

    /// The sensor reader.
    pub closed spec fn sensors_spec(&self) -> Se {
        self.sensor_reader
    }

    /// The battery driver.
    pub closed spec fn battery_spec(&self) -> Bd {
        self.battery_driver
    }

    /// The docking driver.
    pub closed spec fn docking_spec(&self) -> D {
        self.docking_driver
    }

    /// The clock.
    pub closed spec fn clock_spec(&self) -> C {
        self.clock
    }

    /// A controller over the given drivers: wheels stopped, suction, brushes
    /// and charging off, in `STANDBY`, automatic mode, no error, no manual
    /// move, and the navigation pattern idle; the sensor reader, docking driver
    /// and clock are kept as given.
    pub fn new(
        wheel_driver: W,
        suction_driver: S,
        brush_driver: B,
        sensor_reader: Se,
        battery_driver: Bd,
        docking_driver: D,
        clock: C,
    ) -> (r: Self)
        ensures
            r.wf(),
            r.model() == (RobotModel {
                state: RobotState::Standby,
                cleaning_mode: CleaningMode::Auto,
                current_error: None,
                manual_move_deadline_ms: None,
                nav: initial_nav(),
                wheels: (0i16, 0i16),
                suction: false,
                brushes: false,
                battery: BatteryStatus {
                    percentage: battery_driver.status().percentage,
                    charging: false,
                },
                docking: docking_driver.status(),
                sensors: sensor_reader.snapshot(),
                now: clock.now(),
            }),
            r.sensors_spec() == sensor_reader,
            r.docking_spec() == docking_driver,
            r.clock_spec() == clock,
    {
        let mut wheel_driver = wheel_driver;
        let mut suction_driver = suction_driver;
        let mut brush_driver = brush_driver;
        let mut battery_driver = battery_driver;
        wheel_driver.stop();
        suction_driver.set_running(false);
        brush_driver.set_running(false);
        battery_driver.set_charging(false);
        RobotController {
            state_machine: RobotStateMachine::new(),
            motion_controller: MotionController,
            cleaning_controller: CleaningController,
            battery_manager: BatteryManager,
            docking_manager: DockingManager,
            safety_manager: SafetyManager,
            wheel_driver,
            suction_driver,
            brush_driver,
            sensor_reader,
            battery_driver,
            docking_driver,
            clock,
            cleaning_mode: CleaningMode::Auto,
            current_error: None,
            manual_move_deadline_ms: None,
            nav: AutoNavigation::new(),
        }
    }

    /// The current state.
    pub fn state(&self) -> (r: RobotState)
        ensures
            r == self.model().state,
    {
        self.state_machine.state()
    }

    /// The status of the robot; reading it changes nothing.
    pub fn current_status(&self) -> (r: RobotStatus)
        ensures
            r == status_of(self.model()),
    {
        let (left_wheel_speed, right_wheel_speed) = self.wheel_driver.wheel_speeds();
        let battery = self.battery_driver.read_battery();
        let state = self.state();
        RobotStatus {
            state,
            cleaning_mode: self.cleaning_mode,
            battery_percent: battery.percentage,
            is_charging: self.battery_manager.is_charging(battery),
            suction_enabled: self.suction_driver.is_running(),
            brushes_enabled: self.brush_driver.is_running(),
            left_wheel_speed,
            right_wheel_speed,
            current_error: self.current_error,
            auto_navigation_phase: if state == RobotState::Cleaning && self.cleaning_mode
                == CleaningMode::Auto {
                Some(self.nav.phase())
            } else {
                None
            },
            sensors: self.sensor_reader.read_sensors(),
        }
    }

    /// The wheel driver.
    pub fn wheel_driver(&self) -> (r: &W)
        ensures
            *r == self.wheels_spec(),
            r.speeds() == self.model().wheels,
    {
        &self.wheel_driver
    }

    /// The wheel driver, for the simulation to change; the rest of the robot
    /// is left as it is.
    pub fn wheel_driver_mut(&mut self) -> (r: &mut W)
        ensures
            *r == old(self).wheels_spec(),
            r.speeds() == old(self).model().wheels,
            final(self).wheels_spec() == *final(r),
            final(self).model() == (RobotModel { wheels: final(r).speeds(), ..old(self).model() }),
    {
        &mut self.wheel_driver
    }

    /// The suction driver.
    pub fn suction_driver(&self) -> (r: &S)
        ensures
            *r == self.suction_spec(),
            r.running() == self.model().suction,
    {
        &self.suction_driver
    }

    /// The suction driver, for the simulation to change; the rest of the
    /// robot is left as it is.
    pub fn suction_driver_mut(&mut self) -> (r: &mut S)
        ensures
            *r == old(self).suction_spec(),
            r.running() == old(self).model().suction,
            final(self).suction_spec() == *final(r),
            final(self).model() == (RobotModel {
                suction: final(r).running(),
                ..old(self).model()
            }),
    {
        &mut self.suction_driver
    }

    /// The brush driver.
    pub fn brush_driver(&self) -> (r: &B)
        ensures
            *r == self.brushes_spec(),
            r.running() == self.model().brushes,
    {
        &self.brush_driver
    }

    /// The brush driver, for the simulation to change; the rest of the robot
    /// is left as it is.
    pub fn brush_driver_mut(&mut self) -> (r: &mut B)
        ensures
            *r == old(self).brushes_spec(),
            r.running() == old(self).model().brushes,
            final(self).brushes_spec() == *final(r),
            final(self).model() == (RobotModel {
                brushes: final(r).running(),
                ..old(self).model()
            }),
    {
        &mut self.brush_driver
    }

    /// The sensor reader, for the simulation to change; the rest of the robot
    /// is left as it is.
    pub fn sensor_reader_mut(&mut self) -> (r: &mut Se)
        ensures
            *r == old(self).sensors_spec(),
            r.snapshot() == old(self).model().sensors,
            final(self).sensors_spec() == *final(r),
            final(self).model() == (RobotModel {
                sensors: final(r).snapshot(),
                ..old(self).model()
            }),
    {
        &mut self.sensor_reader
    }

    /// The battery driver, for the simulation to change; the rest of the
    /// robot is left as it is.
    pub fn battery_driver_mut(&mut self) -> (r: &mut Bd)
        ensures
            *r == old(self).battery_spec(),
            r.status() == old(self).model().battery,
            final(self).battery_spec() == *final(r),
            final(self).model() == (RobotModel {
                battery: final(r).status(),
                ..old(self).model()
            }),
    {
        &mut self.battery_driver
    }

    /// The docking driver, for the simulation to change; the rest of the
    /// robot is left as it is.
    pub fn docking_driver_mut(&mut self) -> (r: &mut D)
        ensures
            *r == old(self).docking_spec(),
            r.status() == old(self).model().docking,
            final(self).docking_spec() == *final(r),
            final(self).model() == (RobotModel {
                docking: final(r).status(),
                ..old(self).model()
            }),
    {
        &mut self.docking_driver
    }

    /// The clock, for the simulation to change; the rest of the robot is left
    /// as it is.
    pub fn clock_mut(&mut self) -> (r: &mut C)
        ensures
            *r == old(self).clock_spec(),
            r.now() == old(self).model().now,
            final(self).clock_spec() == *final(r),
            final(self).model() == (RobotModel { now: final(r).now(), ..old(self).model() }),
    {
        &mut self.clock
    }

    /// The critical error that the sensors currently signal.
    fn read_critical_error(&self) -> (r: Option<RobotError>)
        ensures
            r == critical_error(self.model().sensors),
    {
        let sensors = self.sensor_reader.read_sensors();
        self.safety_manager.detect_critical_error(&sensors)
    }

    /// Drives the wheels as the current navigation phase requires.
    fn apply_auto_phase_motion(&mut self)
        ensures
            final(self).model() == (RobotModel {
                wheels: nav_motion(old(self).model().nav),
                ..old(self).model()
            }),
    {
        let (left, right) = self.nav.motion();
        self.wheel_driver.set_wheel_speeds(left, right);
    }

    /// Resets the navigation pattern at the current time.
    fn reset_auto_navigation_state(&mut self)
        ensures
            final(self).model() == (RobotModel {
                nav: reset_nav(old(self).model().now),
                ..old(self).model()
            }),
    {
        let now = self.clock.now_millis();
        self.nav.reset(now);
    }

    /// Advances the navigation pattern with the reading `sensors` and drives
    /// the wheels as the new phase requires.
    fn tick_auto_navigation(&mut self, sensors: &SensorSnapshot)
        ensures
            final(self).model() == ({
                let nav = nav_step(old(self).model().nav, *sensors, old(self).model().now);
                RobotModel { nav, wheels: nav_motion(nav), ..old(self).model() }
            }),
    {
        let now = self.clock.now_millis();
        self.nav.step(sensors, now);
        self.apply_auto_phase_motion();
    }

    /// Stops everything and enters `ERROR` with `error` recorded.
    fn fail_safe(&mut self, error: RobotError) -> (r: Result<(), DomainError>)
        requires
            old(self).wf(),
        ensures
            r.is_ok(),
            final(self).wf(),
            final(self).model() == fail_safe_model(old(self).model(), error),
    {
        self.safety_manager.stop_all(
            &mut self.wheel_driver,
            &mut self.suction_driver,
            &mut self.brush_driver,
        );
        self.battery_driver.set_charging(false);
        self.current_error = Some(error);
        self.manual_move_deadline_ms = None;
        self.cleaning_mode = CleaningMode::Auto;
        self.reset_auto_navigation_state();
        if self.state() != RobotState::Error {
            self.state_machine.transition_to(RobotState::Error)?;
        }
        Ok(())
    }

    fn start_cleaning(&mut self) -> (r: Result<(), DomainError>)
        requires
            old(self).wf(),
        ensures
            final(self).wf(),
            final(self).model() == start_cleaning_model(old(self).model()).0,
            r.is_ok() <==> start_cleaning_model(old(self).model()).1.is_none(),
            r matches Err(e) ==> is_rejection(e, start_cleaning_model(old(self).model()).1.unwrap()),
    {
        match self.state() {
            RobotState::Standby | RobotState::Paused => {},
            state => {
                return Err(
                    DomainError::conflict(
                        "COMMAND_NOT_ALLOWED",
                        String::from_str("START_CLEANING is only allowed from STANDBY or PAUSED"),
                        state,
                    ),
                );
            },
        }
        let battery = self.battery_manager.read(&self.battery_driver);
        if self.battery_manager.is_low(battery) {
            return Err(
                DomainError::conflict(
                    "BATTERY_TOO_LOW",
                    String::from_str("Battery is too low to start cleaning"),
                    self.state(),
                ),
            );
        }
        self.battery_driver.set_charging(false);
        self.cleaning_controller.start_cleaning(&mut self.suction_driver, &mut self.brush_driver);
        self.cleaning_mode = CleaningMode::Auto;
        self.manual_move_deadline_ms = None;
        self.reset_auto_navigation_state();
        let now = self.clock.now_millis();
        self.nav.set_phase(AutoNavigationPhase::RoomCrossing, now);
        self.apply_auto_phase_motion();
        self.current_error = None;
        self.state_machine.transition_to(RobotState::Cleaning)
    }

    fn stop_cleaning(&mut self) -> (r: Result<(), DomainError>)
        requires
            old(self).wf(),
        ensures
            final(self).wf(),
            final(self).model() == stop_cleaning_model(old(self).model()).0,
            r.is_ok() <==> stop_cleaning_model(old(self).model()).1.is_none(),
            r matches Err(e) ==> is_rejection(e, stop_cleaning_model(old(self).model()).1.unwrap()),
    {
        match self.state() {
            RobotState::Cleaning
            | RobotState::Paused
            | RobotState::ManualControl
            | RobotState::ReturningToDock => {},
            state => {
                return Err(
                    DomainError::conflict(
                        "COMMAND_NOT_ALLOWED",
                        String::from_str("STOP_CLEANING is not allowed in the current state"),
                        state,
                    ),
                );
            },
        }
        self.safety_manager.stop_all(
            &mut self.wheel_driver,
            &mut self.suction_driver,
            &mut self.brush_driver,
        );
        self.battery_driver.set_charging(false);
        self.manual_move_deadline_ms = None;
        self.cleaning_mode = CleaningMode::Auto;
        self.reset_auto_navigation_state();
        self.state_machine.transition_to(RobotState::Standby)
    }

    fn pause_cleaning(&mut self) -> (r: Result<(), DomainError>)
        requires
            old(self).wf(),
        ensures
            final(self).wf(),
            final(self).model() == pause_cleaning_model(old(self).model()).0,
            r.is_ok() <==> pause_cleaning_model(old(self).model()).1.is_none(),
            r matches Err(e) ==> is_rejection(e, pause_cleaning_model(old(self).model()).1.unwrap()),
    {
        match self.state() {
            RobotState::Cleaning | RobotState::ManualControl => {},
            state => {
                return Err(
                    DomainError::conflict(
                        "COMMAND_NOT_ALLOWED",
                        String::from_str("PAUSE_CLEANING is only allowed while actively moving"),
                        state,
                    ),
                );
            },
        }
        self.safety_manager.stop_all(
            &mut self.wheel_driver,
            &mut self.suction_driver,
            &mut self.brush_driver,
        );
        self.battery_driver.set_charging(false);
        self.manual_move_deadline_ms = None;
        self.reset_auto_navigation_state();
        self.state_machine.transition_to(RobotState::Paused)
    }

    fn return_to_dock(&mut self) -> (r: Result<(), DomainError>)
        requires
            old(self).wf(),
        ensures
            final(self).wf(),
            final(self).model() == return_to_dock_model(old(self).model()).0,
            r.is_ok() <==> return_to_dock_model(old(self).model()).1.is_none(),
            r matches Err(e) ==> is_rejection(e, return_to_dock_model(old(self).model()).1.unwrap()),
    {
        match self.state() {
            RobotState::Standby
            | RobotState::Cleaning
            | RobotState::Paused
            | RobotState::ManualControl => {},
            state => {
                return Err(
                    DomainError::conflict(
                        "COMMAND_NOT_ALLOWED",
                        String::from_str("RETURN_TO_DOCK is not allowed in the current state"),
                        state,
                    ),
                );
            },
        }
        let docking = self.docking_manager.read(&self.docking_driver);
        if !docking.dock_available {
            return Err(
                DomainError::conflict(
                    "DOCK_UNAVAILABLE",
                    String::from_str("Docking station is not available"),
                    self.state(),
                ),
            );
        }
        self.cleaning_controller.stop_cleaning(&mut self.suction_driver, &mut self.brush_driver);
        self.docking_manager.start_return_to_dock(&mut self.wheel_driver);
        self.manual_move_deadline_ms = None;
        self.reset_auto_navigation_state();
        self.state_machine.transition_to(RobotState::ReturningToDock)
    }

    fn manual_move(&mut self, direction: ManualDirection, speed: u8, duration_ms: u64) -> (r:
        Result<(), DomainError>)
        requires
            old(self).wf(),
        ensures
            final(self).wf(),
            final(self).model() == manual_move_model(
                old(self).model(),
                direction,
                speed,
                duration_ms,
            ).0,
            r.is_ok() <==> manual_move_model(
                old(self).model(),
                direction,
                speed,
                duration_ms,
            ).1.is_none(),
            r matches Err(e) ==> is_rejection(
                e,
                manual_move_model(old(self).model(), direction, speed, duration_ms).1.unwrap(),
            ),
    {
        if duration_ms == 0 {
            return Err(
                DomainError::bad_request(
                    "INVALID_DURATION",
                    String::from_str("MANUAL_MOVE requires duration_ms greater than zero"),
                ),
            );
        }
        if speed > 100 {
            return Err(
                DomainError::bad_request(
                    "INVALID_SPEED",
                    String::from_str("MANUAL_MOVE speed must be in the range 0..=100"),
                ),
            );
        }
        if direction != ManualDirection::Stop && speed == 0 {
            return Err(
                DomainError::bad_request(
                    "INVALID_SPEED",
                    String::from_str(
                        "MANUAL_MOVE speed must be greater than zero for movement directions",
                    ),
                ),
            );
        }
        match self.state() {
            RobotState::Standby | RobotState::Paused | RobotState::ManualControl => {},
            state => {
                return Err(
                    DomainError::conflict(
                        "COMMAND_NOT_ALLOWED",
                        String::from_str(
                            "MANUAL_MOVE is only allowed from STANDBY, PAUSED, or MANUAL_CONTROL",
                        ),
                        state,
                    ),
                );
            },
        }
        self.cleaning_controller.stop_cleaning(&mut self.suction_driver, &mut self.brush_driver);
        self.motion_controller.move_direction(&mut self.wheel_driver, direction, speed);
        self.cleaning_mode = CleaningMode::Manual;
        self.manual_move_deadline_ms = Some(self.clock.now_millis().saturating_add(duration_ms));
        self.reset_auto_navigation_state();
        self.state_machine.transition_to(RobotState::ManualControl)
    }

    fn set_cleaning_mode(&mut self, mode: CleaningMode) -> (r: Result<(), DomainError>)
        requires
            old(self).wf(),
        ensures
            final(self).wf(),
            final(self).model() == set_cleaning_mode_model(old(self).model(), mode).0,
            r.is_ok() <==> set_cleaning_mode_model(old(self).model(), mode).1.is_none(),
            r matches Err(e) ==> is_rejection(
                e,
                set_cleaning_mode_model(old(self).model(), mode).1.unwrap(),
            ),
    {
        if mode != CleaningMode::Auto {
            return Err(
                DomainError::bad_request(
                    "UNSUPPORTED_MODE",
                    String::from_str(mode.as_str()).concat(
                        " is not supported in this implementation",
                    ),
                ),
            );
        }
        self.cleaning_mode = CleaningMode::Auto;
        Ok(())
    }

    fn clear_error(&mut self) -> (r: Result<(), DomainError>)
        requires
            old(self).wf(),
        ensures
            final(self).wf(),
            final(self).model() == clear_error_model(old(self).model()).0,
            r.is_ok() <==> clear_error_model(old(self).model()).1.is_none(),
            r matches Err(e) ==> is_rejection(e, clear_error_model(old(self).model()).1.unwrap()),
    {
        if self.state() != RobotState::Error {
            return Err(
                DomainError::conflict(
                    "COMMAND_NOT_ALLOWED",
                    String::from_str("CLEAR_ERROR is only allowed from ERROR"),
                    self.state(),
                ),
            );
        }
        if let Some(error) = self.read_critical_error() {
            return Err(
                DomainError::conflict(
                    "SAFETY_CONDITION_ACTIVE",
                    String::from_str("Cannot clear error while ").concat(error.as_str()).concat(
                        " is still active",
                    ),
                    self.state(),
                ),
            );
        }
        if self.current_error == Some(RobotError::DustContainerFull)
            && self.sensor_reader.read_sensors().dust_container_full {
            return Err(
                DomainError::conflict(
                    "DUST_CONTAINER_FULL",
                    String::from_str("Cannot clear error while the dust container is still full"),
                    self.state(),
                ),
            );
        }
        self.current_error = None;
        self.cleaning_mode = CleaningMode::Auto;
        self.manual_move_deadline_ms = None;
        self.reset_auto_navigation_state();
        self.safety_manager.stop_all(
            &mut self.wheel_driver,
            &mut self.suction_driver,
            &mut self.brush_driver,
        );
        self.battery_driver.set_charging(false);
        self.state_machine.transition_to(RobotState::Standby)
    }

    /// Handles a command and reports the resulting status, or why it was
    /// refused. A refusal by the safety check has already stopped the robot
    /// and put it into `ERROR`; any other refusal leaves the robot as it was.
    pub fn handle_command(&mut self, command: RobotCommand) -> (r: Result<RobotStatus, DomainError>)
        requires
            old(self).wf(),
        ensures
            final(self).wf(),
            final(self).model() == handle_command_model(old(self).model(), command).0,
            r.is_ok() <==> handle_command_model(old(self).model(), command).1.is_none(),
            r matches Ok(status) ==> status == status_of(final(self).model()),
            r matches Err(e) ==> is_rejection(
                e,
                handle_command_model(old(self).model(), command).1.unwrap(),
            ),
    {
        if let Some(error) = self.read_critical_error() {
            self.fail_safe(error)?;
            return Err(
                DomainError::conflict(
                    "SAFETY_CONDITION_ACTIVE",
                    String::from_str("Cannot process command while safety condition ").concat(
                        error.as_str(),
                    ).concat(" is active"),
                    self.state(),
                ),
            );
        }
        if self.state() == RobotState::Cleaning
            && self.sensor_reader.read_sensors().dust_container_full {
            self.fail_safe(RobotError::DustContainerFull)?;
            return Err(
                DomainError::conflict(
                    "DUST_CONTAINER_FULL",
                    String::from_str("Cannot process command while the dust container is full"),
                    self.state(),
                ),
            );
        }
        match command {
            RobotCommand::StartCleaning => self.start_cleaning()?,
            RobotCommand::StopCleaning => self.stop_cleaning()?,
            RobotCommand::PauseCleaning => self.pause_cleaning()?,
            RobotCommand::ReturnToDock => self.return_to_dock()?,
            RobotCommand::ManualMove { direction, speed, duration_ms } => self.manual_move(
                direction,
                speed,
                duration_ms,
            )?,
            RobotCommand::SetCleaningMode(mode) => self.set_cleaning_mode(mode)?,
            RobotCommand::ClearError => self.clear_error()?,
            RobotCommand::GetStatus => {},
        }
        Ok(self.current_status())
    }

    /// Runs one periodic update and reports the resulting status.
    pub fn tick(&mut self) -> (r: RobotStatus)
        requires
            old(self).wf(),
        ensures
            final(self).wf(),
            final(self).model() == tick_model(old(self).model()),
            r == status_of(final(self).model()),
    {
        let sensors = self.sensor_reader.read_sensors();
        if let Some(error) = self.safety_manager.detect_critical_error(&sensors) {
            let _ = self.fail_safe(error);
            return self.current_status();
        }
        if self.state() == RobotState::Cleaning && sensors.dust_container_full {
            let _ = self.fail_safe(RobotError::DustContainerFull);
            return self.current_status();
        }
        if self.state() == RobotState::ManualControl {
            if let Some(deadline) = self.manual_move_deadline_ms {
                if self.clock.now_millis() >= deadline {
                    self.motion_controller.stop(&mut self.wheel_driver);
                    self.manual_move_deadline_ms = None;
                    let _ = self.state_machine.transition_to(RobotState::Standby);
                    self.cleaning_mode = CleaningMode::Auto;
                }
            }
        }
        let battery = self.battery_manager.read(&self.battery_driver);
        if self.state() == RobotState::Cleaning && self.battery_manager.is_low(battery) {
            self.cleaning_controller.stop_cleaning(
                &mut self.suction_driver,
                &mut self.brush_driver,
            );
            self.docking_manager.start_return_to_dock(&mut self.wheel_driver);
            self.manual_move_deadline_ms = None;
            let _ = self.state_machine.transition_to(RobotState::ReturningToDock);
        }
        if self.state() == RobotState::Cleaning && self.cleaning_mode == CleaningMode::Auto {
            self.tick_auto_navigation(&sensors);
        }
        if self.state() == RobotState::ReturningToDock {
            let docking = self.docking_manager.read(&self.docking_driver);
            if docking.dock_detected {
                self.motion_controller.stop(&mut self.wheel_driver);
                self.battery_driver.set_charging(true);
                let _ = self.state_machine.transition_to(RobotState::Charging);
            }
        }
        let battery = self.battery_manager.read(&self.battery_driver);
        if self.state() == RobotState::Charging && self.battery_manager.is_full(battery) {
            self.battery_driver.set_charging(false);
            let _ = self.state_machine.transition_to(RobotState::Standby);
            self.cleaning_mode = CleaningMode::Auto;
        }
        self.current_status()
    }
}

} // verus!
