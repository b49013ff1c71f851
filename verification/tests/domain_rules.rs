use robot_vacuum_firmware::application::navigation::{
    choose_clearance_turn_right, choose_wall_recovery_turn_right, AutoNavigation,
};
use robot_vacuum_firmware::controllers::{
    BatteryManager, CleaningController, DockingManager, MotionController, SafetyManager,
};
use robot_vacuum_firmware::domain::{
    AutoNavigationPhase, CleaningMode, ContactType, ErrorKind, ManualDirection, RobotCommand,
    RobotError, RobotState, RobotStateMachine, SensorSnapshot, WallSide,
};
use robot_vacuum_firmware::hal::{BatteryStatus, SuctionDriver, WheelMotorDriver};
use robot_vacuum_firmware::simulation::{
    create_simulation_controller, SimulatedBatteryDriver, SimulatedBrushDriver, SimulatedClock,
    SimulatedSuctionDriver, SimulatedWheelMotorDriver, SimulationConfig,
};

#[test]
fn state_machine_starts_in_standby_and_follows_allowed_transitions() {
    let mut machine = RobotStateMachine::new();
    assert_eq!(machine.state(), RobotState::Standby);
    assert!(machine.transition_to(RobotState::Standby).is_ok());
    assert!(machine.transition_to(RobotState::Cleaning).is_ok());
    assert!(machine.transition_to(RobotState::Paused).is_ok());
    let error = machine.transition_to(RobotState::Charging).unwrap_err();
    assert_eq!(error.code, "INVALID_STATE_TRANSITION");
    assert_eq!(error.kind, ErrorKind::Conflict);
    assert_eq!(error.message, "Cannot transition from PAUSED to CHARGING");
    assert_eq!(error.current_state, Some(RobotState::Paused));
    assert_eq!(machine.state(), RobotState::Paused);
    assert_eq!(RobotStateMachine::default().state(), RobotState::Standby);
}

#[test]
fn error_state_can_only_return_to_standby() {
    let mut machine = RobotStateMachine::new();
    machine.transition_to(RobotState::Error).expect("standby to error");
    for next in [
        RobotState::Off,
        RobotState::Cleaning,
        RobotState::Paused,
        RobotState::ManualControl,
        RobotState::ReturningToDock,
        RobotState::Charging,
    ] {
        assert!(machine.transition_to(next).is_err());
        assert_eq!(machine.state(), RobotState::Error);
    }
    assert!(machine.transition_to(RobotState::Standby).is_ok());
}

#[test]
fn names_match_the_wire_format() {
    assert_eq!(RobotState::ManualControl.as_str(), "MANUAL_CONTROL");
    assert_eq!(RobotState::ReturningToDock.as_str(), "RETURNING_TO_DOCK");
    assert_eq!(CleaningMode::ZigZag.as_str(), "ZIG_ZAG");
    assert_eq!(ManualDirection::Backward.as_str(), "BACKWARD");
    assert_eq!(RobotError::TopCoverOpen.as_str(), "TOP_COVER_OPEN");
    assert_eq!(ContactType::Obstacle.as_str(), "obstacle");
    assert_eq!(WallSide::Bottom.as_str(), "bottom");
    assert_eq!(AutoNavigationPhase::ClearanceTurnClear.as_str(), "CLEARANCE_TURN_CLEAR");
    assert_eq!(AutoNavigationPhase::WallExitForward.as_str(), "WALL_EXIT_FORWARD");
}

#[test]
fn safety_manager_detects_by_priority() {
    let safety = SafetyManager;
    let all = SensorSnapshot {
        drop_off_detected: true,
        wheel_stuck: true,
        brush_stuck: true,
        top_cover_open: true,
        dust_container_full: true,
        ..SensorSnapshot::default()
    };
    assert_eq!(safety.detect_critical_error(&all), Some(RobotError::DropOffDetected));
    let no_drop = SensorSnapshot { drop_off_detected: false, ..all };
    assert_eq!(safety.detect_critical_error(&no_drop), Some(RobotError::WheelStuck));
    let dust_only = SensorSnapshot { dust_container_full: true, ..SensorSnapshot::default() };
    assert_eq!(safety.detect_critical_error(&dust_only), None);
}

#[test]
fn actuator_controllers_drive_the_drivers() {
    let mut wheels = SimulatedWheelMotorDriver::default();
    let mut suction = SimulatedSuctionDriver::default();
    let mut brushes = SimulatedBrushDriver::default();
    let motion = MotionController;
    motion.move_direction(&mut wheels, ManualDirection::Right, 100);
    assert_eq!(wheels.wheel_speeds(), (100, -100));
    motion.move_direction(&mut wheels, ManualDirection::Backward, 7);
    assert_eq!(wheels.wheel_speeds(), (-7, -7));
    motion.stop(&mut wheels);
    assert_eq!(wheels.wheel_speeds(), (0, 0));

    let cleaning = CleaningController;
    cleaning.start_cleaning(&mut suction, &mut brushes);
    assert!(suction.is_running() && brushes.running);
    let quiet = SensorSnapshot::default();
    cleaning.react_to_dust_container_full(&quiet, &mut suction, &mut brushes);
    assert!(suction.running && brushes.running);
    let full = SensorSnapshot { dust_container_full: true, ..quiet };
    cleaning.react_to_dust_container_full(&full, &mut suction, &mut brushes);
    assert!(!suction.running && !brushes.running);

    DockingManager.start_return_to_dock(&mut wheels);
    assert_eq!(wheels.wheel_speeds(), (30, 30));
    SafetyManager.stop_all(&mut wheels, &mut suction, &mut brushes);
    assert_eq!(wheels.wheel_speeds(), (0, 0));
}

#[test]
fn battery_manager_thresholds() {
    let battery = BatteryManager;
    let low = BatteryStatus { percentage: 15, charging: false };
    let ok = BatteryStatus { percentage: 16, charging: true };
    let full = BatteryStatus { percentage: 100, charging: true };
    assert_eq!(BatteryManager::LOW_BATTERY_THRESHOLD, 15);
    assert!(battery.is_low(low));
    assert!(!battery.is_low(ok));
    assert!(battery.is_full(full));
    assert!(!battery.is_full(ok));
    assert!(battery.is_charging(ok));
    let driver = SimulatedBatteryDriver::new(55);
    assert_eq!(battery.read(&driver), BatteryStatus { percentage: 55, charging: false });
}

#[test]
fn simulated_drivers_clamp_and_saturate() {
    let mut battery = SimulatedBatteryDriver::new(50);
    battery.set_percentage(250);
    assert_eq!(battery.percentage, 100);
    let mut clock = SimulatedClock::default();
    clock.set_time_ms(u64::MAX - 1);
    clock.advance_ms(10);
    assert_eq!(clock.current_time_ms, u64::MAX);
}

#[test]
fn turn_choices_turn_away_from_side_walls() {
    assert!(!choose_clearance_turn_right(Some(WallSide::Right), None, true));
    assert!(choose_clearance_turn_right(Some(WallSide::Left), None, false));
    assert!(!choose_clearance_turn_right(Some(WallSide::Top), Some(ContactType::Wall), false));
    assert!(choose_clearance_turn_right(None, Some(ContactType::Obstacle), true));
    assert!(!choose_wall_recovery_turn_right(Some(WallSide::Right), true, 1));
    assert!(choose_wall_recovery_turn_right(Some(WallSide::Right), true, 2));
    assert!(!choose_wall_recovery_turn_right(None, true, 3));
}

#[test]
fn navigation_starts_idle_and_crosses_the_room() {
    let mut nav = AutoNavigation::new();
    assert_eq!(nav.phase(), AutoNavigationPhase::Idle);
    assert_eq!(nav.motion(), (0, 0));
    nav.step(&SensorSnapshot::default(), 0);
    assert_eq!(nav.phase(), AutoNavigationPhase::RoomCrossing);
    assert_eq!(nav.motion(), (36, 36));
}

#[test]
fn wall_turn_away_waits_at_least_five_seconds() {
    let mut nav = AutoNavigation::new();
    nav.set_phase(AutoNavigationPhase::RoomCrossing, 0);
    let contact = SensorSnapshot {
        proximity_contact: true,
        bumper_pressed: true,
        wall_side: Some(WallSide::Left),
        contact_type: Some(ContactType::Wall),
        ..SensorSnapshot::default()
    };
    nav.step(&contact, 0);
    assert_eq!(nav.phase(), AutoNavigationPhase::WallBackup);
    assert_eq!(nav.current_wall_turn_away_min_ms(), 5000);
    assert_eq!(nav.current_wall_exit_forward_ms(), 1600);
    nav.step(&SensorSnapshot::default(), 900);
    assert_eq!(nav.phase(), AutoNavigationPhase::WallTurnAway);
    assert_eq!(nav.motion(), (6, -6));
    nav.step(&SensorSnapshot::default(), 5000);
    nav.step(&SensorSnapshot::default(), 5800);
    assert_eq!(nav.phase(), AutoNavigationPhase::WallTurnAway);
    nav.step(&SensorSnapshot::default(), 5900);
    nav.step(&SensorSnapshot::default(), 6000);
    assert_eq!(nav.phase(), AutoNavigationPhase::WallExitForward);
}

#[test]
fn safety_condition_refuses_commands_and_fails_safe() {
    let mut controller = create_simulation_controller(SimulationConfig::default());
    controller.handle_command(RobotCommand::StartCleaning).expect("start");
    controller.sensor_reader_mut().top_cover_open = true;
    let error = controller.handle_command(RobotCommand::GetStatus).unwrap_err();
    assert_eq!(error.code, "SAFETY_CONDITION_ACTIVE");
    assert_eq!(
        error.message,
        "Cannot process command while safety condition TOP_COVER_OPEN is active"
    );
    assert_eq!(error.current_state, Some(RobotState::Error));
    let status = controller.current_status();
    assert_eq!(status.state, RobotState::Error);
    assert_eq!(status.current_error, Some(RobotError::TopCoverOpen));
    assert!(!status.suction_enabled);
}

#[test]
fn full_dust_container_while_cleaning_refuses_commands() {
    let mut controller = create_simulation_controller(SimulationConfig::default());
    controller.handle_command(RobotCommand::StartCleaning).expect("start");
    controller.sensor_reader_mut().dust_container_full = true;
    let error = controller.handle_command(RobotCommand::StopCleaning).unwrap_err();
    assert_eq!(error.code, "DUST_CONTAINER_FULL");
    assert_eq!(controller.current_status().state, RobotState::Error);
}

#[test]
fn refused_commands_leave_the_robot_unchanged() {
    let mut controller = create_simulation_controller(SimulationConfig { initial_battery_percent: 15, dock_available: true });
    let before = controller.current_status();
    let error = controller.handle_command(RobotCommand::StartCleaning).unwrap_err();
    assert_eq!(error.code, "BATTERY_TOO_LOW");
    assert_eq!(error.current_state, Some(RobotState::Standby));
    assert_eq!(controller.current_status(), before);
    for command in [
        RobotCommand::StopCleaning,
        RobotCommand::PauseCleaning,
        RobotCommand::ClearError,
        RobotCommand::SetCleaningMode(CleaningMode::WallFollowing),
        RobotCommand::ManualMove { direction: ManualDirection::Left, speed: 101, duration_ms: 5 },
        RobotCommand::ManualMove { direction: ManualDirection::Left, speed: 10, duration_ms: 0 },
    ] {
        assert!(controller.handle_command(command).is_err());
        assert_eq!(controller.current_status(), before);
    }
}

#[test]
fn manual_move_validation_messages() {
    let mut controller = create_simulation_controller(SimulationConfig::default());
    let error = controller
        .handle_command(RobotCommand::ManualMove {
            direction: ManualDirection::Forward,
            speed: 40,
            duration_ms: 0,
        })
        .unwrap_err();
    assert_eq!(error.code, "INVALID_DURATION");
    assert_eq!(error.kind, ErrorKind::BadRequest);
    assert!(error.current_state.is_none());
    let error = controller
        .handle_command(RobotCommand::SetCleaningMode(CleaningMode::ZigZag))
        .unwrap_err();
    assert_eq!(error.message, "ZIG_ZAG is not supported in this implementation");
}

#[test]
fn charging_ends_when_the_battery_is_full() {
    let mut controller = create_simulation_controller(SimulationConfig::default());
    controller.handle_command(RobotCommand::StartCleaning).expect("start");
    controller.battery_driver_mut().set_percentage(15);
    controller.tick();
    controller.docking_driver_mut().set_dock_detected(true);
    let charging = controller.tick();
    assert_eq!(charging.state, RobotState::Charging);
    assert_eq!(charging.left_wheel_speed, 0);
    controller.battery_driver_mut().set_percentage(100);
    let standby = controller.tick();
    assert_eq!(standby.state, RobotState::Standby);
    assert!(!standby.is_charging);
    assert_eq!(standby.cleaning_mode, CleaningMode::Auto);
}

#[test]
fn return_to_dock_from_charging_is_refused() {
    let mut controller = create_simulation_controller(SimulationConfig::default());
    controller.handle_command(RobotCommand::StartCleaning).expect("start");
    controller.handle_command(RobotCommand::ReturnToDock).expect("return");
    controller.docking_driver_mut().set_dock_detected(true);
    controller.tick();
    let error = controller.handle_command(RobotCommand::ReturnToDock).unwrap_err();
    assert_eq!(error.code, "COMMAND_NOT_ALLOWED");
    assert_eq!(error.current_state, Some(RobotState::Charging));
}

#[test]
fn error_state_stays_until_cleared() {
    let mut controller = create_simulation_controller(SimulationConfig::default());
    controller.handle_command(RobotCommand::StartCleaning).expect("start");
    controller.sensor_reader_mut().wheel_stuck = true;
    controller.tick();
    controller.sensor_reader_mut().wheel_stuck = false;
    for _ in 0..3 {
        let status = controller.tick();
        assert_eq!(status.state, RobotState::Error);
        assert_eq!(status.left_wheel_speed, 0);
    }
    controller.handle_command(RobotCommand::SetCleaningMode(CleaningMode::Auto)).expect("auto");
    assert_eq!(controller.current_status().state, RobotState::Error);
    let status = controller.handle_command(RobotCommand::ClearError).expect("clear");
    assert_eq!(status.state, RobotState::Standby);
    assert!(status.current_error.is_none());
}
