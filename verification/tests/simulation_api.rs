use robot_vacuum_firmware::api::error::{ApiError, HTTP_BAD_REQUEST, HTTP_CONFLICT};
use robot_vacuum_firmware::api::routes::{
    parse_contact_type, parse_wall_side, simulation_reset, simulation_tick,
    update_sensor_snapshot, update_simulation_battery, update_simulation_docking,
    update_simulation_sensors, validate_tick_delta_ms,
};
use robot_vacuum_firmware::api::{
    CleaningModeRequest, ManualDirectionRequest, RobotStatusResponse, SimulationBatteryRequest,
    SimulationDockingRequest, SimulationSensorsRequest, SimulationTickRequest,
};
use robot_vacuum_firmware::domain::{
    CleaningMode, ContactType, DomainError, ErrorKind, ManualDirection, RobotCommand, RobotState,
    SensorSnapshot, WallSide,
};
use robot_vacuum_firmware::simulation::{create_simulation_controller, SimulationConfig};

fn empty_sensor_request() -> SimulationSensorsRequest {
    SimulationSensorsRequest {
        obstacle_detected: None,
        drop_off_detected: None,
        bumper_pressed: None,
        proximity_contact: None,
        contact_type: None,
        wall_side: None,
        forward_clearance_blocked: None,
        dust_container_full: None,
        wheel_stuck: None,
        brush_stuck: None,
        top_cover_open: None,
    }
}

fn domain_code(error: &ApiError) -> &'static str {
    match error {
        ApiError::Domain(e) => e.code,
        ApiError::BadRequest(_) => "BAD_REQUEST",
    }
}

#[test]
fn initial_status_is_standby_auto_with_configured_battery() {
    let controller = create_simulation_controller(SimulationConfig::default());
    let status = controller.current_status();
    assert_eq!(status.state, RobotState::Standby);
    assert_eq!(status.cleaning_mode, CleaningMode::Auto);
    assert_eq!(status.battery_percent, 80);
    assert!(!status.is_charging);
    assert!(!status.suction_enabled);
    assert!(!status.brushes_enabled);
    assert_eq!(status.left_wheel_speed, 0);
    assert_eq!(status.right_wheel_speed, 0);
    assert!(status.current_error.is_none());
    assert!(status.auto_navigation_phase.is_none());
    assert_eq!(status.sensors, SensorSnapshot::default());
}

#[test]
fn sensor_update_preserves_unspecified_fields() {
    let mut controller = create_simulation_controller(SimulationConfig::default());
    let mut first = empty_sensor_request();
    first.obstacle_detected = Some(true);
    first.wheel_stuck = Some(true);
    let status = update_simulation_sensors(&mut controller, &first).expect("valid update");
    assert!(status.sensors.obstacle_detected);
    assert!(status.sensors.wheel_stuck);
    assert!(!status.sensors.bumper_pressed);
    assert!(!status.sensors.proximity_contact);

    let mut second = empty_sensor_request();
    second.bumper_pressed = Some(true);
    let status = update_simulation_sensors(&mut controller, &second).expect("valid update");
    assert!(status.sensors.obstacle_detected);
    assert!(status.sensors.wheel_stuck);
    assert!(status.sensors.bumper_pressed);
    assert!(status.sensors.proximity_contact);
    assert_eq!(status.sensors.contact_type, Some(ContactType::Unknown));
}

#[test]
fn sensor_update_with_wall_side_is_a_wall_contact() {
    let mut request = empty_sensor_request();
    request.proximity_contact = Some(true);
    request.contact_type = Some("obstacle".to_string());
    request.wall_side = Some("left".to_string());
    let next = update_sensor_snapshot(SensorSnapshot::default(), &request).expect("valid");
    assert_eq!(next.contact_type, Some(ContactType::Wall));
    assert_eq!(next.wall_side, Some(WallSide::Left));
    assert!(next.bumper_pressed);
}

#[test]
fn sensor_update_without_contact_drops_side_and_type() {
    let mut request = empty_sensor_request();
    request.contact_type = Some("wall".to_string());
    request.wall_side = Some("top".to_string());
    request.forward_clearance_blocked = Some(true);
    let next = update_sensor_snapshot(SensorSnapshot::default(), &request).expect("valid");
    assert_eq!(next.contact_type, None);
    assert_eq!(next.wall_side, None);
    assert!(!next.proximity_contact);
    assert!(next.forward_clearance_blocked);
}

#[test]
fn sensor_update_clears_forward_clearance_when_absent() {
    let current = SensorSnapshot { forward_clearance_blocked: true, ..SensorSnapshot::default() };
    let next = update_sensor_snapshot(current, &empty_sensor_request()).expect("valid");
    assert!(!next.forward_clearance_blocked);
}

#[test]
fn sensor_update_rejects_invalid_contact_type_without_change() {
    let mut controller = create_simulation_controller(SimulationConfig::default());
    let before = controller.current_status();
    let mut request = empty_sensor_request();
    request.contact_type = Some("bad-value".to_string());
    let error = update_simulation_sensors(&mut controller, &request).expect_err("invalid type");
    assert_eq!(domain_code(&error), "INVALID_CONTACT_TYPE");
    assert_eq!(controller.current_status(), before);
}

#[test]
fn sensor_update_rejects_invalid_wall_side_first() {
    let mut request = empty_sensor_request();
    request.contact_type = Some("bad".to_string());
    request.wall_side = Some("middle".to_string());
    let error = update_sensor_snapshot(SensorSnapshot::default(), &request).expect_err("invalid");
    assert_eq!(domain_code(&error), "INVALID_WALL_SIDE");
}

#[test]
fn contact_and_wall_names_are_parsed() {
    assert_eq!(parse_contact_type("wall").ok(), Some(ContactType::Wall));
    assert_eq!(parse_contact_type("obstacle").ok(), Some(ContactType::Obstacle));
    assert_eq!(parse_contact_type("unknown").ok(), Some(ContactType::Unknown));
    assert!(parse_contact_type("Wall").is_err());
    assert_eq!(parse_wall_side("left").ok(), Some(WallSide::Left));
    assert_eq!(parse_wall_side("right").ok(), Some(WallSide::Right));
    assert_eq!(parse_wall_side("top").ok(), Some(WallSide::Top));
    assert_eq!(parse_wall_side("bottom").ok(), Some(WallSide::Bottom));
    assert_eq!(domain_code(&parse_wall_side("").unwrap_err()), "INVALID_WALL_SIDE");
}

#[test]
fn battery_update_sets_level_and_rejects_above_100() {
    let mut controller = create_simulation_controller(SimulationConfig::default());
    let status = update_simulation_battery(
        &mut controller,
        SimulationBatteryRequest { battery_percent: 42 },
    )
    .expect("valid level");
    assert_eq!(status.battery_percent, 42);

    let error = update_simulation_battery(
        &mut controller,
        SimulationBatteryRequest { battery_percent: 101 },
    )
    .expect_err("too high");
    assert_eq!(domain_code(&error), "INVALID_BATTERY_PERCENT");
    assert_eq!(controller.current_status().battery_percent, 42);
}

#[test]
fn docking_update_and_charging_transition() {
    let mut controller = create_simulation_controller(SimulationConfig::default());
    let status = update_simulation_docking(
        &mut controller,
        SimulationDockingRequest { dock_available: Some(false), dock_detected: None },
    );
    assert_eq!(status.state, RobotState::Standby);
    let error = controller.handle_command(RobotCommand::ReturnToDock).expect_err("no dock");
    assert_eq!(error.code, "DOCK_UNAVAILABLE");
    assert_eq!(error.current_state, Some(RobotState::Standby));

    update_simulation_docking(
        &mut controller,
        SimulationDockingRequest { dock_available: Some(true), dock_detected: None },
    );
    controller.handle_command(RobotCommand::StartCleaning).expect("start");
    controller.handle_command(RobotCommand::ReturnToDock).expect("return");
    let status = update_simulation_docking(
        &mut controller,
        SimulationDockingRequest { dock_available: None, dock_detected: Some(true) },
    );
    assert_eq!(status.state, RobotState::ReturningToDock);
    let status = simulation_tick(&mut controller, SimulationTickRequest { delta_ms: Some(100) })
        .expect("tick");
    assert_eq!(status.state, RobotState::Charging);
    assert!(status.is_charging);
    assert_eq!(status.left_wheel_speed, 0);
    assert_eq!(status.right_wheel_speed, 0);
}

#[test]
fn tick_delta_must_be_between_1_and_1000() {
    assert!(validate_tick_delta_ms(1).is_ok());
    assert!(validate_tick_delta_ms(1000).is_ok());
    assert_eq!(domain_code(&validate_tick_delta_ms(0).unwrap_err()), "INVALID_TICK_DELTA");
    assert_eq!(domain_code(&validate_tick_delta_ms(1001).unwrap_err()), "INVALID_TICK_DELTA");
}

#[test]
fn tick_advances_clock_and_expires_manual_move() {
    let mut controller = create_simulation_controller(SimulationConfig::default());
    controller
        .handle_command(RobotCommand::ManualMove {
            direction: ManualDirection::Forward,
            speed: 40,
            duration_ms: 150,
        })
        .expect("move");
    let status = simulation_tick(&mut controller, SimulationTickRequest { delta_ms: Some(200) })
        .expect("tick");
    assert_eq!(status.state, RobotState::Standby);
    assert_eq!(status.left_wheel_speed, 0);
    assert_eq!(controller.clock_mut().current_time_ms, 200);
}

#[test]
fn tick_without_delta_advances_100_ms() {
    let mut controller = create_simulation_controller(SimulationConfig::default());
    simulation_tick(&mut controller, SimulationTickRequest { delta_ms: None }).expect("tick");
    assert_eq!(controller.clock_mut().current_time_ms, 100);
}

#[test]
fn invalid_tick_changes_nothing() {
    let mut controller = create_simulation_controller(SimulationConfig::default());
    let error = simulation_tick(&mut controller, SimulationTickRequest { delta_ms: Some(0) })
        .expect_err("zero step");
    assert_eq!(domain_code(&error), "INVALID_TICK_DELTA");
    match &error {
        ApiError::Domain(e) => assert_eq!(e.message, "delta_ms must be greater than zero"),
        other => panic!("unexpected error {:?}", other),
    }
    assert_eq!(controller.clock_mut().current_time_ms, 0);

    let error = simulation_tick(&mut controller, SimulationTickRequest { delta_ms: Some(1001) })
        .expect_err("long step");
    assert_eq!(domain_code(&error), "INVALID_TICK_DELTA");
    match &error {
        ApiError::Domain(e) => {
            assert_eq!(e.message, "delta_ms must be less than or equal to 1000")
        },
        other => panic!("unexpected error {:?}", other),
    }
    assert_eq!(controller.clock_mut().current_time_ms, 0);
}

#[test]
fn reset_returns_initial_standby_status() {
    let mut controller = create_simulation_controller(SimulationConfig::default());
    controller.handle_command(RobotCommand::StartCleaning).expect("start");
    update_simulation_battery(&mut controller, SimulationBatteryRequest { battery_percent: 42 })
        .expect("battery");
    let status = simulation_reset(&mut controller, SimulationConfig::default());
    assert_eq!(status.state, RobotState::Standby);
    assert_eq!(status.cleaning_mode, CleaningMode::Auto);
    assert_eq!(status.battery_percent, 80);
    assert_eq!(status.left_wheel_speed, 0);
    assert_eq!(status.right_wheel_speed, 0);
}

#[test]
fn sensor_clear_and_tick_enter_clearance_phases() {
    let mut controller = create_simulation_controller(SimulationConfig::default());
    controller.handle_command(RobotCommand::StartCleaning).expect("start");
    let mut detected = empty_sensor_request();
    detected.proximity_contact = Some(true);
    detected.contact_type = Some("wall".to_string());
    detected.wall_side = Some("left".to_string());
    let status = update_simulation_sensors(&mut controller, &detected).expect("update");
    assert!(status.sensors.proximity_contact);
    assert_eq!(status.auto_navigation_phase.map(|p| p.as_str()), Some("ROOM_CROSSING"));

    let status = simulation_tick(&mut controller, SimulationTickRequest { delta_ms: Some(100) })
        .expect("tick");
    assert_eq!(status.state, RobotState::Cleaning);
    assert_eq!(status.left_wheel_speed, -24);
    assert_eq!(status.right_wheel_speed, -24);
    assert_eq!(status.auto_navigation_phase.map(|p| p.as_str()), Some("WALL_BACKUP"));

    let mut cleared = empty_sensor_request();
    cleared.proximity_contact = Some(false);
    cleared.bumper_pressed = Some(false);
    let status = update_simulation_sensors(&mut controller, &cleared).expect("clear");
    assert!(!status.sensors.proximity_contact);
    assert!(!status.sensors.bumper_pressed);

    let status = simulation_tick(&mut controller, SimulationTickRequest { delta_ms: Some(901) })
        .expect("tick");
    assert_eq!(status.state, RobotState::Cleaning);
    assert_eq!(status.auto_navigation_phase.map(|p| p.as_str()), Some("WALL_TURN_AWAY"));
    assert_eq!(status.left_wheel_speed, 6);
    assert_eq!(status.right_wheel_speed, -6);
}

#[test]
fn status_response_names_every_field() {
    let mut controller = create_simulation_controller(SimulationConfig::default());
    controller.handle_command(RobotCommand::StartCleaning).expect("start");
    controller.sensor_reader_mut().proximity_contact = true;
    controller.sensor_reader_mut().contact_type = Some(ContactType::Obstacle);
    controller.sensor_reader_mut().wall_side = Some(WallSide::Bottom);
    let response = RobotStatusResponse::from(controller.current_status());
    assert_eq!(response.state, "CLEANING");
    assert_eq!(response.cleaning_mode, "AUTO");
    assert_eq!(response.battery_percent, 80);
    assert!(response.suction_enabled);
    assert_eq!(response.auto_navigation_phase, Some("ROOM_CROSSING"));
    assert_eq!(response.current_error, None);
    assert_eq!(response.sensors.contact_type, Some("obstacle"));
    assert_eq!(response.sensors.wall_side, Some("bottom"));
    assert!(response.sensors.proximity_contact);
}

#[test]
fn request_enums_convert_to_domain_values() {
    assert_eq!(CleaningMode::from(CleaningModeRequest::Auto), CleaningMode::Auto);
    assert_eq!(CleaningMode::from(CleaningModeRequest::ZigZag), CleaningMode::ZigZag);
    assert_eq!(
        CleaningMode::from(CleaningModeRequest::WallFollowing),
        CleaningMode::WallFollowing
    );
    assert_eq!(CleaningMode::from(CleaningModeRequest::Spot), CleaningMode::Spot);
    assert_eq!(ManualDirection::from(ManualDirectionRequest::Forward), ManualDirection::Forward);
    assert_eq!(ManualDirection::from(ManualDirectionRequest::Backward), ManualDirection::Backward);
    assert_eq!(ManualDirection::from(ManualDirectionRequest::Left), ManualDirection::Left);
    assert_eq!(ManualDirection::from(ManualDirectionRequest::Right), ManualDirection::Right);
    assert_eq!(ManualDirection::from(ManualDirectionRequest::Stop), ManualDirection::Stop);
}

#[test]
fn api_errors_map_to_http_status_and_body() {
    let (status, body) = ApiError::BadRequest("broken json".to_string()).into_error_response();
    assert_eq!(status, HTTP_BAD_REQUEST);
    assert_eq!(body.code, "BAD_REQUEST");
    assert_eq!(body.message, "broken json");
    assert!(body.current_state.is_none());

    let conflict = DomainError::conflict(
        "COMMAND_NOT_ALLOWED",
        "nope".to_string(),
        RobotState::Charging,
    );
    let (status, body) = ApiError::from(conflict).into_error_response();
    assert_eq!(status, HTTP_CONFLICT);
    assert_eq!(body.code, "COMMAND_NOT_ALLOWED");
    assert_eq!(body.message, "nope");
    assert_eq!(body.current_state.as_deref(), Some("CHARGING"));

    let bad = DomainError::bad_request("INVALID_SPEED", "too fast".to_string());
    assert_eq!(bad.kind, ErrorKind::BadRequest);
    let (status, body) = ApiError::Domain(bad).into_error_response();
    assert_eq!(status, HTTP_BAD_REQUEST);
    assert_eq!(body.code, "INVALID_SPEED");
    assert!(body.current_state.is_none());
}
