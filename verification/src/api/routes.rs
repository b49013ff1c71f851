use vstd::prelude::*;

use crate::api::error::ApiError;
use crate::api::models::{
    SimulationBatteryRequest, SimulationDockingRequest, SimulationSensorsRequest,
    SimulationTickRequest,
};
use crate::api::text::str_equal;
use crate::application::controller::{status_of, tick_model, RobotModel};
use crate::domain::models::{ContactType, DomainError, ErrorKind, RobotStatus, SensorSnapshot, WallSide};
use crate::simulation::{
    fresh_simulation, reset_simulation_controller, SimulationConfig, SimulationRobotController,
};

verus! {

/// Whether `e` is the bad-request error with `code` and `message`.
pub open spec fn is_bad_request(e: ApiError, code: &'static str, message: Seq<char>) -> bool {
    match e {
        ApiError::Domain(d) => {
            &&& d.kind == ErrorKind::BadRequest
            &&& d.code == code
            &&& d.message@ == message
            &&& d.current_state.is_none()
        },
        ApiError::BadRequest(_) => false,
    }
}

/// Whether `r` is a refusal with the bad-request error `code` and `message`.
pub open spec fn refused<T>(r: Result<T, ApiError>, code: &'static str, message: Seq<char>) -> bool {
    match r {
        Err(e) => is_bad_request(e, code, message),
        Ok(_) => false,
    }
}

/// A bad-request error.
fn bad_request(code: &'static str, message: &str) -> (r: ApiError)
    ensures
        is_bad_request(r, code, message@),
{
    ApiError::Domain(DomainError::bad_request(code, String::from_str(message)))
}

/// The contact type named `name`, if any.
pub open spec fn contact_type_named(name: Seq<char>) -> Option<ContactType> {
    if name == "wall"@ {
        Some(ContactType::Wall)
    } else if name == "obstacle"@ {
        Some(ContactType::Obstacle)
    } else if name == "unknown"@ {
        Some(ContactType::Unknown)
    } else {
        None
    }
}

/// The wall side named `name`, if any.
pub open spec fn wall_side_named(name: Seq<char>) -> Option<WallSide> {
    if name == "left"@ {
        Some(WallSide::Left)
    } else if name == "right"@ {
        Some(WallSide::Right)
    } else if name == "top"@ {
        Some(WallSide::Top)
    } else if name == "bottom"@ {
        Some(WallSide::Bottom)
    } else {
        None
    }
}

/// Reads a contact type from its name: `wall`, `obstacle` or `unknown`;
/// any other name is refused with `INVALID_CONTACT_TYPE`.
pub fn parse_contact_type(value: &str) -> (r: Result<ContactType, ApiError>)
    ensures
        contact_type_named(value@) matches Some(c) ==> r == Ok::<ContactType, ApiError>(c),
        contact_type_named(value@) is None ==> refused(
            r,
            "INVALID_CONTACT_TYPE",
            "contact_type must be one of: wall, obstacle, unknown"@,
        ),
{
    if str_equal(value, "wall") {
        Ok(ContactType::Wall)
    } else if str_equal(value, "obstacle") {
        Ok(ContactType::Obstacle)
    } else if str_equal(value, "unknown") {
        Ok(ContactType::Unknown)
    } else {
        Err(
            bad_request(
                "INVALID_CONTACT_TYPE",
                "contact_type must be one of: wall, obstacle, unknown",
            ),
        )
    }
}

/// Reads a wall side from its name: `left`, `right`, `top` or `bottom`; any
/// other name is refused with `INVALID_WALL_SIDE`.
pub fn parse_wall_side(value: &str) -> (r: Result<WallSide, ApiError>)
    ensures
        wall_side_named(value@) matches Some(w) ==> r == Ok::<WallSide, ApiError>(w),
        wall_side_named(value@) is None ==> refused(
            r,
            "INVALID_WALL_SIDE",
            "wall_side must be one of: left, right, top, bottom"@,
        ),
{
    if str_equal(value, "left") {
        Ok(WallSide::Left)
    } else if str_equal(value, "right") {
        Ok(WallSide::Right)
    } else if str_equal(value, "top") {
        Ok(WallSide::Top)
    } else if str_equal(value, "bottom") {
        Ok(WallSide::Bottom)
    } else {
        Err(bad_request("INVALID_WALL_SIDE", "wall_side must be one of: left, right, top, bottom"))
    }
}

/// The value of an optional flag, or `default` when it is absent.
pub open spec fn flag_or(flag: Option<bool>, default: bool) -> bool {
    match flag {
        Some(b) => b,
        None => default,
    }
}

/// Whether a sensor update names a wall side or a contact type that does not
/// exist (the wall side is checked first).
pub open spec fn sensor_update_rejection(payload: SimulationSensorsRequest) -> Option<
    (&'static str, Seq<char>),
> {
    if payload.wall_side.is_some() && wall_side_named(payload.wall_side.unwrap()@).is_none() {
        Some(("INVALID_WALL_SIDE", "wall_side must be one of: left, right, top, bottom"@))
    } else if payload.contact_type.is_some() && contact_type_named(
        payload.contact_type.unwrap()@,
    ).is_none() {
        Some(("INVALID_CONTACT_TYPE", "contact_type must be one of: wall, obstacle, unknown"@))
    } else {
        None
    }
}

/// The sensor reading after a valid update of `current`. A contact is reported
/// by `proximity_contact`, or failing that by `bumper_pressed`, and then sets
/// both; only a contact carries a wall side and a contact type, and a contact
/// with a known wall side is a wall contact. The forward clearance is blocked
/// only when the update says so; the other readings keep their current value
/// unless the update gives one.
pub open spec fn sensor_update(current: SensorSnapshot, payload: SimulationSensorsRequest) -> SensorSnapshot {
    let contact = match payload.proximity_contact {
        Some(b) => b,
        None => flag_or(payload.bumper_pressed, false),
    };
    let named_wall_side = if payload.wall_side.is_some() {
        wall_side_named(payload.wall_side.unwrap()@)
    } else {
        None
    };
    let named_contact = if payload.contact_type.is_some() {
        contact_type_named(payload.contact_type.unwrap()@)
    } else {
        None
    };
    let resolved = resolved_contact(contact, named_wall_side, named_contact);
    SensorSnapshot {
        obstacle_detected: flag_or(payload.obstacle_detected, current.obstacle_detected),
        drop_off_detected: flag_or(payload.drop_off_detected, current.drop_off_detected),
        bumper_pressed: contact,
        proximity_contact: contact,
        contact_type: resolved.0,
        wall_side: resolved.1,
        forward_clearance_blocked: flag_or(payload.forward_clearance_blocked, false),
        dust_container_full: flag_or(payload.dust_container_full, current.dust_container_full),
        wheel_stuck: flag_or(payload.wheel_stuck, current.wheel_stuck),
        brush_stuck: flag_or(payload.brush_stuck, current.brush_stuck),
        top_cover_open: flag_or(payload.top_cover_open, current.top_cover_open),
    }
}

/// Reads an optional wall side name.
fn parse_optional_wall_side(value: &Option<String>) -> (r: Result<Option<WallSide>, ApiError>)
    ensures
        value.is_none() ==> r == Ok::<Option<WallSide>, ApiError>(None),
        value.is_some() && wall_side_named(value.unwrap()@).is_some() ==> r == Ok::<
            Option<WallSide>,
            ApiError,
        >(wall_side_named(value.unwrap()@)),
        value.is_some() && wall_side_named(value.unwrap()@).is_none() ==> refused(
            r,
            "INVALID_WALL_SIDE",
            "wall_side must be one of: left, right, top, bottom"@,
        ),
{
    match value {
        Some(v) => {
            let side = parse_wall_side(v.as_str())?;
            Ok(Some(side))
        },
        None => Ok(None),
    }
}

/// Reads an optional contact type name.
fn parse_optional_contact_type(value: &Option<String>) -> (r: Result<Option<ContactType>, ApiError>)
    ensures
        value.is_none() ==> r == Ok::<Option<ContactType>, ApiError>(None),
        value.is_some() && contact_type_named(value.unwrap()@).is_some() ==> r == Ok::<
            Option<ContactType>,
            ApiError,
        >(contact_type_named(value.unwrap()@)),
        value.is_some() && contact_type_named(value.unwrap()@).is_none() ==> refused(
            r,
            "INVALID_CONTACT_TYPE",
            "contact_type must be one of: wall, obstacle, unknown"@,
        ),
{
    match value {
        Some(v) => {
            let contact = parse_contact_type(v.as_str())?;
            Ok(Some(contact))
        },
        None => Ok(None),
    }
}

/// The (contact type, wall side) that a reading carries: nothing without a
/// contact; with one, the wall side if known (and then a wall contact),
/// otherwise the named contact type or unknown.
pub open spec fn resolved_contact(
    contact: bool,
    wall_side: Option<WallSide>,
    contact_type: Option<ContactType>,
) -> (Option<ContactType>, Option<WallSide>) {
    if !contact {
        (None, None)
    } else if wall_side.is_some() {
        (Some(ContactType::Wall), wall_side)
    } else {
        match contact_type {
            Some(ContactType::Wall) => (Some(ContactType::Wall), None),
            Some(ContactType::Obstacle) => (Some(ContactType::Obstacle), None),
            _ => (Some(ContactType::Unknown), None),
        }
    }
}

/// Resolves the contact type and wall side of a reading.
fn resolve_contact(
    contact: bool,
    parsed_wall_side: Option<WallSide>,
    parsed_contact_type: Option<ContactType>,
) -> (r: (Option<ContactType>, Option<WallSide>))
    ensures
        r == resolved_contact(contact, parsed_wall_side, parsed_contact_type),
{
    let wall_side = if contact {
        parsed_wall_side
    } else {
        None
    };
    let contact_type = if !contact {
        None
    } else if wall_side.is_some() {
        Some(ContactType::Wall)
    } else {
        match parsed_contact_type {
            Some(ContactType::Wall) => Some(ContactType::Wall),
            Some(ContactType::Obstacle) => Some(ContactType::Obstacle),
            Some(ContactType::Unknown) | None => Some(ContactType::Unknown),
        }
    };
    (contact_type, wall_side)
}

/// The value of an optional flag, or `default`.
fn flag_value(flag: Option<bool>, default: bool) -> (r: bool)
    ensures
        r == flag_or(flag, default),
{
    match flag {
        Some(b) => b,
        None => default,
    }
}

/// Whether an optional flag of an update sets `after` from `before`: to the
/// value given, or left as it was when none is given.
pub open spec fn flag_applied(flag: Option<bool>, before: bool, after: bool) -> bool {
    &&& flag == Some(true) ==> after
    &&& flag == Some(false) ==> !after
    &&& flag.is_none() ==> after == before
}

/// A valid sensor update sets each of the obstacle, drop-off, dust
/// container, wheel, brush and top cover readings to the value it gives, and
/// leaves the ones it does not mention as they were. The forward way is
/// blocked only when the update says so. A contact is on exactly when the
/// update reports one by `proximity_contact`, or, without that, by
/// `bumper_pressed`, and then the bumper and the proximity sensor agree;
/// without a contact there is no contact type and no wall side, and with one
/// a known wall side makes it a wall contact on that side.
pub proof fn law_sensor_update_keeps_unspecified_readings(
    current: SensorSnapshot,
    payload: SimulationSensorsRequest,
)
    requires
        payload.wall_side.is_none() || wall_side_named(payload.wall_side.unwrap()@).is_some(),
        payload.contact_type.is_none() || contact_type_named(payload.contact_type.unwrap()@).is_some(),
    ensures
        sensor_update_rejection(payload).is_none(),
        ({
            let after = sensor_update(current, payload);
            let contact = payload.proximity_contact == Some(true) || (
            payload.proximity_contact.is_none() && payload.bumper_pressed == Some(true));
            &&& flag_applied(payload.obstacle_detected, current.obstacle_detected, after.obstacle_detected)
            &&& flag_applied(payload.drop_off_detected, current.drop_off_detected, after.drop_off_detected)
            &&& flag_applied(
                payload.dust_container_full,
                current.dust_container_full,
                after.dust_container_full,
            )
            &&& flag_applied(payload.wheel_stuck, current.wheel_stuck, after.wheel_stuck)
            &&& flag_applied(payload.brush_stuck, current.brush_stuck, after.brush_stuck)
            &&& flag_applied(payload.top_cover_open, current.top_cover_open, after.top_cover_open)
            &&& after.forward_clearance_blocked == (payload.forward_clearance_blocked == Some(true))
            &&& after.proximity_contact == contact
            &&& after.bumper_pressed == contact
            &&& !contact ==> after.contact_type.is_none() && after.wall_side.is_none()
            &&& contact && payload.wall_side.is_some() ==> {
                &&& after.contact_type == Some(ContactType::Wall)
                &&& after.wall_side == wall_side_named(payload.wall_side.unwrap()@)
            }
            &&& contact && payload.wall_side.is_none() ==> {
                &&& after.wall_side.is_none()
                &&& payload.contact_type.is_some() ==> after.contact_type == contact_type_named(
                    payload.contact_type.unwrap()@,
                )
                &&& payload.contact_type.is_none() ==> after.contact_type == Some(
                    ContactType::Unknown,
                )
            }
        }),
{
}

/// The names that a sensor update accepts: wall sides `left`, `right`,
/// `top` and `bottom`, and contact types `wall`, `obstacle` and `unknown`,
/// each for its own value. An update naming any other wall side is refused
/// with `INVALID_WALL_SIDE`; one with a known wall side (or none) but another
/// contact type with `INVALID_CONTACT_TYPE`.
pub proof fn law_sensor_update_names(payload: SimulationSensorsRequest)
    ensures
        wall_side_named("left"@) == Some(WallSide::Left),
        wall_side_named("right"@) == Some(WallSide::Right),
        wall_side_named("top"@) == Some(WallSide::Top),
        wall_side_named("bottom"@) == Some(WallSide::Bottom),
        contact_type_named("wall"@) == Some(ContactType::Wall),
        contact_type_named("obstacle"@) == Some(ContactType::Obstacle),
        contact_type_named("unknown"@) == Some(ContactType::Unknown),
        payload.wall_side.is_some() && wall_side_named(payload.wall_side.unwrap()@).is_none()
            ==> sensor_update_rejection(payload) == Some(
            ("INVALID_WALL_SIDE", "wall_side must be one of: left, right, top, bottom"@),
        ),
        (payload.wall_side.is_none() || wall_side_named(payload.wall_side.unwrap()@).is_some())
            && payload.contact_type.is_some() && contact_type_named(
            payload.contact_type.unwrap()@,
        ).is_none() ==> sensor_update_rejection(payload) == Some(
            ("INVALID_CONTACT_TYPE", "contact_type must be one of: wall, obstacle, unknown"@),
        ),
{
    reveal_strlit("left");
    reveal_strlit("right");
    reveal_strlit("top");
    reveal_strlit("bottom");
    reveal_strlit("wall");
    reveal_strlit("obstacle");
    reveal_strlit("unknown");
    assert("right"@[0] != "left"@[0]);
    assert("top"@[0] != "left"@[0] && "top"@[0] != "right"@[0]);
    assert("bottom"@[0] != "left"@[0] && "bottom"@[0] != "right"@[0] && "bottom"@[0] != "top"@[0]);
    assert("obstacle"@[0] != "wall"@[0]);
    assert("unknown"@[0] != "wall"@[0] && "unknown"@[0] != "obstacle"@[0]);
}

/// Applies a simulated sensor update to `current`, or refuses it when it names
/// an unknown wall side or contact type.
pub fn update_sensor_snapshot(current: SensorSnapshot, payload: &SimulationSensorsRequest) -> (r:
    Result<SensorSnapshot, ApiError>)
    ensures
        sensor_update_rejection(*payload) matches Some(j) ==> refused(r, j.0, j.1),
        sensor_update_rejection(*payload) is None ==> r == Ok::<SensorSnapshot, ApiError>(
            sensor_update(current, *payload),
        ),
{
    let proximity_contact = match payload.proximity_contact {
        Some(b) => b,
        None => flag_value(payload.bumper_pressed, false),
    };
    let parsed_wall_side = parse_optional_wall_side(&payload.wall_side)?;
    let parsed_contact_type = parse_optional_contact_type(&payload.contact_type)?;
    let (contact_type, wall_side) = resolve_contact(
        proximity_contact,
        parsed_wall_side,
        parsed_contact_type,
    );
    Ok(
        SensorSnapshot {
            obstacle_detected: flag_value(payload.obstacle_detected, current.obstacle_detected),
            drop_off_detected: flag_value(payload.drop_off_detected, current.drop_off_detected),
            bumper_pressed: proximity_contact,
            proximity_contact,
            contact_type,
            wall_side,
            forward_clearance_blocked: flag_value(payload.forward_clearance_blocked, false),
            dust_container_full: flag_value(
                payload.dust_container_full,
                current.dust_container_full,
            ),
            wheel_stuck: flag_value(payload.wheel_stuck, current.wheel_stuck),
            brush_stuck: flag_value(payload.brush_stuck, current.brush_stuck),
            top_cover_open: flag_value(payload.top_cover_open, current.top_cover_open),
        },
    )
}

/// `POST /simulation/sensors`: updates the simulated sensors and reports the
/// status; a refused update changes nothing.
pub fn update_simulation_sensors(
    controller: &mut SimulationRobotController,
    payload: &SimulationSensorsRequest,
) -> (r: Result<RobotStatus, ApiError>)
    requires
        old(controller).wf(),
    ensures
        final(controller).wf(),
        sensor_update_rejection(*payload) matches Some(j) ==> refused(
            r,
            j.0,
            j.1,
        ) && final(controller).model() == old(controller).model(),
        sensor_update_rejection(*payload) is None ==> {
            let m = RobotModel {
                sensors: sensor_update(old(controller).model().sensors, *payload),
                ..old(controller).model()
            };
            &&& final(controller).model() == m
            &&& r == Ok::<RobotStatus, ApiError>(status_of(m))
        },
{
    let current = controller.current_status().sensors;
    let next = update_sensor_snapshot(current, payload)?;
    controller.sensor_reader_mut().set_snapshot(next);
    Ok(controller.current_status())
}

/// `POST /simulation/battery`: sets the simulated charge level; a level above
/// 100 is refused with `INVALID_BATTERY_PERCENT` and changes nothing.
pub fn update_simulation_battery(
    controller: &mut SimulationRobotController,
    payload: SimulationBatteryRequest,
) -> (r: Result<RobotStatus, ApiError>)
    requires
        old(controller).wf(),
    ensures
        final(controller).wf(),
        payload.battery_percent > 100 ==> refused(
            r,
            "INVALID_BATTERY_PERCENT",
            "battery_percent must be in the range 0..=100"@,
        ) && final(controller).model() == old(controller).model(),
        payload.battery_percent <= 100 ==> {
            let m = RobotModel {
                battery: crate::hal::traits::BatteryStatus {
                    percentage: payload.battery_percent,
                    charging: old(controller).model().battery.charging,
                },
                ..old(controller).model()
            };
            &&& final(controller).model() == m
            &&& r == Ok::<RobotStatus, ApiError>(status_of(m))
        },
{
    if payload.battery_percent > 100 {
        return Err(
            bad_request("INVALID_BATTERY_PERCENT", "battery_percent must be in the range 0..=100"),
        );
    }
    controller.battery_driver_mut().set_percentage(payload.battery_percent);
    Ok(controller.current_status())
}

/// `POST /simulation/docking`: updates whichever docking readings the request
/// gives and reports the status.
pub fn update_simulation_docking(
    controller: &mut SimulationRobotController,
    payload: SimulationDockingRequest,
) -> (r: RobotStatus)
    requires
        old(controller).wf(),
    ensures
        final(controller).wf(),
        final(controller).model() == (RobotModel {
            docking: crate::hal::traits::DockingStatus {
                dock_available: flag_or(
                    payload.dock_available,
                    old(controller).model().docking.dock_available,
                ),
                dock_detected: flag_or(
                    payload.dock_detected,
                    old(controller).model().docking.dock_detected,
                ),
            },
            ..old(controller).model()
        }),
        r == status_of(final(controller).model()),
{
    let docking = controller.docking_driver_mut();
    if let Some(dock_available) = payload.dock_available {
        docking.set_dock_available(dock_available);
    }
    if let Some(dock_detected) = payload.dock_detected {
        docking.set_dock_detected(dock_detected);
    }
    controller.current_status()
}

/// The clock step of a simulation tick when the request gives none.
pub const DEFAULT_TICK_DELTA_MS: u64 = 100;

/// The largest clock step of a simulation tick.
pub const MAX_TICK_DELTA_MS: u64 = 1000;

/// A tick must advance the clock by 1 to 1000 ms; zero and larger steps are
/// refused with `INVALID_TICK_DELTA`.
pub fn validate_tick_delta_ms(delta_ms: u64) -> (r: Result<(), ApiError>)
    ensures
        delta_ms == 0 ==> refused(
            r,
            "INVALID_TICK_DELTA",
            "delta_ms must be greater than zero"@,
        ),
        delta_ms > MAX_TICK_DELTA_MS ==> refused(
            r,
            "INVALID_TICK_DELTA",
            "delta_ms must be less than or equal to 1000"@,
        ),
        1 <= delta_ms <= MAX_TICK_DELTA_MS ==> r is Ok,
{
    if delta_ms == 0 {
        return Err(bad_request("INVALID_TICK_DELTA", "delta_ms must be greater than zero"));
    }
    if delta_ms > MAX_TICK_DELTA_MS {
        return Err(bad_request("INVALID_TICK_DELTA", "delta_ms must be less than or equal to 1000"));
    }
    Ok(())
}

/// `POST /simulation/tick`: advances the simulated clock by the requested
/// step (100 ms by default) and runs one tick; an invalid step is refused and
/// changes nothing.
pub fn simulation_tick(controller: &mut SimulationRobotController, payload: SimulationTickRequest) -> (r:
    Result<RobotStatus, ApiError>)
    requires
        old(controller).wf(),
    ensures
        final(controller).wf(),
        ({
            let delta = match payload.delta_ms {
                Some(d) => d,
                None => DEFAULT_TICK_DELTA_MS,
            };
            if 1 <= delta <= MAX_TICK_DELTA_MS {
                let advanced = RobotModel {
                    now: old(controller).model().now.saturating_add(delta),
                    ..old(controller).model()
                };
                &&& final(controller).model() == tick_model(advanced)
                &&& r == Ok::<RobotStatus, ApiError>(status_of(final(controller).model()))
            } else {
                &&& delta == 0 ==> refused(
                    r,
                    "INVALID_TICK_DELTA",
                    "delta_ms must be greater than zero"@,
                )
                &&& delta > MAX_TICK_DELTA_MS ==> refused(
                    r,
                    "INVALID_TICK_DELTA",
                    "delta_ms must be less than or equal to 1000"@,
                )
                &&& final(controller).model() == old(controller).model()
            }
        }),
{
    let delta_ms = match payload.delta_ms {
        Some(d) => d,
        None => DEFAULT_TICK_DELTA_MS,
    };
    match validate_tick_delta_ms(delta_ms) {
        Ok(()) => {},
        Err(e) => {
            return Err(e);
        },
    }
    controller.clock_mut().advance_ms(delta_ms);
    Ok(controller.tick())
}

/// `POST /simulation/reset`: replaces the simulated robot by a fresh one
/// built from `config` and reports its status.
pub fn simulation_reset(controller: &mut SimulationRobotController, config: SimulationConfig) -> (r:
    RobotStatus)
    ensures
        final(controller).wf(),
        final(controller).model() == fresh_simulation(config),
        r == status_of(fresh_simulation(config)),
{
    reset_simulation_controller(controller, config);
    controller.current_status()
}

} // verus!
