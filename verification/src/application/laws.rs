use vstd::prelude::*;

use crate::application::controller::{
    handle_command_model, status_of, tick_model, RobotModel,
};
use crate::application::navigation::{
    elapsed_ms, nav_motion, nav_step, path_clear, spin, touching, wall_contact,
    wall_turn_away_min_ms, NavModel, BACKUP_SPEED, CLEARANCE_TURN_SPEED, ROOM_CROSSING_SPEED,
};
use crate::controllers::safety::critical_error;
use crate::controllers::BatteryManager;
use crate::domain::models::{
    AutoNavigationPhase, CleaningMode, RobotCommand, RobotError, RobotState, SensorSnapshot,
};
use crate::domain::state_machine::step_permitted;

verus! {

/// Whether every actuator is stopped: wheels, suction, brushes and charging.
pub open spec fn all_stopped(m: RobotModel) -> bool {
    &&& m.wheels == (0i16, 0i16)
    &&& !m.suction
    &&& !m.brushes
    &&& !m.battery.charging
}

/// Whether `to` can be reached from `from` in at most three steps of the
/// state machine.
pub open spec fn reachable_within_three(from: RobotState, to: RobotState) -> bool {
    exists|a: RobotState, b: RobotState|
        #[trigger] step_permitted(from, a) && step_permitted(a, b) && #[trigger] step_permitted(b, to)
}

/// A tick that sees a critical sensor condition leaves the robot in `ERROR`
/// with that error recorded and every actuator stopped.
pub proof fn law_tick_stops_on_critical_condition(m: RobotModel)
    requires
        critical_error(m.sensors).is_some(),
    ensures
        tick_model(m).state == RobotState::Error,
        tick_model(m).current_error == critical_error(m.sensors),
        all_stopped(tick_model(m)),
{
}

/// A tick that finds the dust container full while cleaning leaves the robot
/// in `ERROR` with `DUST_CONTAINER_FULL` and every actuator stopped.
pub proof fn law_tick_stops_on_full_dust_container(m: RobotModel)
    requires
        m.state == RobotState::Cleaning,
        m.sensors.dust_container_full,
    ensures
        tick_model(m).state == RobotState::Error,
        all_stopped(tick_model(m)),
        critical_error(m.sensors).is_none() ==> tick_model(m).current_error == Some(
            RobotError::DustContainerFull,
        ),
{
}

/// A command that arrives while a critical sensor condition is active is
/// refused, and the robot is left in `ERROR` with every actuator stopped.
pub proof fn law_command_refused_under_critical_condition(m: RobotModel, command: RobotCommand)
    requires
        critical_error(m.sensors).is_some(),
    ensures
        handle_command_model(m, command).1.is_some(),
        handle_command_model(m, command).1.unwrap().code == "SAFETY_CONDITION_ACTIVE",
        handle_command_model(m, command).0.state == RobotState::Error,
        all_stopped(handle_command_model(m, command).0),
{
}

/// When no safety condition is active, a refused command leaves the robot
/// exactly as it was.
pub proof fn law_refused_command_changes_nothing(m: RobotModel, command: RobotCommand)
    requires
        critical_error(m.sensors).is_none(),
        !(m.state == RobotState::Cleaning && m.sensors.dust_container_full),
        handle_command_model(m, command).1.is_some(),
    ensures
        handle_command_model(m, command).0 == m,
{
}

/// Asking for the status changes nothing when no safety condition is active.
pub proof fn law_get_status_changes_nothing(m: RobotModel)
    requires
        critical_error(m.sensors).is_none(),
        !(m.state == RobotState::Cleaning && m.sensors.dust_container_full),
    ensures
        handle_command_model(m, RobotCommand::GetStatus) == (m, None::<
            crate::application::controller::Rejection,
        >),
{
}

/// A command moves the robot along at most one allowed transition of the
/// state machine.
pub proof fn law_command_follows_state_machine(m: RobotModel, command: RobotCommand)
    requires
        m.state != RobotState::Off,
    ensures
        step_permitted(m.state, handle_command_model(m, command).0.state),
{
}

/// A tick moves the robot along at most three allowed transitions of the
/// state machine (for instance: cleaning, then returning to the dock on a low
/// battery, then charging on reaching the dock).
pub proof fn law_tick_follows_state_machine(m: RobotModel)
    requires
        m.state != RobotState::Off,
    ensures
        reachable_within_three(m.state, tick_model(m).state),
{
    let t = tick_model(m);
    match critical_error(m.sensors) {
        Some(_) => {
            assert(step_permitted(m.state, RobotState::Error));
            assert(step_permitted(RobotState::Error, RobotState::Error));
            assert(step_permitted(RobotState::Error, t.state));
        },
        None => {
            if m.state == RobotState::Cleaning && m.sensors.dust_container_full {
                assert(step_permitted(m.state, RobotState::Error));
                assert(step_permitted(RobotState::Error, RobotState::Error));
                assert(step_permitted(RobotState::Error, t.state));
            } else {
                let m1 = crate::application::controller::expire_manual_move(m);
                let m2 = crate::application::controller::low_battery_return(m1);
                let m3 = crate::application::controller::auto_navigation_model(m2);
                let m4 = crate::application::controller::dock_arrival(m3);
                if m1.state != m.state {
                    assert(step_permitted(m.state, m1.state));
                    assert(step_permitted(m1.state, m1.state));
                    assert(step_permitted(m1.state, t.state));
                } else if m2.state != m1.state {
                    assert(step_permitted(m.state, m2.state));
                    assert(step_permitted(m2.state, m4.state));
                    assert(step_permitted(m4.state, t.state));
                } else {
                    assert(step_permitted(m.state, m.state));
                    assert(step_permitted(m.state, m4.state));
                    assert(step_permitted(m4.state, t.state));
                }
            }
        },
    }
}

/// A robot in `ERROR` stays in `ERROR` through any tick and any command
/// other than `CLEAR_ERROR`.
pub proof fn law_error_is_left_only_by_clear_error(m: RobotModel, command: RobotCommand)
    requires
        m.state == RobotState::Error,
    ensures
        tick_model(m).state == RobotState::Error,
        command != RobotCommand::ClearError ==> handle_command_model(m, command).0.state
            == RobotState::Error,
{
}

/// A robot in `ERROR` with its actuators stopped keeps them stopped through
/// any tick and any command, `CLEAR_ERROR` included.
pub proof fn law_error_keeps_actuators_stopped(m: RobotModel, command: RobotCommand)
    requires
        m.state == RobotState::Error,
        all_stopped(m),
    ensures
        all_stopped(tick_model(m)),
        all_stopped(handle_command_model(m, command).0),
{
}

/// Once its deadline has passed, a manual move ends at the next tick: the
/// robot is back in `STANDBY` in the automatic mode with its wheels stopped.
pub proof fn law_manual_move_expires(m: RobotModel)
    requires
        m.state == RobotState::ManualControl,
        m.manual_move_deadline_ms.is_some(),
        m.now >= m.manual_move_deadline_ms.unwrap(),
        critical_error(m.sensors).is_none(),
    ensures
        tick_model(m).state == RobotState::Standby,
        tick_model(m).cleaning_mode == CleaningMode::Auto,
        tick_model(m).wheels == (0i16, 0i16),
        tick_model(m).manual_move_deadline_ms.is_none(),
{
}

/// Cleaning on a low battery ends at the next tick: suction and brushes stop
/// and the robot heads for the dock, or starts charging if it is already
/// there.
pub proof fn law_low_battery_ends_cleaning(m: RobotModel)
    requires
        m.state == RobotState::Cleaning,
        m.battery.percentage <= BatteryManager::LOW_BATTERY_THRESHOLD,
        critical_error(m.sensors).is_none(),
        !m.sensors.dust_container_full,
    ensures
        tick_model(m).state == RobotState::ReturningToDock || tick_model(m).state
            == RobotState::Charging,
        !tick_model(m).suction,
        !tick_model(m).brushes,
{
}

/// The navigation phases that the pattern uses once started from idle.
pub open spec fn phase_in_use(p: AutoNavigationPhase) -> bool {
    match p {
        AutoNavigationPhase::Idle
        | AutoNavigationPhase::RoomCrossing
        | AutoNavigationPhase::ClearanceBackup
        | AutoNavigationPhase::ClearanceTurnClear
        | AutoNavigationPhase::ClearanceExitForward
        | AutoNavigationPhase::WallBackup
        | AutoNavigationPhase::WallTurnAway
        | AutoNavigationPhase::WallExitForward => true,
        _ => false,
    }
}

/// The navigation pattern never leaves the phases in use: crossing the room,
/// the obstacle escape (back up, turn until clear, drive out) and the wall
/// recovery (back up, turn away, drive out).
pub proof fn law_navigation_stays_in_used_phases(m: NavModel, s: crate::domain::models::SensorSnapshot, now: u64)
    requires
        phase_in_use(m.phase),
    ensures
        phase_in_use(nav_step(m, s, now).phase),
{
}

/// A contact while crossing the room always starts a recovery that backs
/// away: the wall recovery for a wall, the obstacle escape otherwise.
pub proof fn law_contact_starts_backing_away(m: NavModel, s: crate::domain::models::SensorSnapshot, now: u64)
    requires
        m.phase == AutoNavigationPhase::RoomCrossing,
        touching(s),
    ensures
        nav_step(m, s, now).phase == (if wall_contact(s) {
            AutoNavigationPhase::WallBackup
        } else {
            AutoNavigationPhase::ClearanceBackup
        }),
        nav_motion(nav_step(m, s, now)) == (BACKUP_SPEED, BACKUP_SPEED),
{
}

/// Without a contact the robot keeps crossing the room; an obstacle that is
/// only detected does not trigger an escape.
pub proof fn law_no_contact_keeps_crossing(m: NavModel, s: crate::domain::models::SensorSnapshot, now: u64)
    requires
        m.phase == AutoNavigationPhase::RoomCrossing,
        !touching(s),
    ensures
        nav_step(m, s, now).phase == AutoNavigationPhase::RoomCrossing,
{
}

/// The obstacle escape keeps turning while the way is not clear.
pub proof fn law_clearance_turn_holds_until_clear(m: NavModel, s: crate::domain::models::SensorSnapshot, now: u64)
    requires
        m.phase == AutoNavigationPhase::ClearanceTurnClear,
        !path_clear(s),
    ensures
        nav_step(m, s, now).phase == AutoNavigationPhase::ClearanceTurnClear,
        nav_step(m, s, now).clear_sensor_ticks == 0,
{
}

/// The status reports the navigation phase exactly while cleaning in the
/// automatic mode, and otherwise reports the robot as it is: its state,
/// mode, charge, actuators, left and right wheel speeds, error and sensors.
pub proof fn law_status_reports_the_robot(m: RobotModel)
    ensures
        status_of(m).state == m.state,
        status_of(m).cleaning_mode == m.cleaning_mode,
        status_of(m).battery_percent == m.battery.percentage,
        status_of(m).is_charging == m.battery.charging,
        status_of(m).suction_enabled == m.suction,
        status_of(m).brushes_enabled == m.brushes,
        status_of(m).left_wheel_speed == m.wheels.0,
        status_of(m).right_wheel_speed == m.wheels.1,
        status_of(m).current_error == m.current_error,
        status_of(m).sensors == m.sensors,
        status_of(m).auto_navigation_phase.is_some() ==> status_of(m).auto_navigation_phase
            == Some(m.nav.phase),
        status_of(m).auto_navigation_phase.is_some() <==> (m.state == RobotState::Cleaning
            && m.cleaning_mode == CleaningMode::Auto),
{
}

/// The navigation state after the readings `steps`, each a sensor snapshot
/// and the clock time at which it is taken, fed to the pattern in order.
pub open spec fn nav_run(m: NavModel, steps: Seq<(SensorSnapshot, u64)>) -> NavModel
    decreases steps.len(),
{
    if steps.len() == 0 {
        m
    } else {
        nav_step(nav_run(m, steps.drop_last()), steps.last().0, steps.last().1)
    }
}

/// Whether the readings at `i - 1` and `i` both find the way clear.
pub open spec fn clear_twice_at(steps: Seq<(SensorSnapshot, u64)>, i: int) -> bool {
    path_clear(steps[i - 1].0) && path_clear(steps[i].0)
}

/// Whether no two readings in a row find the way clear.
pub open spec fn never_clear_twice(steps: Seq<(SensorSnapshot, u64)>) -> bool {
    forall|i: int| 1 <= i < steps.len() ==> !#[trigger] clear_twice_at(steps, i)
}

/// The obstacle escape keeps turning in place, in the direction it chose,
/// for as long as no two readings in a row find the way clear, however much
/// time passes; the count of clear readings is 1 just after a clear reading
/// and 0 otherwise.
pub proof fn law_clearance_turn_holds_until_clear_twice(m: NavModel, steps: Seq<(SensorSnapshot, u64)>)
    requires
        m.phase == AutoNavigationPhase::ClearanceTurnClear,
        m.clear_sensor_ticks == 0,
        never_clear_twice(steps),
    ensures
        nav_run(m, steps).phase == AutoNavigationPhase::ClearanceTurnClear,
        nav_run(m, steps).clearance_turn_right == m.clearance_turn_right,
        nav_run(m, steps).clear_sensor_ticks == (if steps.len() > 0 && path_clear(steps.last().0) {
            1u8
        } else {
            0u8
        }),
        nav_motion(nav_run(m, steps)) == spin(m.clearance_turn_right, CLEARANCE_TURN_SPEED),
    decreases steps.len(),
{
    if steps.len() > 0 {
        let prefix = steps.drop_last();
        assert forall|i: int| 1 <= i < prefix.len() implies !#[trigger] clear_twice_at(prefix, i) by {
            assert(clear_twice_at(prefix, i) == clear_twice_at(steps, i));
        }
        law_clearance_turn_holds_until_clear_twice(m, prefix);
        if steps.len() > 1 {
            assert(!clear_twice_at(steps, steps.len() - 1));
        }
    }
}

/// The obstacle escape drives out, straight ahead, on the second reading in
/// a row that finds the way clear.
pub proof fn law_clearance_turn_ends_on_second_clear_reading(m: NavModel, steps: Seq<(SensorSnapshot, u64)>)
    requires
        m.phase == AutoNavigationPhase::ClearanceTurnClear,
        m.clear_sensor_ticks == 0,
        steps.len() >= 2,
        never_clear_twice(steps.drop_last()),
        clear_twice_at(steps, steps.len() - 1),
    ensures
        nav_run(m, steps).phase == AutoNavigationPhase::ClearanceExitForward,
        nav_motion(nav_run(m, steps)) == (ROOM_CROSSING_SPEED, ROOM_CROSSING_SPEED),
{
    let prefix = steps.drop_last();
    law_clearance_turn_holds_until_clear_twice(m, prefix);
    assert(prefix.last() == steps[steps.len() - 2]);
}

/// Whether a reading taken while turning away from a wall comes after the
/// minimum turning time and finds the way clear.
pub open spec fn clear_after_min_turn(m: NavModel, step: (SensorSnapshot, u64)) -> bool {
    elapsed_ms(m, step.1) >= wall_turn_away_min_ms(m) && path_clear(step.0)
}

/// Whether the readings at `i - 1` and `i` both come after the minimum
/// turning time and find the way clear.
pub open spec fn wall_clear_twice_at(m: NavModel, steps: Seq<(SensorSnapshot, u64)>, i: int) -> bool {
    clear_after_min_turn(m, steps[i - 1]) && clear_after_min_turn(m, steps[i])
}

/// Whether no two readings in a row come after the minimum turning time and
/// find the way clear.
pub open spec fn never_wall_clear_twice(m: NavModel, steps: Seq<(SensorSnapshot, u64)>) -> bool {
    forall|i: int| 1 <= i < steps.len() ==> !#[trigger] wall_clear_twice_at(m, steps, i)
}

/// The wall recovery keeps turning away in place, in the direction it chose,
/// for as long as no two readings in a row come after the minimum turning
/// time and find the way clear, contacts or not; the phase clock, the wall
/// streak (and so the minimum time) and the turn direction stay as they were.
pub proof fn law_wall_turn_away_holds_until_clear_twice(m: NavModel, steps: Seq<(SensorSnapshot, u64)>)
    requires
        m.phase == AutoNavigationPhase::WallTurnAway,
        m.wall_clear_sensor_ticks == 0,
        never_wall_clear_twice(m, steps),
    ensures
        nav_run(m, steps).phase == AutoNavigationPhase::WallTurnAway,
        nav_run(m, steps).phase_started_ms == m.phase_started_ms,
        nav_run(m, steps).wall_contact_streak == m.wall_contact_streak,
        nav_run(m, steps).wall_turn_right == m.wall_turn_right,
        nav_run(m, steps).wall_clear_sensor_ticks == (if steps.len() > 0 && clear_after_min_turn(
            m,
            steps.last(),
        ) {
            1u8
        } else {
            0u8
        }),
        nav_motion(nav_run(m, steps)) == spin(m.wall_turn_right, CLEARANCE_TURN_SPEED),
    decreases steps.len(),
{
    if steps.len() > 0 {
        let prefix = steps.drop_last();
        assert forall|i: int| 1 <= i < prefix.len() implies !#[trigger] wall_clear_twice_at(
            m,
            prefix,
            i,
        ) by {
            assert(wall_clear_twice_at(m, prefix, i) == wall_clear_twice_at(m, steps, i));
        }
        law_wall_turn_away_holds_until_clear_twice(m, prefix);
        if steps.len() > 1 {
            assert(!wall_clear_twice_at(m, steps, steps.len() - 1));
        }
    }
}

/// The wall recovery drives out, straight ahead, at the first reading that
/// follows a reading taken after the minimum turning time, when both find
/// the way clear and the clock has not gone back between them.
pub proof fn law_wall_turn_away_ends_after_min_time_and_two_clear_readings(
    m: NavModel,
    steps: Seq<(SensorSnapshot, u64)>,
)
    requires
        m.phase == AutoNavigationPhase::WallTurnAway,
        m.wall_clear_sensor_ticks == 0,
        steps.len() >= 2,
        never_wall_clear_twice(m, steps.drop_last()),
        elapsed_ms(m, steps[steps.len() - 2].1) >= wall_turn_away_min_ms(m),
        path_clear(steps[steps.len() - 2].0),
        path_clear(steps.last().0),
        steps.last().1 >= steps[steps.len() - 2].1,
    ensures
        nav_run(m, steps).phase == AutoNavigationPhase::WallExitForward,
        nav_motion(nav_run(m, steps)) == (ROOM_CROSSING_SPEED, ROOM_CROSSING_SPEED),
{
    let prefix = steps.drop_last();
    law_wall_turn_away_holds_until_clear_twice(m, prefix);
    assert(prefix.last() == steps[steps.len() - 2]);
}

/// While cleaning in the automatic mode with no safety condition, no full
/// dust container and more than a low charge, a tick advances the navigation
/// pattern by one step with the current reading and time and drives the
/// wheels as the new phase requires; the robot keeps cleaning.
pub proof fn law_tick_advances_auto_navigation(m: RobotModel)
    requires
        m.state == RobotState::Cleaning,
        m.cleaning_mode == CleaningMode::Auto,
        critical_error(m.sensors).is_none(),
        !m.sensors.dust_container_full,
        m.battery.percentage > BatteryManager::LOW_BATTERY_THRESHOLD,
    ensures
        tick_model(m).state == RobotState::Cleaning,
        tick_model(m).cleaning_mode == CleaningMode::Auto,
        tick_model(m).nav == nav_step(m.nav, m.sensors, m.now),
        tick_model(m).wheels == nav_motion(nav_step(m.nav, m.sensors, m.now)),
{
}

/// Whether the robot turns in place at the clearance turn speed of 6, to the
/// right when `turn_right` holds.
pub open spec fn turning_in_place(wheels: (i16, i16), turn_right: bool) -> bool {
    if turn_right {
        wheels == (6i16, -6i16)
    } else {
        wheels == (-6i16, 6i16)
    }
}

/// While driving out of an obstacle escape: a contact starts a new recovery
/// that backs up at 24; with no contact, an obstacle ahead (detected or
/// blocking the way) sends the pattern back to turning until clear, with the
/// count of clear readings at zero and the phase clock restarted; with the way
/// clear the robot drives on at 36 until 1.2 s have passed, and then crosses
/// the room again.
pub proof fn law_clearance_exit_forward_step(m: NavModel, s: SensorSnapshot, now: u64)
    requires
        m.phase == AutoNavigationPhase::ClearanceExitForward,
    ensures
        touching(s) ==> nav_motion(nav_step(m, s, now)) == (-24i16, -24i16),
        touching(s) ==> nav_step(m, s, now).phase == (if wall_contact(s) {
            AutoNavigationPhase::WallBackup
        } else {
            AutoNavigationPhase::ClearanceBackup
        }),
        !touching(s) && (s.obstacle_detected || s.forward_clearance_blocked) ==> {
            &&& nav_step(m, s, now).phase == AutoNavigationPhase::ClearanceTurnClear
            &&& nav_step(m, s, now).clear_sensor_ticks == 0
            &&& nav_step(m, s, now).phase_started_ms == now
            &&& nav_step(m, s, now).clearance_turn_right == m.clearance_turn_right
            &&& turning_in_place(nav_motion(nav_step(m, s, now)), m.clearance_turn_right)
        },
        path_clear(s) && now < m.phase_started_ms + 1200 ==> {
            &&& nav_step(m, s, now).phase == AutoNavigationPhase::ClearanceExitForward
            &&& nav_step(m, s, now).phase_started_ms == m.phase_started_ms
            &&& nav_motion(nav_step(m, s, now)) == (36i16, 36i16)
        },
        path_clear(s) && now >= m.phase_started_ms + 1200 ==> {
            &&& nav_step(m, s, now).phase == AutoNavigationPhase::RoomCrossing
            &&& nav_step(m, s, now).phase_started_ms == now
            &&& nav_motion(nav_step(m, s, now)) == (36i16, 36i16)
        },
{
}

/// While driving out of a wall recovery: a contact starts a new recovery that
/// backs up at 24; with no contact, an obstacle ahead sends the pattern back
/// to turning away, with the count of clear readings at zero and the phase
/// clock restarted; with the way clear the robot drives on at 36 for at least
/// 1.6 s and at most 2.6 s, and then crosses the room again.
pub proof fn law_wall_exit_forward_step(m: NavModel, s: SensorSnapshot, now: u64)
    requires
        m.phase == AutoNavigationPhase::WallExitForward,
    ensures
        touching(s) ==> nav_motion(nav_step(m, s, now)) == (-24i16, -24i16),
        touching(s) ==> nav_step(m, s, now).phase == (if wall_contact(s) {
            AutoNavigationPhase::WallBackup
        } else {
            AutoNavigationPhase::ClearanceBackup
        }),
        !touching(s) && (s.obstacle_detected || s.forward_clearance_blocked) ==> {
            &&& nav_step(m, s, now).phase == AutoNavigationPhase::WallTurnAway
            &&& nav_step(m, s, now).wall_clear_sensor_ticks == 0
            &&& nav_step(m, s, now).phase_started_ms == now
            &&& turning_in_place(nav_motion(nav_step(m, s, now)), m.wall_turn_right)
        },
        path_clear(s) && now < m.phase_started_ms + 1600 ==> {
            &&& nav_step(m, s, now).phase == AutoNavigationPhase::WallExitForward
            &&& nav_motion(nav_step(m, s, now)) == (36i16, 36i16)
        },
        path_clear(s) && now >= m.phase_started_ms + 2600 ==> {
            &&& nav_step(m, s, now).phase == AutoNavigationPhase::RoomCrossing
            &&& nav_step(m, s, now).phase_started_ms == now
            &&& nav_motion(nav_step(m, s, now)) == (36i16, 36i16)
        },
{
}

/// Backing up from an obstacle or a wall lasts 0.9 s at 24 whatever the
/// sensors say; then the obstacle escape turns until clear, and the wall
/// recovery turns away, each with its count of clear readings at zero.
pub proof fn law_backup_step(m: NavModel, s: SensorSnapshot, now: u64)
    requires
        m.phase == AutoNavigationPhase::ClearanceBackup || m.phase
            == AutoNavigationPhase::WallBackup,
    ensures
        now < m.phase_started_ms + 900 ==> nav_step(m, s, now).phase == m.phase && nav_motion(
            nav_step(m, s, now),
        ) == (-24i16, -24i16),
        now >= m.phase_started_ms + 900 && m.phase == AutoNavigationPhase::ClearanceBackup ==> {
            &&& nav_step(m, s, now).phase == AutoNavigationPhase::ClearanceTurnClear
            &&& nav_step(m, s, now).clear_sensor_ticks == 0
            &&& nav_step(m, s, now).phase_started_ms == now
            &&& turning_in_place(nav_motion(nav_step(m, s, now)), m.clearance_turn_right)
        },
        now >= m.phase_started_ms + 900 && m.phase == AutoNavigationPhase::WallBackup ==> {
            &&& nav_step(m, s, now).phase == AutoNavigationPhase::WallTurnAway
            &&& nav_step(m, s, now).wall_clear_sensor_ticks == 0
            &&& nav_step(m, s, now).phase_started_ms == now
            &&& turning_in_place(nav_motion(nav_step(m, s, now)), m.wall_turn_right)
        },
{
}

/// The minimum time to turn away from a wall is 5 s for the first contact of
/// a streak and 1 s more for each further one, up to 8 s.
pub proof fn law_wall_turn_away_min_time(m: NavModel)
    ensures
        m.wall_contact_streak <= 1 ==> wall_turn_away_min_ms(m) == 5000,
        2 <= m.wall_contact_streak <= 4 ==> wall_turn_away_min_ms(m) == 5000 + 1000 * (
        m.wall_contact_streak - 1),
        m.wall_contact_streak >= 4 ==> wall_turn_away_min_ms(m) == 8000,
{
}

/// An idle pattern starts crossing the room at 36, with the phase clock
/// started now; crossing the room drives at 36 until a contact.
pub proof fn law_idle_and_crossing_step(m: NavModel, s: SensorSnapshot, now: u64)
    ensures
        m.phase == AutoNavigationPhase::Idle ==> {
            &&& nav_step(m, s, now).phase == AutoNavigationPhase::RoomCrossing
            &&& nav_step(m, s, now).phase_started_ms == now
            &&& nav_motion(nav_step(m, s, now)) == (36i16, 36i16)
        },
        m.phase == AutoNavigationPhase::RoomCrossing && !touching(s) ==> nav_motion(
            nav_step(m, s, now),
        ) == (36i16, 36i16),
{
}

/// Returning to the dock drives home until the dock is detected; a tick that
/// detects it stops the wheels and starts charging, or, with the battery
/// already full, stands by at once.
pub proof fn law_tick_reaches_dock(m: RobotModel)
    requires
        m.state == RobotState::ReturningToDock,
        critical_error(m.sensors).is_none(),
    ensures
        m.docking.dock_detected && m.battery.percentage < 100 ==> {
            &&& tick_model(m).state == RobotState::Charging
            &&& tick_model(m).wheels == (0i16, 0i16)
            &&& tick_model(m).battery.charging
        },
        m.docking.dock_detected && m.battery.percentage >= 100 ==> {
            &&& tick_model(m).state == RobotState::Standby
            &&& tick_model(m).wheels == (0i16, 0i16)
            &&& !tick_model(m).battery.charging
        },
        !m.docking.dock_detected ==> {
            &&& tick_model(m).state == RobotState::ReturningToDock
            &&& tick_model(m).wheels == m.wheels
        },
{
}

/// Charging ends at a full battery: a tick at 100 % stops charging and stands
/// by in the automatic mode; below that the robot keeps charging.
pub proof fn law_tick_ends_charging_when_full(m: RobotModel)
    requires
        m.state == RobotState::Charging,
        critical_error(m.sensors).is_none(),
    ensures
        m.battery.percentage >= 100 ==> {
            &&& tick_model(m).state == RobotState::Standby
            &&& !tick_model(m).battery.charging
            &&& tick_model(m).cleaning_mode == CleaningMode::Auto
        },
        m.battery.percentage < 100 ==> {
            &&& tick_model(m).state == RobotState::Charging
            &&& tick_model(m).battery == m.battery
        },
{
}

/// On a low battery (15 % or less) a cleaning robot heads for the dock at 30
/// with suction and brushes off, or, with the dock already detected, stops
/// and charges at once.
pub proof fn law_low_battery_heads_home(m: RobotModel)
    requires
        m.state == RobotState::Cleaning,
        m.battery.percentage <= 15,
        critical_error(m.sensors).is_none(),
        !m.sensors.dust_container_full,
    ensures
        !tick_model(m).suction,
        !tick_model(m).brushes,
        !m.docking.dock_detected ==> {
            &&& tick_model(m).state == RobotState::ReturningToDock
            &&& tick_model(m).wheels == (30i16, 30i16)
        },
        m.docking.dock_detected ==> {
            &&& tick_model(m).state == RobotState::Charging
            &&& tick_model(m).wheels == (0i16, 0i16)
            &&& tick_model(m).battery.charging
        },
{
}

/// The turn that follows a contact while crossing the room. An obstacle (no
/// wall) is escaped by turning in the alternating direction, which flips for
/// the next escape, and ends any streak of wall contacts. A wall on the left
/// is turned away from to the right, one on the right to the left, and a wall
/// of unknown side in the alternating direction; each wall contact adds one
/// to the streak (up to 255). Either way the count of clear readings starts
/// at zero and the phase clock at `now`.
pub proof fn law_contact_recovery_turn_direction(m: NavModel, s: SensorSnapshot, now: u64)
    requires
        m.phase == AutoNavigationPhase::RoomCrossing,
        touching(s),
    ensures
        nav_step(m, s, now).phase_started_ms == now,
        nav_step(m, s, now).escape_right == !m.escape_right,
        !wall_contact(s) ==> {
            &&& nav_step(m, s, now).clearance_turn_right == m.escape_right
            &&& nav_step(m, s, now).clear_sensor_ticks == 0
            &&& nav_step(m, s, now).wall_contact_streak == 0
        },
        wall_contact(s) ==> {
            &&& nav_step(m, s, now).wall_clear_sensor_ticks == 0
            &&& m.wall_contact_streak < 255 ==> nav_step(m, s, now).wall_contact_streak
                == m.wall_contact_streak + 1
            &&& m.wall_contact_streak == 255 ==> nav_step(m, s, now).wall_contact_streak == 255
        },
        wall_contact(s) && m.last_wall_recovery_side != s.wall_side ==> {
            &&& s.wall_side == Some(crate::domain::models::WallSide::Left) ==> nav_step(
                m,
                s,
                now,
            ).wall_turn_right
            &&& s.wall_side == Some(crate::domain::models::WallSide::Right) ==> !nav_step(
                m,
                s,
                now,
            ).wall_turn_right
            &&& s.wall_side.is_none() ==> nav_step(m, s, now).wall_turn_right == m.escape_right
        },
{
}

/// After turning away from a wall the robot drives out for 1.6 s, plus 0.5 s
/// for each repeated contact with the same wall and for each wall contact in
/// the streak after the first, at most 2.6 s; with the way clear it then
/// crosses the room again, and not before.
pub proof fn law_wall_exit_forward_time(m: NavModel, s: SensorSnapshot, now: u64)
    requires
        m.phase == AutoNavigationPhase::WallExitForward,
        path_clear(s),
    ensures
        ({
            let streak_extra: int = if m.wall_contact_streak > 0 {
                m.wall_contact_streak - 1
            } else {
                0
            };
            let wanted: int = 1600 + 500 * m.wall_recovery_count + 500 * streak_extra;
            let exit: int = if wanted <= 2600 {
                wanted
            } else {
                2600
            };
            &&& now < m.phase_started_ms + exit ==> nav_step(m, s, now).phase
                == AutoNavigationPhase::WallExitForward
            &&& now >= m.phase_started_ms + exit ==> nav_step(m, s, now).phase
                == AutoNavigationPhase::RoomCrossing
        }),
{
}

/// Crossing the room without a contact for 12 s ends the streak of wall
/// contacts and forgets the wall recoveries; before that they are kept.
pub proof fn law_crossing_ends_wall_streak(m: NavModel, s: SensorSnapshot, now: u64)
    requires
        m.phase == AutoNavigationPhase::RoomCrossing,
        !touching(s),
    ensures
        nav_step(m, s, now).phase_started_ms == m.phase_started_ms,
        now >= m.phase_started_ms + 12000 ==> {
            &&& nav_step(m, s, now).wall_contact_streak == 0
            &&& nav_step(m, s, now).wall_recovery_count == 0
            &&& nav_step(m, s, now).last_wall_recovery_side.is_none()
        },
        now < m.phase_started_ms + 12000 ==> {
            &&& nav_step(m, s, now).wall_contact_streak == m.wall_contact_streak
            &&& nav_step(m, s, now).wall_recovery_count == m.wall_recovery_count
            &&& nav_step(m, s, now).last_wall_recovery_side == m.last_wall_recovery_side
        },
{
}

/// Contacts with the same wall are counted: a contact with the wall last
/// recovered from adds one to the count (up to 255), any other wall starts it
/// at zero; from the second repeated contact on, the robot turns the other
/// way than it would otherwise (away from the wall, or the alternating
/// direction when the side is unknown).
pub proof fn law_repeated_wall_contact_flips_turn(m: NavModel, s: SensorSnapshot, now: u64)
    requires
        m.phase == AutoNavigationPhase::RoomCrossing,
        touching(s),
        wall_contact(s),
    ensures
        ({
            let preferred = if s.wall_side == Some(crate::domain::models::WallSide::Left) {
                true
            } else if s.wall_side == Some(crate::domain::models::WallSide::Right) {
                false
            } else {
                m.escape_right
            };
            let after = nav_step(m, s, now);
            &&& m.last_wall_recovery_side != s.wall_side ==> after.wall_recovery_count == 0
                && after.wall_turn_right == preferred
            &&& m.last_wall_recovery_side == s.wall_side && m.wall_recovery_count < 255
                ==> after.wall_recovery_count == m.wall_recovery_count + 1
            &&& m.last_wall_recovery_side == s.wall_side && m.wall_recovery_count >= 1
                ==> after.wall_turn_right == !preferred
            &&& m.last_wall_recovery_side == s.wall_side && m.wall_recovery_count == 0
                ==> after.wall_turn_right == preferred
        }),
{
}

} // verus!
