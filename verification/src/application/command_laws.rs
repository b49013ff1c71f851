use vstd::prelude::*;

use crate::application::controller::{handle_command_model, tick_model, RobotModel};
use crate::application::laws::all_stopped;
use crate::controllers::safety::critical_error;
use crate::domain::models::{
    AutoNavigationPhase, CleaningMode, ErrorKind, ManualDirection, RobotCommand, RobotError,
    RobotState, SensorSnapshot,
};

verus! {

/// Whether no safety check stops a command: no critical sensor condition,
/// and not cleaning with a full dust container.
pub open spec fn no_safety_stop(m: RobotModel) -> bool {
    &&& critical_error(m.sensors).is_none()
    &&& !(m.state == RobotState::Cleaning && m.sensors.dust_container_full)
}

/// Whether a command was refused with `code` and `message` as a conflict in
/// the robot's current state, leaving the robot as it was.
pub open spec fn refused_in_state(
    m: RobotModel,
    command: RobotCommand,
    code: &'static str,
    message: Seq<char>,
) -> bool {
    let out = handle_command_model(m, command);
    &&& out.0 == m
    &&& out.1 is Some
    &&& out.1.unwrap().kind == ErrorKind::Conflict
    &&& out.1.unwrap().code == code
    &&& out.1.unwrap().message == message
    &&& out.1.unwrap().current_state == Some(m.state)
}

/// Whether a command was refused with `code` and `message` as a bad request,
/// leaving the robot as it was.
pub open spec fn refused_as_bad_request(
    m: RobotModel,
    command: RobotCommand,
    code: &'static str,
    message: Seq<char>,
) -> bool {
    let out = handle_command_model(m, command);
    &&& out.0 == m
    &&& out.1 is Some
    &&& out.1.unwrap().kind == ErrorKind::BadRequest
    &&& out.1.unwrap().code == code
    &&& out.1.unwrap().message == message
    &&& out.1.unwrap().current_state.is_none()
}

/// `RETURN_TO_DOCK` is accepted exactly from `STANDBY`, `CLEANING`, `PAUSED`
/// and `MANUAL_CONTROL` with the dock available. The robot then heads home:
/// `RETURNING_TO_DOCK`, suction and brushes off, both wheels at 30, and any
/// manual move cancelled. From another state it is refused with
/// `COMMAND_NOT_ALLOWED`, and without a dock with `DOCK_UNAVAILABLE`.
pub proof fn law_return_to_dock(m: RobotModel)
    requires
        no_safety_stop(m),
    ensures
        ({
            let allowed = m.state == RobotState::Standby || m.state == RobotState::Cleaning
                || m.state == RobotState::Paused || m.state == RobotState::ManualControl;
            let out = handle_command_model(m, RobotCommand::ReturnToDock);
            &&& out.1.is_none() <==> (allowed && m.docking.dock_available)
            &&& out.1.is_none() ==> {
                &&& out.0.state == RobotState::ReturningToDock
                &&& !out.0.suction
                &&& !out.0.brushes
                &&& out.0.wheels == (30i16, 30i16)
                &&& out.0.manual_move_deadline_ms.is_none()
                &&& out.0.battery == m.battery
                &&& out.0.cleaning_mode == m.cleaning_mode
                &&& out.0.current_error == m.current_error
            }
            &&& !allowed ==> refused_in_state(
                m,
                RobotCommand::ReturnToDock,
                "COMMAND_NOT_ALLOWED",
                "RETURN_TO_DOCK is not allowed in the current state"@,
            )
            &&& allowed && !m.docking.dock_available ==> refused_in_state(
                m,
                RobotCommand::ReturnToDock,
                "DOCK_UNAVAILABLE",
                "Docking station is not available"@,
            )
        }),
{
}

/// The end of a manual move started at `now` for `duration_ms`: `now +
/// duration_ms`, or the largest clock value when that does not fit.
pub open spec fn manual_move_end(now: u64, duration_ms: u64) -> int {
    if now + duration_ms <= u64::MAX {
        now + duration_ms
    } else {
        u64::MAX as int
    }
}

/// `MANUAL_MOVE` is accepted exactly when the duration is positive, the speed
/// at most 100 and positive unless the direction is `STOP`, and the robot is
/// in `STANDBY`, `PAUSED` or `MANUAL_CONTROL`. The robot then drives under
/// manual control, suction and brushes off, the wheels at the speed in the
/// direction (forward both ahead, backward both back, left and right turning
/// in place, stop still), and the move ends `duration_ms` after the current
/// time. Refusals name the first rule broken and change nothing.
pub proof fn law_manual_move(m: RobotModel, direction: ManualDirection, speed: u8, duration_ms: u64)
    requires
        no_safety_stop(m),
    ensures
        ({
            let command = RobotCommand::ManualMove { direction, speed, duration_ms };
            let out = handle_command_model(m, command);
            let allowed_state = m.state == RobotState::Standby || m.state == RobotState::Paused
                || m.state == RobotState::ManualControl;
            let valid = duration_ms > 0 && speed <= 100 && (direction == ManualDirection::Stop
                || speed > 0);
            &&& out.1.is_none() <==> (valid && allowed_state)
            &&& out.1.is_none() ==> {
                &&& out.0.state == RobotState::ManualControl
                &&& out.0.cleaning_mode == CleaningMode::Manual
                &&& !out.0.suction
                &&& !out.0.brushes
                &&& out.0.manual_move_deadline_ms.is_some()
                &&& out.0.manual_move_deadline_ms.unwrap() == manual_move_end(m.now, duration_ms)
                &&& direction == ManualDirection::Forward ==> out.0.wheels.0 == speed
                    && out.0.wheels.1 == speed
                &&& direction == ManualDirection::Backward ==> out.0.wheels.0 == -speed
                    && out.0.wheels.1 == -speed
                &&& direction == ManualDirection::Left ==> out.0.wheels.0 == -speed
                    && out.0.wheels.1 == speed
                &&& direction == ManualDirection::Right ==> out.0.wheels.0 == speed
                    && out.0.wheels.1 == -speed
                &&& direction == ManualDirection::Stop ==> out.0.wheels == (0i16, 0i16)
            }
            &&& duration_ms == 0 ==> refused_as_bad_request(
                m,
                command,
                "INVALID_DURATION",
                "MANUAL_MOVE requires duration_ms greater than zero"@,
            )
            &&& duration_ms > 0 && speed > 100 ==> refused_as_bad_request(
                m,
                command,
                "INVALID_SPEED",
                "MANUAL_MOVE speed must be in the range 0..=100"@,
            )
            &&& duration_ms > 0 && direction != ManualDirection::Stop && speed == 0
                ==> refused_as_bad_request(
                m,
                command,
                "INVALID_SPEED",
                "MANUAL_MOVE speed must be greater than zero for movement directions"@,
            )
            &&& valid && !allowed_state ==> refused_in_state(
                m,
                command,
                "COMMAND_NOT_ALLOWED",
                "MANUAL_MOVE is only allowed from STANDBY, PAUSED, or MANUAL_CONTROL"@,
            )
        }),
{
}

/// After an accepted manual move, a tick at any clock time `t` with no
/// critical sensor condition keeps driving under manual control while `t` is
/// before the end of the move, and ends the move once `t` has reached it:
/// `STANDBY`, automatic mode, wheels stopped.
pub proof fn law_manual_move_lasts_until_its_end(
    m: RobotModel,
    direction: ManualDirection,
    speed: u8,
    duration_ms: u64,
    t: u64,
    s: SensorSnapshot,
)
    requires
        no_safety_stop(m),
        handle_command_model(m, RobotCommand::ManualMove { direction, speed, duration_ms }).1.is_none(),
        critical_error(s).is_none(),
    ensures
        ({
            let moved = handle_command_model(
                m,
                RobotCommand::ManualMove { direction, speed, duration_ms },
            ).0;
            let later = tick_model(RobotModel { now: t, sensors: s, ..moved });
            &&& t < manual_move_end(m.now, duration_ms) ==> {
                &&& later.state == RobotState::ManualControl
                &&& later.wheels == moved.wheels
            }
            &&& t >= m.now + duration_ms ==> {
                &&& later.state == RobotState::Standby
                &&& later.cleaning_mode == CleaningMode::Auto
                &&& later.wheels == (0i16, 0i16)
                &&& later.manual_move_deadline_ms.is_none()
            }
        }),
{
    law_manual_move(m, direction, speed, duration_ms);
}

/// `START_CLEANING` is accepted exactly from `STANDBY` or `PAUSED` with more
/// than 15 % charge; the robot then cleans in the automatic mode with suction
/// and brushes on, charging off, no error, the pattern crossing the room and
/// both wheels at 36. From another state it is refused with
/// `COMMAND_NOT_ALLOWED`, and on a low battery with `BATTERY_TOO_LOW`.
pub proof fn law_start_cleaning(m: RobotModel)
    requires
        no_safety_stop(m),
    ensures
        ({
            let allowed = m.state == RobotState::Standby || m.state == RobotState::Paused;
            let out = handle_command_model(m, RobotCommand::StartCleaning);
            &&& out.1.is_none() <==> (allowed && m.battery.percentage > 15)
            &&& out.1.is_none() ==> {
                &&& out.0.state == RobotState::Cleaning
                &&& out.0.cleaning_mode == CleaningMode::Auto
                &&& out.0.suction
                &&& out.0.brushes
                &&& !out.0.battery.charging
                &&& out.0.current_error.is_none()
                &&& out.0.nav.phase == AutoNavigationPhase::RoomCrossing
                &&& out.0.wheels == (36i16, 36i16)
            }
            &&& !allowed ==> refused_in_state(
                m,
                RobotCommand::StartCleaning,
                "COMMAND_NOT_ALLOWED",
                "START_CLEANING is only allowed from STANDBY or PAUSED"@,
            )
            &&& allowed && m.battery.percentage <= 15 ==> refused_in_state(
                m,
                RobotCommand::StartCleaning,
                "BATTERY_TOO_LOW",
                "Battery is too low to start cleaning"@,
            )
        }),
{
}

/// `STOP_CLEANING` is accepted exactly while cleaning, paused, under manual
/// control or returning to the dock; the robot then stands by in the
/// automatic mode with every actuator stopped. Otherwise it is refused with
/// `COMMAND_NOT_ALLOWED`.
pub proof fn law_stop_cleaning(m: RobotModel)
    requires
        no_safety_stop(m),
    ensures
        ({
            let allowed = m.state == RobotState::Cleaning || m.state == RobotState::Paused
                || m.state == RobotState::ManualControl || m.state == RobotState::ReturningToDock;
            let out = handle_command_model(m, RobotCommand::StopCleaning);
            &&& out.1.is_none() <==> allowed
            &&& allowed ==> {
                &&& out.0.state == RobotState::Standby
                &&& out.0.cleaning_mode == CleaningMode::Auto
                &&& all_stopped(out.0)
                &&& out.0.manual_move_deadline_ms.is_none()
            }
            &&& !allowed ==> refused_in_state(
                m,
                RobotCommand::StopCleaning,
                "COMMAND_NOT_ALLOWED",
                "STOP_CLEANING is not allowed in the current state"@,
            )
        }),
{
}

/// `PAUSE_CLEANING` is accepted exactly while cleaning or under manual
/// control; the robot then pauses in the same mode with every actuator
/// stopped. Otherwise it is refused with `COMMAND_NOT_ALLOWED`.
pub proof fn law_pause_cleaning(m: RobotModel)
    requires
        no_safety_stop(m),
    ensures
        ({
            let allowed = m.state == RobotState::Cleaning || m.state == RobotState::ManualControl;
            let out = handle_command_model(m, RobotCommand::PauseCleaning);
            &&& out.1.is_none() <==> allowed
            &&& allowed ==> {
                &&& out.0.state == RobotState::Paused
                &&& out.0.cleaning_mode == m.cleaning_mode
                &&& all_stopped(out.0)
                &&& out.0.manual_move_deadline_ms.is_none()
            }
            &&& !allowed ==> refused_in_state(
                m,
                RobotCommand::PauseCleaning,
                "COMMAND_NOT_ALLOWED",
                "PAUSE_CLEANING is only allowed while actively moving"@,
            )
        }),
{
}

/// `SET_CLEANING_MODE` accepts only the automatic mode, and changes nothing
/// but the mode; any other mode is refused with `UNSUPPORTED_MODE`.
pub proof fn law_set_cleaning_mode(m: RobotModel, mode: CleaningMode)
    requires
        no_safety_stop(m),
    ensures
        ({
            let out = handle_command_model(m, RobotCommand::SetCleaningMode(mode));
            &&& out.1.is_none() <==> mode == CleaningMode::Auto
            &&& mode == CleaningMode::Auto ==> out.0 == (RobotModel {
                cleaning_mode: CleaningMode::Auto,
                ..m
            })
            &&& mode != CleaningMode::Auto ==> refused_as_bad_request(
                m,
                RobotCommand::SetCleaningMode(mode),
                "UNSUPPORTED_MODE",
                mode.name()@ + " is not supported in this implementation"@,
            )
        }),
{
}

/// `CLEAR_ERROR` is accepted exactly in `ERROR` once a recorded full dust
/// container has been emptied; the robot then stands by in the automatic mode
/// with no error and every actuator stopped. Outside `ERROR` it is refused with
/// `COMMAND_NOT_ALLOWED`, and with the container still full with
/// `DUST_CONTAINER_FULL`.
pub proof fn law_clear_error(m: RobotModel)
    requires
        no_safety_stop(m),
    ensures
        ({
            let dust_still_full = m.current_error == Some(RobotError::DustContainerFull)
                && m.sensors.dust_container_full;
            let out = handle_command_model(m, RobotCommand::ClearError);
            &&& out.1.is_none() <==> (m.state == RobotState::Error && !dust_still_full)
            &&& out.1.is_none() ==> {
                &&& out.0.state == RobotState::Standby
                &&& out.0.cleaning_mode == CleaningMode::Auto
                &&& out.0.current_error.is_none()
                &&& all_stopped(out.0)
            }
            &&& m.state != RobotState::Error ==> refused_in_state(
                m,
                RobotCommand::ClearError,
                "COMMAND_NOT_ALLOWED",
                "CLEAR_ERROR is only allowed from ERROR"@,
            )
            &&& m.state == RobotState::Error && dust_still_full ==> refused_in_state(
                m,
                RobotCommand::ClearError,
                "DUST_CONTAINER_FULL",
                "Cannot clear error while the dust container is still full"@,
            )
        }),
{
}

} // verus!
