use vstd::prelude::*;

use crate::domain::models::{DomainError, RobotState};

verus! {

/// The transitions between distinct states that the robot may take.
pub open spec fn transition_allowed(from: RobotState, to: RobotState) -> bool {
    match (from, to) {
        (RobotState::Off, RobotState::Standby) => true,
        (RobotState::Standby, RobotState::Cleaning) => true,
        (RobotState::Standby, RobotState::ManualControl) => true,
        (RobotState::Standby, RobotState::ReturningToDock) => true,
        (RobotState::Standby, RobotState::Error) => true,
        (RobotState::Cleaning, RobotState::Paused) => true,
        (RobotState::Cleaning, RobotState::ReturningToDock) => true,
        (RobotState::Cleaning, RobotState::Standby) => true,
        (RobotState::Cleaning, RobotState::Error) => true,
        (RobotState::Paused, RobotState::Cleaning) => true,
        (RobotState::Paused, RobotState::ManualControl) => true,
        (RobotState::Paused, RobotState::ReturningToDock) => true,
        (RobotState::Paused, RobotState::Standby) => true,
        (RobotState::Paused, RobotState::Error) => true,
        (RobotState::ManualControl, RobotState::Standby) => true,
        (RobotState::ManualControl, RobotState::Paused) => true,
        (RobotState::ManualControl, RobotState::ReturningToDock) => true,
        (RobotState::ManualControl, RobotState::Error) => true,
        (RobotState::ReturningToDock, RobotState::Charging) => true,
        (RobotState::ReturningToDock, RobotState::Standby) => true,
        (RobotState::ReturningToDock, RobotState::Error) => true,
        (RobotState::Charging, RobotState::Standby) => true,
        (RobotState::Charging, RobotState::Error) => true,
        (RobotState::Error, RobotState::Standby) => true,
        _ => false,
    }
}

/// A step of the state machine: staying put, or an allowed transition.
pub open spec fn step_permitted(from: RobotState, to: RobotState) -> bool {
    from == to || transition_allowed(from, to)
}

/// The state of the robot, changed only along the allowed transitions.
#[derive(Debug)]
pub struct RobotStateMachine {
    state: RobotState,
}

impl Default for RobotStateMachine {
    /// A state machine in `STANDBY`.
    fn default() -> (r: RobotStateMachine)
        ensures
            r.current() == RobotState::Standby,
    {
        RobotStateMachine::new()
    }
}

impl RobotStateMachine {
    /// The current state.
    pub closed spec fn current(&self) -> RobotState {
        self.state
    }

    /// A state machine in `STANDBY`.
    pub fn new() -> (r: RobotStateMachine)
        ensures
            r.current() == RobotState::Standby,
    {
        RobotStateMachine { state: RobotState::Standby }
    }

    /// Returns the current state.
    pub fn state(&self) -> (r: RobotState)
        ensures
            r == self.current(),
    {
        self.state
    }

    /// Moves to `next`. Staying in the same state always succeeds; a move
    /// to another state succeeds exactly when `transition_allowed` holds, and
    /// is otherwise refused with `INVALID_STATE_TRANSITION`, leaving the state
    /// as it was.
    pub fn transition_to(&mut self, next: RobotState) -> (r: Result<(), DomainError>)
        ensures
            r.is_ok() <==> step_permitted(old(self).current(), next),
            r.is_ok() ==> final(self).current() == next,
            r.is_err() ==> final(self).current() == old(self).current(),
            r matches Err(e) ==> {
                &&& e.kind == crate::domain::models::ErrorKind::Conflict
                &&& e.code == "INVALID_STATE_TRANSITION"
                &&& e.current_state == Some(old(self).current())
                &&& e.message@ == "Cannot transition from "@ + old(self).current().name()@
                    + " to "@ + next.name()@
            },
    {
        if self.state == next {
            return Ok(());
        }
        let allowed = match (self.state, next) {
            (RobotState::Off, RobotState::Standby)
            | (RobotState::Standby, RobotState::Cleaning)
            | (RobotState::Standby, RobotState::ManualControl)
            | (RobotState::Standby, RobotState::ReturningToDock)
            | (RobotState::Standby, RobotState::Error)
            | (RobotState::Cleaning, RobotState::Paused)
            | (RobotState::Cleaning, RobotState::ReturningToDock)
            | (RobotState::Cleaning, RobotState::Standby)
            | (RobotState::Cleaning, RobotState::Error)
            | (RobotState::Paused, RobotState::Cleaning)
            | (RobotState::Paused, RobotState::ManualControl)
            | (RobotState::Paused, RobotState::ReturningToDock)
            | (RobotState::Paused, RobotState::Standby)
            | (RobotState::Paused, RobotState::Error)
            | (RobotState::ManualControl, RobotState::Standby)
            | (RobotState::ManualControl, RobotState::Paused)
            | (RobotState::ManualControl, RobotState::ReturningToDock)
            | (RobotState::ManualControl, RobotState::Error)
            | (RobotState::ReturningToDock, RobotState::Charging)
            | (RobotState::ReturningToDock, RobotState::Standby)
            | (RobotState::ReturningToDock, RobotState::Error)
            | (RobotState::Charging, RobotState::Standby)
            | (RobotState::Charging, RobotState::Error)
            | (RobotState::Error, RobotState::Standby) => true,
            _ => false,
        };
        if !allowed {
            let message = String::from_str("Cannot transition from ").concat(
                self.state.as_str(),
            ).concat(" to ").concat(next.as_str());
            return Err(DomainError::conflict("INVALID_STATE_TRANSITION", message, self.state));
        }
        self.state = next;
        Ok(())
    }
}

/// Where each state can be entered from: nothing leads to `OFF`, and `OFF`
/// leads only to `STANDBY`; `STANDBY` is entered from every other state;
/// cleaning and manual control from standby or pause; pause from cleaning or
/// manual control; the return to the dock from standby, cleaning, pause or
/// manual control; charging only on reaching the dock; and `ERROR` from every
/// state but `OFF`, while `ERROR` itself leads only back to `STANDBY`.
pub proof fn law_transitions_by_target(from: RobotState, to: RobotState)
    ensures
        !transition_allowed(from, RobotState::Off),
        transition_allowed(RobotState::Off, to) <==> to == RobotState::Standby,
        transition_allowed(RobotState::Error, to) <==> to == RobotState::Standby,
        transition_allowed(from, RobotState::Standby) <==> from != RobotState::Standby,
        transition_allowed(from, RobotState::Cleaning) <==> (from == RobotState::Standby || from
            == RobotState::Paused),
        transition_allowed(from, RobotState::ManualControl) <==> (from == RobotState::Standby
            || from == RobotState::Paused),
        transition_allowed(from, RobotState::Paused) <==> (from == RobotState::Cleaning || from
            == RobotState::ManualControl),
        transition_allowed(from, RobotState::ReturningToDock) <==> (from == RobotState::Standby
            || from == RobotState::Cleaning || from == RobotState::Paused || from
            == RobotState::ManualControl),
        transition_allowed(from, RobotState::Charging) <==> from == RobotState::ReturningToDock,
        transition_allowed(from, RobotState::Error) <==> (from != RobotState::Off && from
            != RobotState::Error),
{
}

} // verus!
