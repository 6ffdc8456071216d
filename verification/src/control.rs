//! What the control loop does in one iteration.
//!
//! The loop itself, its clock and its command queue are the caller's. Each
//! iteration the caller takes at most one command from the queue without
//! waiting, copies the history, reads the clock, and asks [`decide`].

use vstd::prelude::*;
use crate::estimator::{predicted, History};

verus! {

/// A discrete command from the remote.
#[derive(Clone, Copy, Debug, PartialEq, Eq, Structural)]
pub enum Control {
    Calibration,
    Disable,
}

/// What one iteration does.
#[derive(Clone, Copy, Debug, PartialEq, Eq, Structural)]
pub enum Action {
    /// Run a calibration.
    Calibrate,
    /// Disable the motor.
    Disable,
    /// Servo to a grip fraction.
    Servo(i32),
    /// Send nothing: the history holds no two estimates of different times
    /// yet.
    Hold,
}

/// What one iteration does, given the command taken from the queue, if
/// any, the history and the time. A command goes first; without one the
/// loop servos to the predicted grip fraction, and holds where there is no
/// prediction.
pub open spec fn action_of(command: Option<Control>, history: History, now: u64) -> Action {
    match command {
        Some(Control::Calibration) => Action::Calibrate,
        Some(Control::Disable) => Action::Disable,
        None => match predicted(history, now) {
            Some(target) => Action::Servo(target),
            None => Action::Hold,
        },
    }
}

/// Decides one iteration of the control loop.
pub fn decide(command: Option<Control>, history: &History, now: u64) -> (action: Action)
    ensures
        action == action_of(command, *history, now),
{
    match command {
        Some(Control::Calibration) => Action::Calibrate,
        Some(Control::Disable) => Action::Disable,
        None => match history.extrapolate(now) {
            Some(target) => Action::Servo(target),
            None => Action::Hold,
        },
    }
}

/// A queued command is executed in place of a servo command on that
/// iteration, whatever the history holds and whatever the time is.
pub proof fn lemma_command_goes_first(command: Control, history: History, now: u64)
    ensures
        !(action_of(Some(command), history, now) is Servo),
        !(action_of(Some(command), history, now) is Hold),
        command == Control::Disable ==> action_of(Some(command), history, now) == Action::Disable,
        command == Control::Calibration ==> action_of(Some(command), history, now)
            == Action::Calibrate,
{
}

} // verus!
