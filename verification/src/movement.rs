//! The movements of the desk, as an exchange between the controller and the
//! caller that owns the hardware.
//!
//! The controller asks for one action at a time; the caller carries it out
//! and answers with the event that belongs to it.

use vstd::prelude::*;

use crate::error::DeskError;
use crate::motor::MotorCommand;
use crate::motor::MoveDirection;
use crate::motor::ShutdownPoll;
use crate::primitives::Centimeter;
use crate::sensor::EchoReading;
use crate::sensor::SensorCalibrationData;

verus! {

/// How far, in centimetres, the desk may stand from a requested height and
/// still count as being there. Neither the motor nor the sensor is exact.
pub const TOLERANCE_CM: u8 = 1;

/// What the caller is asked to do next.
#[derive(Debug, Copy, Clone, PartialEq, Eq, Structural)]
pub enum Action {
    /// Trigger the sensor once and report what the echo line showed.
    Measure,
    /// Carry the command out on the motor lines. Where it starts the motor,
    /// the time of the run counts from here.
    Motor(MotorCommand),
    /// Report how long the motor has been running, and look at the shutdown
    /// channel without waiting on it.
    CheckRun,
    /// Pause for the polling interval.
    Wait,
    /// Write the calibration record to its place.
    Persist(SensorCalibrationData),
}

/// What the caller reports after an action.
#[derive(Debug, Copy, Clone, PartialEq, Eq, Structural)]
pub enum Event {
    /// The answer to `Measure`.
    Echo(EchoReading),
    /// The answer to `Motor`: the lines were written.
    MotorSet,
    /// The answer to `CheckRun`.
    RunChecked { elapsed_ms: u64, shutdown: ShutdownPoll },
    /// The answer to `Wait`.
    Waited,
    /// The answer to `Persist`: whether the record was written.
    Persisted(bool),
}

/// What a run of the motor is to reach.
#[derive(Debug, Copy, Clone, PartialEq, Eq, Structural)]
pub enum Goal {
    /// A height: the run ends when the desk has reached or passed it.
    Height(Centimeter),
    /// The end of the travel: the run lasts until its time is up.
    Limit,
}

/// Where an operation stands. Each phase waits for the answer to one
/// action.
#[derive(Debug, Copy, Clone, PartialEq, Eq, Structural)]
pub enum Phase {
    /// Before a move to `target`: waiting to learn where the desk stands.
    Locating { target: Centimeter },
    /// Waiting for the motor to be started.
    Starting { direction: MoveDirection, goal: Goal },
    /// The motor runs towards `target`: waiting to learn where the desk
    /// stands now.
    Watching { direction: MoveDirection, target: Centimeter },
    /// The motor runs: waiting to learn whether the run may go on.
    Timing { direction: MoveDirection, goal: Goal },
    /// The motor runs: waiting for the pause to end.
    Pausing { direction: MoveDirection, goal: Goal },
    /// The run is over: waiting for the motor to be stopped.
    Stopping { direction: MoveDirection, goal: Goal },
    /// The desk stands at an end of its travel: waiting for the reading that
    /// becomes the upper or the lower anchor.
    Anchoring { upper: bool },
    /// Waiting for the calibration record to be written.
    Storing,
}

impl Event {
    /// Whether the event is the answer to the action.
    pub open spec fn answers(self, action: Action) -> bool {
        match (action, self) {
            (Action::Measure, Event::Echo(_)) => true,
            (Action::Motor(_), Event::MotorSet) => true,
            (Action::CheckRun, Event::RunChecked { .. }) => true,
            (Action::Wait, Event::Waited) => true,
            (Action::Persist(_), Event::Persisted(_)) => true,
            _ => false,
        }
    }
}

impl Phase {
    /// The command that the motor lines stand at during the phase.
    pub open spec fn motor_state(self) -> MotorCommand {
        match self {
            Phase::Watching { direction, .. } => direction.command(),
            Phase::Timing { direction, .. } => direction.command(),
            Phase::Pausing { direction, .. } => direction.command(),
            Phase::Stopping { direction, .. } => direction.command(),
            _ => MotorCommand::Stop,
        }
    }

    /// The phase in which a run that goes on looks at the desk next: at its
    /// height where the run has one to reach, at the time of the run where
    /// it has none.
    pub open spec fn look(direction: MoveDirection, goal: Goal) -> Phase {
        match goal {
            Goal::Height(target) => Phase::Watching { direction, target },
            Goal::Limit => Phase::Timing { direction, goal },
        }
    }
}

/// Whether `current` lies within the tolerance of `target`.
pub open spec fn within_tolerance(current: Centimeter, target: Centimeter) -> bool {
    target@ - TOLERANCE_CM <= current@ <= target@ + TOLERANCE_CM
}

/// Whether a desk that moves in `direction` towards `target` has not yet
/// reached or passed it. A failed measurement counts as arrival: the desk
/// does not move blind.
pub open spec fn short_of_target(
    direction: MoveDirection,
    target: Centimeter,
    measured: Result<Centimeter, DeskError>,
) -> bool {
    match measured {
        Ok(current) => match direction {
            MoveDirection::Up => current@ < target@,
            MoveDirection::Down => current@ > target@,
        },
        Err(_) => false,
    }
}

/// Decides whether the desk stands near enough to `target` to stay where it
/// is.
pub fn is_within_tolerance(current: Centimeter, target: Centimeter) -> (near: bool)
    ensures
        near == within_tolerance(current, target),
{
    let margin = Centimeter(TOLERANCE_CM);
    target.sub(margin).0 <= current.0 && current.0 <= target.add(margin).0
}

/// Decides, from a measurement taken while the motor runs, whether the desk
/// has still to move.
pub fn is_short_of_target(
    direction: MoveDirection,
    target: Centimeter,
    measured: Result<Centimeter, DeskError>,
) -> (go_on: bool)
    ensures
        go_on == short_of_target(direction, target, measured),
{
    match measured {
        Ok(current) => match direction {
            MoveDirection::Up => current.0 < target.0,
            MoveDirection::Down => current.0 > target.0,
        },
        Err(_) => false,
    }
}

} // verus!
