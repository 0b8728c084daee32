//! The desk controller: moving to a height and calibrating the sensor.
//!
//! An operation is a short exchange. It begins with a call on a desk at
//! rest, which gives a `Step`: either the operation is over at once, or a
//! `Run` is under way. A run names the action it waits for; the caller
//! carries the action out and hands the event to `Run::step`, until a step
//! gives the desk back together with the outcome. A desk at rest is a desk
//! whose motor stands still: no operation can end in any other way.

use vstd::prelude::*;

use crate::config::Config;
use crate::config::TableConfig;
use crate::error::Bound;
use crate::error::DeskError;
use crate::motor::run_may_go_on;
use crate::motor::DeskMotorDriver;
use crate::motor::LineLevels;
use crate::motor::MotorCommand;
use crate::motor::MoveDirection;
use crate::motor::ShutdownPoll;
use crate::movement::is_short_of_target;
use crate::movement::is_within_tolerance;
use crate::movement::short_of_target;
use crate::movement::within_tolerance;
use crate::movement::Action;
use crate::movement::Event;
use crate::movement::Goal;
use crate::movement::Phase;
use crate::primitives::Centimeter;
use crate::sensor::EchoReading;
use crate::sensor::SensorCalibrationData;
use crate::sensor::HCSR04;

verus! {

/// What a desk is made of, as far as its behaviour goes.
pub struct DeskModel {
    /// The configured heights.
    pub config: TableConfig,
    /// The calibration of the sensor.
    pub calibration: SensorCalibrationData,
    /// The place where the calibration is kept.
    pub calibration_file: Seq<char>,
    /// The longest time that the motor may run at a stretch, in seconds.
    pub timeout_secs: u64,
    /// The levels of the motor lines.
    pub lines: LineLevels,
}

/// A desk in the middle of an operation.
pub struct RunModel {
    pub desk: DeskModel,
    pub phase: Phase,
}

/// The outcome of one step of an operation.
pub enum StepModel {
    /// The operation goes on.
    Next(RunModel),
    /// The operation is over: the desk, and whether the operation
    /// succeeded.
    Done(DeskModel, Result<(), DeskError>),
}

impl DeskModel {
    /// The desk with other levels on its motor lines.
    pub open spec fn with_lines(self, lines: LineLevels) -> DeskModel {
        DeskModel { lines, ..self }
    }

    /// The desk with another calibration.
    pub open spec fn with_calibration(self, calibration: SensorCalibrationData) -> DeskModel {
        DeskModel { calibration, ..self }
    }

    /// Whether the desk may be sent to `target`.
    pub open spec fn allows(self, target: Centimeter) -> bool {
        self.config.min_table_height@ <= target@ <= self.config.max_table_height@
    }

    /// The beginning of a move to `target`. A target beyond the configured
    /// limits ends the move at once; the upper limit is looked at first. Any
    /// other target makes the desk ask where it stands.
    pub open spec fn begin_move(self, target: Centimeter) -> StepModel {
        if target@ > self.config.max_table_height@ {
            StepModel::Done(
                self,
                Err(DeskError::OutOfBounds(Bound::Above(self.config.max_table_height))),
            )
        } else if target@ < self.config.min_table_height@ {
            StepModel::Done(
                self,
                Err(DeskError::OutOfBounds(Bound::Below(self.config.min_table_height))),
            )
        } else {
            StepModel::Next(RunModel { desk: self, phase: Phase::Locating { target } })
        }
    }

    /// The beginning of a calibration: the desk is sent to the upper end of
    /// its travel.
    pub open spec fn begin_calibration(self) -> StepModel {
        StepModel::Next(
            RunModel {
                desk: self,
                phase: Phase::Starting { direction: MoveDirection::Up, goal: Goal::Limit },
            },
        )
    }
}

impl RunModel {
    /// The run in another phase.
    pub open spec fn at(self, phase: Phase) -> StepModel {
        StepModel::Next(RunModel { desk: self.desk, phase })
    }

    /// The action that the run waits for.
    pub open spec fn pending(self) -> Action {
        match self.phase {
            Phase::Locating { .. } => Action::Measure,
            Phase::Starting { direction, .. } => Action::Motor(direction.command()),
            Phase::Watching { .. } => Action::Measure,
            Phase::Timing { .. } => Action::CheckRun,
            Phase::Pausing { .. } => Action::Wait,
            Phase::Stopping { .. } => Action::Motor(MotorCommand::Stop),
            Phase::Anchoring { .. } => Action::Measure,
            Phase::Storing => Action::Persist(self.desk.calibration),
        }
    }

    /// Whether the motor lines stand as the phase has them: at the command
    /// of the direction while the motor runs, and at rest in every other
    /// phase.
    pub open spec fn is_consistent(self) -> bool {
        self.desk.lines == self.phase.motor_state().levels()
    }

    /// What the first reading decides before a move to `target`.
    pub open spec fn located(self, target: Centimeter, reading: EchoReading) -> StepModel {
        match self.desk.calibration.reading_height(reading) {
            Err(error) => StepModel::Done(self.desk, Err(error)),
            Ok(current) => if within_tolerance(current, target) {
                StepModel::Done(self.desk, Ok(()))
            } else if current@ < target@ {
                self.at(
                    Phase::Starting { direction: MoveDirection::Up, goal: Goal::Height(target) },
                )
            } else {
                self.at(
                    Phase::Starting { direction: MoveDirection::Down, goal: Goal::Height(target) },
                )
            },
        }
    }

    /// What the stop of the motor leads to: the end of a move, or the
    /// reading of an anchor at the end of the travel.
    pub open spec fn stopped(self, direction: MoveDirection, goal: Goal) -> StepModel {
        let desk = self.desk.with_lines(MotorCommand::Stop.levels());
        match goal {
            Goal::Height(_) => StepModel::Done(desk, Ok(())),
            Goal::Limit => StepModel::Next(
                RunModel { desk, phase: Phase::Anchoring { upper: direction == MoveDirection::Up } },
            ),
        }
    }

    /// What the reading at an end of the travel leads to. A reading that is
    /// no echo ends the calibration and leaves the record as it was. An
    /// echo becomes the anchor of the configured limit; after the upper one
    /// the desk is sent down, after the lower one the record is stored.
    pub open spec fn anchored(self, upper: bool, reading: EchoReading) -> StepModel {
        let height = if upper {
            self.desk.config.max_table_height
        } else {
            self.desk.config.min_table_height
        };
        let desk = self.desk.with_calibration(
            self.desk.calibration.anchored(upper, height, reading),
        );
        if !reading.is_echo() {
            StepModel::Done(desk, Err(DeskError::Measurement))
        } else if upper {
            StepModel::Next(
                RunModel {
                    desk,
                    phase: Phase::Starting { direction: MoveDirection::Down, goal: Goal::Limit },
                },
            )
        } else {
            StepModel::Next(RunModel { desk, phase: Phase::Storing })
        }
    }

    /// The step that an event leads to. An event that is not the answer to
    /// the pending action changes nothing.
    pub open spec fn next(self, event: Event) -> StepModel {
        match (self.phase, event) {
            (Phase::Locating { target }, Event::Echo(reading)) => self.located(target, reading),
            (Phase::Starting { direction, goal }, Event::MotorSet) => StepModel::Next(
                RunModel {
                    desk: self.desk.with_lines(direction.command().levels()),
                    phase: Phase::look(direction, goal),
                },
            ),
            (Phase::Watching { direction, target }, Event::Echo(reading)) => if short_of_target(
                direction,
                target,
                self.desk.calibration.reading_height(reading),
            ) {
                self.at(Phase::Timing { direction, goal: Goal::Height(target) })
            } else {
                self.at(Phase::Stopping { direction, goal: Goal::Height(target) })
            },
            (Phase::Timing { direction, goal }, Event::RunChecked { elapsed_ms, shutdown }) => {
                if run_may_go_on(self.desk.timeout_secs, elapsed_ms, shutdown) {
                    self.at(Phase::Pausing { direction, goal })
                } else {
                    self.at(Phase::Stopping { direction, goal })
                }
            },
            (Phase::Pausing { direction, goal }, Event::Waited) => self.at(
                Phase::look(direction, goal),
            ),
            (Phase::Stopping { direction, goal }, Event::MotorSet) => self.stopped(direction, goal),
            (Phase::Anchoring { upper }, Event::Echo(reading)) => self.anchored(upper, reading),
            (Phase::Storing, Event::Persisted(written)) => if written {
                self.desk.begin_move(self.desk.config.sitting_height)
            } else {
                StepModel::Done(self.desk, Err(DeskError::Persistence))
            },
            _ => StepModel::Next(self),
        }
    }

    /// Where the run stands after a series of events, each handed to the
    /// step before it. Events that arrive after the end of the operation
    /// change nothing.
    pub open spec fn after(self, events: Seq<Event>) -> StepModel
        decreases events.len(),
    {
        if events.len() == 0 {
            StepModel::Next(self)
        } else {
            match self.after(events.drop_last()) {
                StepModel::Next(run) => run.next(events.last()),
                StepModel::Done(desk, outcome) => StepModel::Done(desk, outcome),
            }
        }
    }
}

impl StepModel {
    /// Whether the motor lines stand as they should: as the phase has them
    /// while the operation goes on, and at rest once it is over.
    pub open spec fn is_safe(self) -> bool {
        match self {
            StepModel::Next(run) => run.is_consistent(),
            StepModel::Done(desk, _) => desk.lines.is_stopped(),
        }
    }

    /// The desk as the step leaves it.
    pub open spec fn desk(self) -> DeskModel {
        match self {
            StepModel::Next(run) => run.desk,
            StepModel::Done(desk, _) => desk,
        }
    }

    /// Whether the step asks for a command to the motor.
    pub open spec fn asks_for_motor(self) -> bool {
        match self {
            StepModel::Next(run) => run.pending() is Motor,
            StepModel::Done(_, _) => false,
        }
    }
}

/// An operation on a desk at rest begins safely.
pub proof fn lemma_begin_is_safe(desk: DeskModel, target: Centimeter)
    requires
        desk.lines.is_stopped(),
    ensures
        desk.begin_move(target).is_safe(),
        desk.begin_calibration().is_safe(),
{
}

/// No single event takes the motor lines out of step with the operation:
/// at most one line is asserted while it goes on, and none once it is over.
pub proof fn lemma_next_is_safe(run: RunModel, event: Event)
    requires
        run.is_consistent(),
    ensures
        run.next(event).is_safe(),
{
}

/// Where a run asks for a command to the motor, the writes of that command
/// never assert both lines, however many of them have been made; and once
/// all are made, the lines stand as the run has them after the report that
/// the motor was set.
pub proof fn lemma_motor_action_is_safe(run: RunModel, command: MotorCommand, made: int)
    requires
        run.is_consistent(),
        run.pending() == Action::Motor(command),
        0 <= made <= command.writes().len(),
    ensures
        run.desk.lines.after_all(command.writes().take(made)).is_exclusive(),
        run.next(Event::MotorSet).desk().lines == run.desk.lines.after_all(command.writes()),
{
    command.lemma_writes_are_safe(run.desk.lines, made);
}

/// Whatever events arrive, and in whatever order, the motor lines stand as
/// the operation has them; an operation that is over has left both lines
/// low, whether it ended on arrival, on a failed measurement, on the time
/// limit or on a request to shut down.
pub proof fn lemma_every_run_is_safe(run: RunModel, events: Seq<Event>)
    requires
        run.is_consistent(),
    ensures
        run.after(events).is_safe(),
        run.after(events) is Next ==> run.after(events)->Next_0.desk.lines.is_exclusive(),
    decreases events.len(),
{
    if events.len() > 0 {
        lemma_every_run_is_safe(run, events.drop_last());
        match run.after(events.drop_last()) {
            StepModel::Next(earlier) => lemma_next_is_safe(earlier, events.last()),
            StepModel::Done(_, _) => {},
        }
    }
}

/// No event changes what the desk was configured with: the heights, the
/// time limit of the motor and the place of the calibration stay as they
/// are. The calibration itself changes only through the reading of an
/// anchor, and only where that reading is an echo.
pub proof fn lemma_next_keeps_the_configuration(run: RunModel, event: Event)
    ensures
        run.next(event).desk().config == run.desk.config,
        run.next(event).desk().timeout_secs == run.desk.timeout_secs,
        run.next(event).desk().calibration_file == run.desk.calibration_file,
        run.next(event).desk().calibration != run.desk.calibration ==> (event matches Event::Echo(
            reading,
        ) && reading.is_echo() && run.phase is Anchoring),
{
}

/// An event that is not the answer to the pending action leaves the run as
/// it was: the same action is still waited for.
pub proof fn lemma_stray_event_changes_nothing(run: RunModel, event: Event)
    requires
        !event.answers(run.pending()),
    ensures
        run.next(event) == StepModel::Next(run),
{
}

/// A move to a height beyond the configured limits is refused at once: the
/// operation is over before any action is asked for, so no command reaches
/// the motor, and the desk is as it was.
pub proof fn lemma_out_of_bounds_is_refused(desk: DeskModel, target: Centimeter)
    requires
        !desk.allows(target),
    ensures
        desk.begin_move(target) matches StepModel::Done(after, outcome) && after == desk
            && outcome matches Err(DeskError::OutOfBounds(_)),
        !desk.begin_move(target).asks_for_motor(),
{
}

/// A move to a height within the limits, begun where the desk already
/// stands within the tolerance of it, is over after the first reading: it
/// succeeds, asks for no command to the motor, and leaves the desk as it
/// was. So do all moves to that height that follow while the desk stands
/// there.
pub proof fn lemma_move_in_place_is_idle(desk: DeskModel, target: Centimeter, reading: EchoReading)
    requires
        desk.allows(target),
        desk.calibration.reading_height(reading) matches Ok(current) && within_tolerance(
            current,
            target,
        ),
    ensures
        desk.begin_move(target) matches StepModel::Next(run) && run.pending() == Action::Measure
            && run.next(Event::Echo(reading)) == StepModel::Done(desk, Ok(())),
        !desk.begin_move(target).asks_for_motor(),
{
}

/// A run of the motor never outlasts its time: once the time that the motor
/// has run reaches the limit, the next thing asked for is the stop of the
/// motor, whatever the run was to reach. The same holds once the shutdown
/// channel is found not to be empty.
pub proof fn lemma_run_ends_in_time(
    run: RunModel,
    direction: MoveDirection,
    goal: Goal,
    elapsed_ms: u64,
    shutdown: ShutdownPoll,
)
    requires
        run.phase == (Phase::Timing { direction, goal }),
        elapsed_ms >= run.desk.timeout_secs * 1000 || shutdown != ShutdownPoll::Empty,
    ensures
        run.next(Event::RunChecked { elapsed_ms, shutdown }) matches StepModel::Next(then)
            && then.pending() == Action::Motor(MotorCommand::Stop) && then.desk == run.desk,
{
}

/// The standing desk, at rest between two operations.
#[derive(Debug)]
pub struct StandingDesk {
    config: TableConfig,
    sensor: HCSR04,
    motor_driver: DeskMotorDriver,
}

/// A standing desk in the middle of an operation.
#[derive(Debug)]
pub struct Run {
    config: TableConfig,
    sensor: HCSR04,
    motor_driver: DeskMotorDriver,
    phase: Phase,
}

/// What a call on a desk, or on a run, leads to.
#[derive(Debug)]
pub enum Step {
    /// The operation goes on: the run waits for the answer to its action.
    Next(Run),
    /// The operation is over: the desk at rest, and whether the operation
    /// succeeded.
    Done(StandingDesk, Result<(), DeskError>),
}

impl View for StandingDesk {
    type V = DeskModel;

    closed spec fn view(&self) -> DeskModel {
        DeskModel {
            config: self.config,
            calibration: self.sensor.calibration(),
            calibration_file: self.sensor.storage(),
            timeout_secs: self.motor_driver.timeout_secs(),
            lines: self.motor_driver.lines(),
        }
    }
}

impl View for Run {
    type V = RunModel;

    closed spec fn view(&self) -> RunModel {
        RunModel {
            desk: DeskModel {
                config: self.config,
                calibration: self.sensor.calibration(),
                calibration_file: self.sensor.storage(),
                timeout_secs: self.motor_driver.timeout_secs(),
                lines: self.motor_driver.lines(),
            },
            phase: self.phase,
        }
    }
}

impl View for Step {
    type V = StepModel;

    open spec fn view(&self) -> StepModel {
        match *self {
            Step::Next(run) => StepModel::Next(run@),
            Step::Done(desk, outcome) => StepModel::Done(desk@, outcome),
        }
    }
}

impl StandingDesk {
    #[verifier::type_invariant]
    spec fn motor_at_rest(self) -> bool {
        self.motor_driver.lines().is_stopped()
    }

    /// A desk at rest, with the calibration that was loaded from the
    /// configured place.
    ///
    /// Fails exactly where both directions of the motor are given the same
    /// pin.
    pub fn new(config: Config, calibration_data: SensorCalibrationData) -> (desk: Result<
        StandingDesk,
        DeskError,
    >)
        ensures
            config.motor.up_pin == config.motor.down_pin ==> desk matches Err(
                DeskError::Configuration,
            ),
            config.motor.up_pin != config.motor.down_pin ==> (desk matches Ok(made) && made@ == (
            DeskModel {
                config: config.table,
                calibration: calibration_data,
                calibration_file: config.sensor.calibration_file@,
                timeout_secs: config.motor.timeout_secs,
                lines: MotorCommand::Stop.levels(),
            })),
    {
        let Config { table, sensor, motor } = config;
        match DeskMotorDriver::new(motor) {
            Ok(motor_driver) => Ok(
                StandingDesk {
                    config: table,
                    sensor: HCSR04::new(sensor, calibration_data),
                    motor_driver,
                },
            ),
            Err(error) => Err(error),
        }
    }

    /// The configured heights.
    pub fn config(&self) -> (config: &TableConfig)
        ensures
            *config == self@.config,
    {
        &self.config
    }

    /// The sensor of the desk.
    pub fn sensor(&self) -> (sensor: &HCSR04)
        ensures
            sensor.calibration() == self@.calibration,
            sensor.storage() == self@.calibration_file,
    {
        &self.sensor
    }

    /// The levels of the motor lines of a desk at rest: both are low.
    pub fn motor_lines(&self) -> (lines: LineLevels)
        ensures
            lines == self@.lines,
            lines.is_stopped(),
    {
        proof {
            use_type_invariant(self);
        }
        self.motor_driver.levels()
    }

    /// The height that a reading of the sensor stands for.
    pub fn get_measurement(&self, reading: EchoReading) -> (height: Result<Centimeter, DeskError>)
        ensures
            height == self@.calibration.reading_height(reading),
    {
        self.sensor.current_height(reading)
    }

    /// Begins a move to the standing position.
    pub fn move_to_standing(self) -> (step: Step)
        ensures
            step@ == self@.begin_move(self@.config.standing_height),
            step@.is_safe(),
    {
        let target = self.config.standing_height;
        self.move_to_height(target)
    }

    /// Begins a move to the sitting position.
    pub fn move_to_sitting(self) -> (step: Step)
        ensures
            step@ == self@.begin_move(self@.config.sitting_height),
            step@.is_safe(),
    {
        let target = self.config.sitting_height;
        self.move_to_height(target)
    }

    /// Begins a calibration: the desk is driven to both ends of its travel,
    /// the readings there become the anchors of the configured limits, the
    /// record is stored, and the desk moves to the sitting position.
    pub fn calibrate(self) -> (step: Step)
        ensures
            step@ == self@.begin_calibration(),
            step@.is_safe(),
    {
        proof {
            use_type_invariant(&self);
        }
        let StandingDesk { config, sensor, motor_driver } = self;
        Step::Next(
            Run {
                config,
                sensor,
                motor_driver,
                phase: Phase::Starting { direction: MoveDirection::Up, goal: Goal::Limit },
            },
        )
    }

    /// Begins a move to the given height.
    ///
    /// A height beyond the configured limits is refused at once. For any
    /// other the run first asks where the desk stands.
    pub fn move_to_height(self, height_cm: Centimeter) -> (step: Step)
        ensures
            step@ == self@.begin_move(height_cm),
            step@.is_safe(),
    {
        proof {
            use_type_invariant(&self);
        }
        if height_cm.0 > self.config.max_table_height.0 {
            let limit = self.config.max_table_height;
            return Step::Done(self, Err(DeskError::OutOfBounds(Bound::Above(limit))));
        }
        if height_cm.0 < self.config.min_table_height.0 {
            let limit = self.config.min_table_height;
            return Step::Done(self, Err(DeskError::OutOfBounds(Bound::Below(limit))));
        }
        let StandingDesk { config, sensor, motor_driver } = self;
        Step::Next(Run { config, sensor, motor_driver, phase: Phase::Locating { target: height_cm } })
    }
}

impl Run {
    #[verifier::type_invariant]
    spec fn lines_follow_phase(self) -> bool {
        self.motor_driver.lines() == self.phase.motor_state().levels()
    }

    /// The action that the run waits for.
    pub fn action(&self) -> (action: Action)
        ensures
            action == self@.pending(),
    {
        match self.phase {
            Phase::Locating { .. } => Action::Measure,
            Phase::Starting { direction, .. } => match direction {
                MoveDirection::Up => Action::Motor(MotorCommand::Up),
                MoveDirection::Down => Action::Motor(MotorCommand::Down),
            },
            Phase::Watching { .. } => Action::Measure,
            Phase::Timing { .. } => Action::CheckRun,
            Phase::Pausing { .. } => Action::Wait,
            Phase::Stopping { .. } => Action::Motor(MotorCommand::Stop),
            Phase::Anchoring { .. } => Action::Measure,
            Phase::Storing => Action::Persist(*self.sensor.calibration_data()),
        }
    }

    /// Where the operation stands.
    pub fn phase(&self) -> (phase: Phase)
        ensures
            phase == self@.phase,
    {
        self.phase
    }

    /// The levels of the motor lines: those of the direction while the
    /// motor runs, both low in every other phase.
    pub fn motor_lines(&self) -> (lines: LineLevels)
        ensures
            lines == self@.desk.lines,
            lines == self@.phase.motor_state().levels(),
            lines.is_exclusive(),
    {
        proof {
            use_type_invariant(self);
        }
        self.motor_driver.levels()
    }

    /// Hands a series of recorded events to the run, one after the other,
    /// and gives the step that the last of them leads to. Events that
    /// follow the end of the operation are passed over.
    pub fn replay(self, events: &Vec<Event>) -> (step: Step)
        ensures
            step@ == self@.after(events@),
            step@.is_safe(),
    {
        proof {
            use_type_invariant(&self);
        }
        let ghost start = self@;
        let mut step = Step::Next(self);
        let mut done: usize = 0;
        while done < events.len()
            invariant
                done <= events.len(),
                step@ == start.after(events@.take(done as int)),
                step@.is_safe(),
            decreases events.len() - done,
        {
            proof {
                assert(events@.take(done + 1).drop_last() =~= events@.take(done as int));
            }
            step =
            match step {
                Step::Next(run) => run.step(events[done]),
                Step::Done(desk, outcome) => Step::Done(desk, outcome),
            };
            done += 1;
        }
        proof {
            assert(events@.take(done as int) =~= events@);
        }
        step
    }

    /// Takes the event that the caller reports and gives the step that it
    /// leads to. The motor lines stand as the operation has them afterwards:
    /// a desk that is handed back is at rest.
    pub fn step(self, event: Event) -> (step: Step)
        ensures
            step@ == self@.next(event),
            step@.is_safe(),
    {
        proof {
            use_type_invariant(&self);
            lemma_next_is_safe(self@, event);
        }
        let Run { config, mut sensor, mut motor_driver, phase } = self;
        match (phase, event) {
            (Phase::Locating { target }, Event::Echo(reading)) => {
                match sensor.current_height(reading) {
                    Err(error) => Step::Done(StandingDesk { config, sensor, motor_driver }, Err(error)),
                    Ok(current) => {
                        if is_within_tolerance(current, target) {
                            Step::Done(StandingDesk { config, sensor, motor_driver }, Ok(()))
                        } else if current.0 < target.0 {
                            Step::Next(
                                Run {
                                    config,
                                    sensor,
                                    motor_driver,
                                    phase: Phase::Starting {
                                        direction: MoveDirection::Up,
                                        goal: Goal::Height(target),
                                    },
                                },
                            )
                        } else {
                            Step::Next(
                                Run {
                                    config,
                                    sensor,
                                    motor_driver,
                                    phase: Phase::Starting {
                                        direction: MoveDirection::Down,
                                        goal: Goal::Height(target),
                                    },
                                },
                            )
                        }
                    },
                }
            },
            (Phase::Starting { direction, goal }, Event::MotorSet) => {
                let _ = motor_driver.start(direction);
                let phase = match goal {
                    Goal::Height(target) => Phase::Watching { direction, target },
                    Goal::Limit => Phase::Timing { direction, goal },
                };
                Step::Next(Run { config, sensor, motor_driver, phase })
            },
            (Phase::Watching { direction, target }, Event::Echo(reading)) => {
                let measured = sensor.current_height(reading);
                let goal = Goal::Height(target);
                let phase = if is_short_of_target(direction, target, measured) {
                    Phase::Timing { direction, goal }
                } else {
                    Phase::Stopping { direction, goal }
                };
                Step::Next(Run { config, sensor, motor_driver, phase })
            },
            (Phase::Timing { direction, goal }, Event::RunChecked { elapsed_ms, shutdown }) => {
                let phase = if motor_driver.keeps_running(elapsed_ms, shutdown) {
                    Phase::Pausing { direction, goal }
                } else {
                    Phase::Stopping { direction, goal }
                };
                Step::Next(Run { config, sensor, motor_driver, phase })
            },
            (Phase::Pausing { direction, goal }, Event::Waited) => {
                let phase = match goal {
                    Goal::Height(target) => Phase::Watching { direction, target },
                    Goal::Limit => Phase::Timing { direction, goal },
                };
                Step::Next(Run { config, sensor, motor_driver, phase })
            },
            (Phase::Stopping { direction, goal }, Event::MotorSet) => {
                let _ = motor_driver.halt();
                match goal {
                    Goal::Height(_) => Step::Done(
                        StandingDesk { config, sensor, motor_driver },
                        Ok(()),
                    ),
                    Goal::Limit => {
                        let upper = match direction {
                            MoveDirection::Up => true,
                            MoveDirection::Down => false,
                        };
                        Step::Next(
                            Run { config, sensor, motor_driver, phase: Phase::Anchoring { upper } },
                        )
                    },
                }
            },
            (Phase::Anchoring { upper }, Event::Echo(reading)) => {
                let set = if upper {
                    sensor.set_max_height(config.max_table_height, reading)
                } else {
                    sensor.set_min_height(config.min_table_height, reading)
                };
                match set {
                    Err(error) => Step::Done(StandingDesk { config, sensor, motor_driver }, Err(error)),
                    Ok(()) => {
                        let phase = if upper {
                            Phase::Starting { direction: MoveDirection::Down, goal: Goal::Limit }
                        } else {
                            Phase::Storing
                        };
                        Step::Next(Run { config, sensor, motor_driver, phase })
                    },
                }
            },
            (Phase::Storing, Event::Persisted(written)) => {
                let desk = StandingDesk { config, sensor, motor_driver };
                if written {
                    desk.move_to_sitting()
                } else {
                    Step::Done(desk, Err(DeskError::Persistence))
                }
            },
            _ => Step::Next(Run { config, sensor, motor_driver, phase }),
        }
    }
}

} // verus!
