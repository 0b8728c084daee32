//! The motor of the desk: two output lines, one for each direction, and the
//! rule that bounds one run of the motor.

use vstd::prelude::*;

use crate::config::MotorConfig;
use crate::error::DeskError;

verus! {

/// The pause between two looks at a running motor, in milliseconds.
pub const POLL_INTERVAL_MS: u64 = 50;

/// The way in which the desk moves.
#[derive(Debug, Copy, Clone, PartialEq, Eq, Structural)]
pub enum MoveDirection {
    Up,
    Down,
}

/// One of the two output lines of the motor.
#[derive(Debug, Copy, Clone, PartialEq, Eq, Structural)]
pub enum MotorLine {
    Up,
    Down,
}

/// One write to an output line of the motor.
#[derive(Debug, Copy, Clone, PartialEq, Eq, Structural)]
pub struct LineWrite {
    pub line: MotorLine,
    pub high: bool,
}

/// What the motor is told to do.
#[derive(Debug, Copy, Clone, PartialEq, Eq, Structural)]
pub enum MotorCommand {
    Up,
    Down,
    Stop,
}

/// What a look at the shutdown channel found.
#[derive(Debug, Copy, Clone, PartialEq, Eq, Structural)]
pub enum ShutdownPoll {
    /// Nothing has arrived: nobody asked to stop.
    Empty,
    /// A request to shut down has arrived.
    Requested,
    /// The sending side is gone.
    Disconnected,
}

/// The levels of the two output lines.
#[derive(Debug, Copy, Clone, PartialEq, Eq, Structural)]
pub struct LineLevels {
    pub up: bool,
    pub down: bool,
}

impl LineLevels {
    /// Neither line is asserted: the motor stands still.
    pub open spec fn is_stopped(self) -> bool {
        !self.up && !self.down
    }

    /// At most one line is asserted.
    pub open spec fn is_exclusive(self) -> bool {
        !(self.up && self.down)
    }

    /// The levels after one write.
    pub open spec fn after(self, write: LineWrite) -> LineLevels {
        match write.line {
            MotorLine::Up => LineLevels { up: write.high, down: self.down },
            MotorLine::Down => LineLevels { up: self.up, down: write.high },
        }
    }

    /// The levels after a run of writes, made in order.
    pub open spec fn after_all(self, writes: Seq<LineWrite>) -> LineLevels
        decreases writes.len(),
    {
        if writes.len() == 0 {
            self
        } else {
            self.after_all(writes.drop_last()).after(writes.last())
        }
    }
}

impl MoveDirection {
    /// The command that moves the desk this way.
    pub open spec fn command(self) -> MotorCommand {
        match self {
            MoveDirection::Up => MotorCommand::Up,
            MoveDirection::Down => MotorCommand::Down,
        }
    }
}

impl MotorCommand {
    /// The levels that the command leaves on the lines.
    pub open spec fn levels(self) -> LineLevels {
        match self {
            MotorCommand::Up => LineLevels { up: true, down: false },
            MotorCommand::Down => LineLevels { up: false, down: true },
            MotorCommand::Stop => LineLevels { up: false, down: false },
        }
    }

    /// The writes that carry the command out, in order: both lines are
    /// lowered first, then the line of the direction is raised.
    pub open spec fn writes(self) -> Seq<LineWrite> {
        let lower = seq![
            LineWrite { line: MotorLine::Up, high: false },
            LineWrite { line: MotorLine::Down, high: false },
        ];
        match self {
            MotorCommand::Up => lower.push(LineWrite { line: MotorLine::Up, high: true }),
            MotorCommand::Down => lower.push(LineWrite { line: MotorLine::Down, high: true }),
            MotorCommand::Stop => lower,
        }
    }

    /// Whether the command sets the motor going. The time of a run counts
    /// from such a command.
    pub fn starts_motor(self) -> (starts: bool)
        ensures
            starts == !self.levels().is_stopped(),
            starts == (self != MotorCommand::Stop),
    {
        match self {
            MotorCommand::Up => true,
            MotorCommand::Down => true,
            MotorCommand::Stop => false,
        }
    }

    /// The writes to make on the output lines for this command, in the
    /// order in which to make them.
    pub fn line_writes(self) -> (writes: Vec<LineWrite>)
        ensures
            writes@ == self.writes(),
    {
        let mut writes: Vec<LineWrite> = Vec::new();
        writes.push(LineWrite { line: MotorLine::Up, high: false });
        writes.push(LineWrite { line: MotorLine::Down, high: false });
        match self {
            MotorCommand::Up => writes.push(LineWrite { line: MotorLine::Up, high: true }),
            MotorCommand::Down => writes.push(LineWrite { line: MotorLine::Down, high: true }),
            MotorCommand::Stop => {},
        }
        assert(writes@ =~= self.writes());
        writes
    }

    /// Whatever the lines held before, the writes of a command leave the
    /// levels of that command; and from lines of which at most one was
    /// asserted, at most one is asserted after each single write.
    pub proof fn lemma_writes_are_safe(self, before: LineLevels, made: int)
        requires
            0 <= made <= self.writes().len(),
        ensures
            before.after_all(self.writes()) == self.levels(),
            before.is_exclusive() ==> before.after_all(self.writes().take(made)).is_exclusive(),
    {
        let writes = self.writes();
        let none = writes.take(0);
        let one = writes.take(1);
        let two = writes.take(2);
        assert(one.drop_last() =~= none);
        assert(two.drop_last() =~= one);
        assert(before.after_all(none) == before);
        assert(before.after_all(one) == before.after(writes[0]));
        assert(before.after_all(two) == before.after(writes[0]).after(writes[1]));
        if writes.len() == 2 {
            assert(writes.take(2) =~= writes);
        } else {
            let three = writes.take(3);
            assert(three =~= writes);
            assert(three.drop_last() =~= two);
            assert(before.after_all(three) == before.after_all(two).after(writes[2]));
        }
    }
}

/// The motor as its two output lines stand.
#[derive(Debug)]
pub struct DeskMotor {
    levels: LineLevels,
}

impl View for DeskMotor {
    type V = LineLevels;

    closed spec fn view(&self) -> LineLevels {
        self.levels
    }
}

impl DeskMotor {
    #[verifier::type_invariant]
    spec fn one_line_at_most(self) -> bool {
        self.levels.is_exclusive()
    }

    /// A motor at rest on the configured pins.
    ///
    /// Fails exactly where both directions are given the same pin.
    pub fn new(config: MotorConfig) -> (motor: Result<DeskMotor, DeskError>)
        ensures
            config.up_pin == config.down_pin ==> motor == Err::<DeskMotor, DeskError>(
                DeskError::Configuration,
            ),
            config.up_pin != config.down_pin ==> motor.is_ok() && motor.unwrap()@
                == MotorCommand::Stop.levels(),
    {
        if config.up_pin == config.down_pin {
            Err(DeskError::Configuration)
        } else {
            Ok(DeskMotor { levels: LineLevels { up: false, down: false } })
        }
    }

    /// The levels of the two lines. At most one of them is ever asserted.
    pub fn levels(&self) -> (levels: LineLevels)
        ensures
            levels == self@,
            levels.is_exclusive(),
    {
        proof {
            use_type_invariant(self);
        }
        self.levels
    }

    /// Starts the motor upwards.
    pub fn up(&mut self) -> (command: MotorCommand)
        ensures
            command == MotorCommand::Up,
            final(self)@ == old(self)@.after_all(command.writes()),
            final(self)@ == command.levels(),
    {
        proof {
            MotorCommand::Up.lemma_writes_are_safe(self@, 0);
        }
        self.levels = LineLevels { up: true, down: false };
        MotorCommand::Up
    }

    /// Starts the motor downwards.
    pub fn down(&mut self) -> (command: MotorCommand)
        ensures
            command == MotorCommand::Down,
            final(self)@ == old(self)@.after_all(command.writes()),
            final(self)@ == command.levels(),
    {
        proof {
            MotorCommand::Down.lemma_writes_are_safe(self@, 0);
        }
        self.levels = LineLevels { up: false, down: true };
        MotorCommand::Down
    }

    /// Stops the motor.
    pub fn stop(&mut self) -> (command: MotorCommand)
        ensures
            command == MotorCommand::Stop,
            final(self)@ == old(self)@.after_all(command.writes()),
            final(self)@ == command.levels(),
            final(self)@.is_stopped(),
    {
        proof {
            MotorCommand::Stop.lemma_writes_are_safe(self@, 0);
        }
        self.levels = LineLevels { up: false, down: false };
        MotorCommand::Stop
    }
}

/// Whether a run of the motor that has lasted `elapsed_ms` milliseconds may
/// go on: the limit of `timeout_secs` seconds is not reached, and nobody
/// asked to stop.
pub open spec fn run_may_go_on(timeout_secs: u64, elapsed_ms: u64, shutdown: ShutdownPoll) -> bool {
    elapsed_ms < timeout_secs * 1000 && shutdown == ShutdownPoll::Empty
}

/// The motor together with the limit of one run.
#[derive(Debug)]
pub struct DeskMotorDriver {
    motor: DeskMotor,
    timeout_secs: u64,
}

impl DeskMotorDriver {
    /// The levels of the two output lines.
    pub closed spec fn lines(self) -> LineLevels {
        self.motor@
    }

    /// The longest time that the motor may run at a stretch, in seconds.
    pub closed spec fn timeout_secs(self) -> u64 {
        self.timeout_secs
    }

    /// A driver for a motor at rest.
    ///
    /// Fails exactly where both directions are given the same pin.
    pub fn new(config: MotorConfig) -> (driver: Result<DeskMotorDriver, DeskError>)
        ensures
            config.up_pin == config.down_pin ==> driver == Err::<DeskMotorDriver, DeskError>(
                DeskError::Configuration,
            ),
            config.up_pin != config.down_pin ==> driver.is_ok() && driver.unwrap().lines()
                == MotorCommand::Stop.levels() && driver.unwrap().timeout_secs()
                == config.timeout_secs,
    {
        match DeskMotor::new(config) {
            Ok(motor) => Ok(DeskMotorDriver { motor, timeout_secs: config.timeout_secs }),
            Err(error) => Err(error),
        }
    }

    /// The levels of the two lines. At most one of them is ever asserted.
    pub fn levels(&self) -> (levels: LineLevels)
        ensures
            levels == self.lines(),
            levels.is_exclusive(),
    {
        self.motor.levels()
    }

    /// Starts a run in the given direction and gives the command to carry
    /// out.
    pub fn start(&mut self, direction: MoveDirection) -> (command: MotorCommand)
        ensures
            command == direction.command(),
            final(self).lines() == command.levels(),
            final(self).timeout_secs() == old(self).timeout_secs(),
    {
        match direction {
            MoveDirection::Up => self.motor.up(),
            MoveDirection::Down => self.motor.down(),
        }
    }

    /// Decides, at one look during a run, whether the motor keeps running.
    pub fn keeps_running(&self, elapsed_ms: u64, shutdown: ShutdownPoll) -> (go_on: bool)
        ensures
            go_on == run_may_go_on(self.timeout_secs(), elapsed_ms, shutdown),
    {
        let in_time = elapsed_ms / 1000 < self.timeout_secs;
        match shutdown {
            ShutdownPoll::Empty => in_time,
            _ => false,
        }
    }

    /// Ends a run and gives the command to carry out. The motor is at rest
    /// afterwards.
    pub fn halt(&mut self) -> (command: MotorCommand)
        ensures
            command == MotorCommand::Stop,
            final(self).lines().is_stopped(),
            final(self).timeout_secs() == old(self).timeout_secs(),
    {
        self.motor.stop()
    }
}

} // verus!
