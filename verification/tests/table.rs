use standing_desk::config::Config;
use standing_desk::config::MotorConfig;
use standing_desk::config::SensorConfig;
use standing_desk::config::TableConfig;
use standing_desk::error::Bound;
use standing_desk::error::DeskError;
use standing_desk::motor::LineLevels;
use standing_desk::motor::MotorCommand;
use standing_desk::motor::MoveDirection;
use standing_desk::motor::ShutdownPoll;
use standing_desk::movement::is_short_of_target;
use standing_desk::movement::is_within_tolerance;
use standing_desk::movement::Action;
use standing_desk::movement::Event;
use standing_desk::movement::Goal;
use standing_desk::movement::Phase;
use standing_desk::primitives::Centimeter;
use standing_desk::sensor::EchoReading;
use standing_desk::sensor::SensorCalibrationData;
use standing_desk::table::Run;
use standing_desk::table::StandingDesk;
use standing_desk::table::Step;

const AT_REST: LineLevels = LineLevels { up: false, down: false };
const GOING_UP: LineLevels = LineLevels { up: true, down: false };
const GOING_DOWN: LineLevels = LineLevels { up: false, down: true };

fn anchors() -> SensorCalibrationData {
    SensorCalibrationData {
        min_height: Centimeter(40),
        min_height_echo_us: 1166,
        max_height: Centimeter(130),
        max_height_echo_us: 3790,
    }
}

fn config() -> Config {
    Config {
        table: TableConfig {
            max_table_height: Centimeter(150),
            min_table_height: Centimeter(40),
            sitting_height: Centimeter(72),
            standing_height: Centimeter(118),
        },
        sensor: SensorConfig {
            trigger_pin: 23,
            echo_pin: 24,
            calibration_file: String::from("calibration.toml"),
        },
        motor: MotorConfig { up_pin: 17, down_pin: 27, timeout_secs: 5 },
    }
}

fn desk() -> StandingDesk {
    StandingDesk::new(config(), anchors()).unwrap()
}

/// A reading that the anchors above turn into the given height.
fn at(height: u64) -> Event {
    let elapsed_us = 1166 + (height - 40) * 2624 / 90;
    Event::Echo(EchoReading { rising_edge: true, falling_edge: true, elapsed_us })
}

fn silence() -> Event {
    Event::Echo(EchoReading { rising_edge: true, falling_edge: false, elapsed_us: 250_000 })
}

fn clock(elapsed_ms: u64) -> Event {
    Event::RunChecked { elapsed_ms, shutdown: ShutdownPoll::Empty }
}

fn running(step: Step) -> Run {
    match step {
        Step::Next(run) => run,
        Step::Done(_, outcome) => panic!("the operation is over: {:?}", outcome),
    }
}

fn over(step: Step) -> (StandingDesk, Result<(), DeskError>) {
    match step {
        Step::Done(desk, outcome) => (desk, outcome),
        Step::Next(run) => panic!("the operation goes on: {:?}", run.phase()),
    }
}

#[test]
fn readings_stand_for_the_heights_they_are_named_by() {
    let desk = desk();
    for height in [40, 41, 72, 85, 117, 118, 119, 130, 150] {
        match at(height) {
            Event::Echo(reading) => {
                assert_eq!(desk.get_measurement(reading), Ok(Centimeter(height as u8)))
            },
            _ => unreachable!(),
        }
    }
}

#[test]
fn desk_with_one_motor_pin_is_refused() {
    let mut ambiguous = config();
    ambiguous.motor.down_pin = ambiguous.motor.up_pin;
    assert!(matches!(StandingDesk::new(ambiguous, anchors()), Err(DeskError::Configuration)));
}

#[test]
fn new_desk_is_at_rest() {
    let desk = desk();
    assert_eq!(desk.motor_lines(), AT_REST);
    assert_eq!(desk.config().max_table_height, Centimeter(150));
    assert_eq!(*desk.sensor().calibration_data(), anchors());
    assert_eq!(desk.sensor().calibration_file().as_str(), "calibration.toml");
}

#[test]
fn get_measurement_reads_the_sensor() {
    let reading = EchoReading { rising_edge: true, falling_edge: true, elapsed_us: 2478 };
    assert_eq!(desk().get_measurement(reading), Ok(Centimeter(85)));
    let late = EchoReading { rising_edge: true, falling_edge: true, elapsed_us: 200_000 };
    assert_eq!(desk().get_measurement(late), Err(DeskError::Measurement));
}

#[test]
fn height_above_the_limit_is_refused_before_anything_moves() {
    let (desk, outcome) = over(desk().move_to_height(Centimeter(200)));
    assert_eq!(outcome, Err(DeskError::OutOfBounds(Bound::Above(Centimeter(150)))));
    assert_eq!(desk.motor_lines(), AT_REST);
    assert_eq!(*desk.sensor().calibration_data(), anchors());
}

#[test]
fn height_below_the_limit_is_refused_before_anything_moves() {
    let (desk, outcome) = over(desk().move_to_height(Centimeter(39)));
    assert_eq!(outcome, Err(DeskError::OutOfBounds(Bound::Below(Centimeter(40)))));
    assert_eq!(desk.motor_lines(), AT_REST);
}

#[test]
fn limits_themselves_are_allowed() {
    let run = running(desk().move_to_height(Centimeter(150)));
    assert_eq!(run.action(), Action::Measure);
    let run = running(desk().move_to_height(Centimeter(40)));
    assert_eq!(run.action(), Action::Measure);
}

#[test]
fn move_in_place_asks_for_no_motor() {
    for current in [84, 85, 86] {
        let run = running(desk().move_to_height(Centimeter(85)));
        assert_eq!(run.action(), Action::Measure);
        let (desk, outcome) = over(run.step(at(current)));
        assert_eq!(outcome, Ok(()));
        assert_eq!(desk.motor_lines(), AT_REST);
        let run = running(desk.move_to_height(Centimeter(85)));
        let (desk, outcome) = over(run.step(at(current)));
        assert_eq!(outcome, Ok(()));
        assert_eq!(desk.motor_lines(), AT_REST);
    }
}

#[test]
fn move_fails_where_the_desk_cannot_be_located() {
    let run = running(desk().move_to_height(Centimeter(85)));
    let (desk, outcome) = over(run.step(silence()));
    assert_eq!(outcome, Err(DeskError::Measurement));
    assert_eq!(desk.motor_lines(), AT_REST);
}

#[test]
fn move_up_runs_until_the_height_is_reached() {
    let run = running(desk().move_to_height(Centimeter(118)));
    let run = running(run.step(at(72)));
    assert_eq!(run.action(), Action::Motor(MotorCommand::Up));
    assert_eq!(run.motor_lines(), AT_REST);
    let run = running(run.step(Event::MotorSet));
    assert_eq!(run.motor_lines(), GOING_UP);
    assert_eq!(run.action(), Action::Measure);
    let run = running(run.step(at(73)));
    assert_eq!(run.action(), Action::CheckRun);
    let run = running(run.step(clock(1)));
    assert_eq!(run.action(), Action::Wait);
    let run = running(run.step(Event::Waited));
    assert_eq!(run.action(), Action::Measure);
    let run = running(run.step(at(117)));
    assert_eq!(run.action(), Action::CheckRun);
    let run = running(run.step(clock(51)));
    let run = running(run.step(Event::Waited));
    let run = running(run.step(at(118)));
    assert_eq!(run.action(), Action::Motor(MotorCommand::Stop));
    assert_eq!(run.motor_lines(), GOING_UP);
    let (desk, outcome) = over(run.step(Event::MotorSet));
    assert_eq!(outcome, Ok(()));
    assert_eq!(desk.motor_lines(), AT_REST);
}

#[test]
fn move_down_runs_until_the_height_is_passed() {
    let run = running(desk().move_to_height(Centimeter(72)));
    let run = running(run.step(at(118)));
    assert_eq!(run.action(), Action::Motor(MotorCommand::Down));
    let run = running(run.step(Event::MotorSet));
    assert_eq!(run.motor_lines(), GOING_DOWN);
    let run = running(run.step(at(73)));
    assert_eq!(run.action(), Action::CheckRun);
    let run = running(run.step(clock(3)));
    let run = running(run.step(Event::Waited));
    let run = running(run.step(at(70)));
    assert_eq!(run.action(), Action::Motor(MotorCommand::Stop));
    let (desk, outcome) = over(run.step(Event::MotorSet));
    assert_eq!(outcome, Ok(()));
    assert_eq!(desk.motor_lines(), AT_REST);
}

#[test]
fn failed_measurement_stops_the_motor() {
    let run = running(desk().move_to_height(Centimeter(118)));
    let run = running(run.step(at(72)));
    let run = running(run.step(Event::MotorSet));
    let run = running(run.step(silence()));
    assert_eq!(run.action(), Action::Motor(MotorCommand::Stop));
    let (desk, outcome) = over(run.step(Event::MotorSet));
    assert_eq!(outcome, Ok(()));
    assert_eq!(desk.motor_lines(), AT_REST);
}

#[test]
fn time_limit_stops_a_move() {
    let run = running(desk().move_to_height(Centimeter(118)));
    let run = running(run.step(at(72)));
    let run = running(run.step(Event::MotorSet));
    let run = running(run.step(at(72)));
    let run = running(run.step(clock(5_000)));
    assert_eq!(run.action(), Action::Motor(MotorCommand::Stop));
    let (desk, outcome) = over(run.step(Event::MotorSet));
    assert_eq!(outcome, Ok(()));
    assert_eq!(desk.motor_lines(), AT_REST);
}

#[test]
fn shutdown_stops_a_move() {
    for shutdown in [ShutdownPoll::Requested, ShutdownPoll::Disconnected] {
        let run = running(desk().move_to_height(Centimeter(118)));
        let run = running(run.step(at(72)));
        let run = running(run.step(Event::MotorSet));
        let run = running(run.step(at(72)));
        let run = running(run.step(Event::RunChecked { elapsed_ms: 10, shutdown }));
        assert_eq!(run.action(), Action::Motor(MotorCommand::Stop));
        let (desk, outcome) = over(run.step(Event::MotorSet));
        assert_eq!(outcome, Ok(()));
        assert_eq!(desk.motor_lines(), AT_REST);
    }
}

#[test]
fn run_without_end_stops_at_the_five_second_mark() {
    let mut run = running(desk().calibrate());
    assert_eq!(run.action(), Action::Motor(MotorCommand::Up));
    run = running(run.step(Event::MotorSet));
    let mut elapsed_ms = 0;
    let mut pauses = 0;
    loop {
        assert_eq!(run.action(), Action::CheckRun);
        assert_eq!(run.motor_lines(), GOING_UP);
        run = running(run.step(clock(elapsed_ms)));
        if run.action() != Action::Wait {
            break;
        }
        run = running(run.step(Event::Waited));
        elapsed_ms += 50;
        pauses += 1;
    }
    assert_eq!(elapsed_ms, 5_000);
    assert_eq!(pauses, 100);
    assert_eq!(run.action(), Action::Motor(MotorCommand::Stop));
    let run = running(run.step(Event::MotorSet));
    assert_eq!(run.motor_lines(), AT_REST);
    assert_eq!(run.phase(), Phase::Anchoring { upper: true });
}

fn calibrated_to_storing() -> Run {
    let run = running(desk().calibrate());
    let run = running(run.step(Event::MotorSet));
    let run = running(run.step(clock(5_000)));
    let run = running(run.step(Event::MotorSet));
    assert_eq!(run.action(), Action::Measure);
    let run = running(run.step(Event::Echo(EchoReading {
        rising_edge: true,
        falling_edge: true,
        elapsed_us: 4400,
    })));
    assert_eq!(run.action(), Action::Motor(MotorCommand::Down));
    assert_eq!(
        run.phase(),
        Phase::Starting { direction: MoveDirection::Down, goal: Goal::Limit }
    );
    let run = running(run.step(Event::MotorSet));
    assert_eq!(run.motor_lines(), GOING_DOWN);
    let run = running(run.step(clock(4_999)));
    assert_eq!(run.action(), Action::Wait);
    let run = running(run.step(Event::Waited));
    let run = running(run.step(clock(5_049)));
    assert_eq!(run.action(), Action::Motor(MotorCommand::Stop));
    let run = running(run.step(Event::MotorSet));
    assert_eq!(run.phase(), Phase::Anchoring { upper: false });
    running(run.step(Event::Echo(EchoReading {
        rising_edge: true,
        falling_edge: true,
        elapsed_us: 1200,
    })))
}

fn calibrated() -> SensorCalibrationData {
    SensorCalibrationData {
        min_height: Centimeter(40),
        min_height_echo_us: 1200,
        max_height: Centimeter(150),
        max_height_echo_us: 4400,
    }
}

#[test]
fn calibration_anchors_the_configured_limits() {
    let run = calibrated_to_storing();
    assert_eq!(run.phase(), Phase::Storing);
    assert_eq!(run.action(), Action::Persist(calibrated()));
    assert_eq!(run.motor_lines(), AT_REST);
}

#[test]
fn calibration_ends_with_a_move_to_sitting() {
    let run = running(calibrated_to_storing().step(Event::Persisted(true)));
    assert_eq!(run.phase(), Phase::Locating { target: Centimeter(72) });
    let reading = EchoReading { rising_edge: true, falling_edge: true, elapsed_us: 1200 };
    let run = running(run.step(Event::Echo(reading)));
    assert_eq!(run.action(), Action::Motor(MotorCommand::Up));
    let run = running(run.step(Event::MotorSet));
    let near = EchoReading { rising_edge: true, falling_edge: true, elapsed_us: 2131 };
    let run = running(run.step(Event::Echo(near)));
    assert_eq!(run.action(), Action::Motor(MotorCommand::Stop));
    let (desk, outcome) = over(run.step(Event::MotorSet));
    assert_eq!(outcome, Ok(()));
    assert_eq!(*desk.sensor().calibration_data(), calibrated());
    assert_eq!(desk.motor_lines(), AT_REST);
}

#[test]
fn calibration_fails_where_the_record_is_not_written() {
    let (desk, outcome) = over(calibrated_to_storing().step(Event::Persisted(false)));
    assert_eq!(outcome, Err(DeskError::Persistence));
    assert_eq!(desk.motor_lines(), AT_REST);
}

#[test]
fn calibration_fails_on_a_sitting_height_beyond_the_limits() {
    let mut odd = config();
    odd.table.sitting_height = Centimeter(30);
    let desk = StandingDesk::new(odd, anchors()).unwrap();
    let mut step = desk.calibrate();
    for event in [
        Event::MotorSet,
        clock(5_000),
        Event::MotorSet,
        at(130),
        Event::MotorSet,
        clock(5_000),
        Event::MotorSet,
        at(40),
        Event::Persisted(true),
    ] {
        step = running(step).step(event);
    }
    let (desk, outcome) = over(step);
    assert_eq!(outcome, Err(DeskError::OutOfBounds(Bound::Below(Centimeter(40)))));
    assert_eq!(desk.motor_lines(), AT_REST);
}

#[test]
fn calibration_without_an_echo_keeps_the_old_anchors() {
    let run = running(desk().calibrate());
    let run = running(run.step(Event::MotorSet));
    let run = running(run.step(clock(5_000)));
    let run = running(run.step(Event::MotorSet));
    let (desk, outcome) = over(run.step(silence()));
    assert_eq!(outcome, Err(DeskError::Measurement));
    assert_eq!(*desk.sensor().calibration_data(), anchors());
    assert_eq!(desk.motor_lines(), AT_REST);
}

#[test]
fn calibration_without_a_lower_echo_keeps_the_upper_anchor_only() {
    let events = vec![
        Event::MotorSet,
        clock(5_000),
        Event::MotorSet,
        Event::Echo(EchoReading { rising_edge: true, falling_edge: true, elapsed_us: 4400 }),
        Event::MotorSet,
        clock(5_000),
        Event::MotorSet,
        silence(),
    ];
    let (desk, outcome) = over(running(desk().calibrate()).replay(&events));
    assert_eq!(outcome, Err(DeskError::Measurement));
    let expected = SensorCalibrationData {
        max_height: Centimeter(150),
        max_height_echo_us: 4400,
        ..anchors()
    };
    assert_eq!(*desk.sensor().calibration_data(), expected);
    assert_eq!(desk.motor_lines(), AT_REST);
}

#[test]
fn stray_event_changes_nothing() {
    let run = running(desk().move_to_height(Centimeter(118)));
    let run = running(run.step(Event::MotorSet));
    assert_eq!(run.phase(), Phase::Locating { target: Centimeter(118) });
    let run = running(run.step(Event::Waited));
    let run = running(run.step(clock(9_000)));
    let run = running(run.step(Event::Persisted(true)));
    assert_eq!(run.phase(), Phase::Locating { target: Centimeter(118) });
    assert_eq!(run.action(), Action::Measure);
    let run = running(run.step(at(72)));
    let run = running(run.step(at(72)));
    assert_eq!(run.action(), Action::Motor(MotorCommand::Up));
    assert_eq!(run.motor_lines(), AT_REST);
}

#[test]
fn replay_gives_what_the_steps_give() {
    let events =
        vec![at(72), Event::MotorSet, at(90), clock(50), Event::Waited, at(118), Event::MotorSet];
    let (desk, outcome) = over(running(desk().move_to_height(Centimeter(118))).replay(&events));
    assert_eq!(outcome, Ok(()));
    assert_eq!(desk.motor_lines(), AT_REST);
    let run = running(running(desk.move_to_standing()).replay(&events[..4].to_vec()));
    assert_eq!(run.phase(), Phase::Pausing {
        direction: MoveDirection::Up,
        goal: Goal::Height(Centimeter(118)),
    });
    assert_eq!(run.motor_lines(), GOING_UP);
}

#[test]
fn replay_passes_over_events_after_the_end() {
    let events = vec![at(85), Event::MotorSet, clock(1)];
    let (desk, outcome) = over(running(desk().move_to_height(Centimeter(85))).replay(&events));
    assert_eq!(outcome, Ok(()));
    assert_eq!(desk.motor_lines(), AT_REST);
    let run = running(running(desk.move_to_height(Centimeter(85))).replay(&Vec::new()));
    assert_eq!(run.phase(), Phase::Locating { target: Centimeter(85) });
}

#[test]
fn sitting_and_standing_go_to_the_configured_heights() {
    let run = running(desk().move_to_sitting());
    assert_eq!(run.phase(), Phase::Locating { target: Centimeter(72) });
    let run = running(desk().move_to_standing());
    assert_eq!(run.phase(), Phase::Locating { target: Centimeter(118) });
}

#[test]
fn tolerance_is_one_centimetre() {
    assert!(is_within_tolerance(Centimeter(84), Centimeter(85)));
    assert!(is_within_tolerance(Centimeter(85), Centimeter(85)));
    assert!(is_within_tolerance(Centimeter(86), Centimeter(85)));
    assert!(!is_within_tolerance(Centimeter(83), Centimeter(85)));
    assert!(!is_within_tolerance(Centimeter(87), Centimeter(85)));
    assert!(is_within_tolerance(Centimeter(0), Centimeter(0)));
    assert!(is_within_tolerance(Centimeter(1), Centimeter(0)));
    assert!(!is_within_tolerance(Centimeter(2), Centimeter(0)));
    assert!(is_within_tolerance(Centimeter(254), Centimeter(255)));
    assert!(is_within_tolerance(Centimeter(255), Centimeter(255)));
    assert!(!is_within_tolerance(Centimeter(253), Centimeter(255)));
}

#[test]
fn desk_has_way_to_go_until_it_reaches_the_target() {
    let target = Centimeter(100);
    assert!(is_short_of_target(MoveDirection::Up, target, Ok(Centimeter(99))));
    assert!(!is_short_of_target(MoveDirection::Up, target, Ok(Centimeter(100))));
    assert!(!is_short_of_target(MoveDirection::Up, target, Ok(Centimeter(101))));
    assert!(is_short_of_target(MoveDirection::Down, target, Ok(Centimeter(101))));
    assert!(!is_short_of_target(MoveDirection::Down, target, Ok(Centimeter(100))));
    assert!(!is_short_of_target(MoveDirection::Down, target, Ok(Centimeter(99))));
    assert!(!is_short_of_target(MoveDirection::Up, target, Err(DeskError::Measurement)));
    assert!(!is_short_of_target(MoveDirection::Down, target, Err(DeskError::Measurement)));
}

#[test]
fn operations_leave_the_configuration_alone() {
    let events =
        vec![at(72), Event::MotorSet, at(90), clock(50), Event::Waited, at(118), Event::MotorSet];
    let (desk, outcome) = over(running(desk().move_to_height(Centimeter(118))).replay(&events));
    assert_eq!(outcome, Ok(()));
    assert_eq!(*desk.config(), config().table);
    assert_eq!(*desk.sensor().calibration_data(), anchors());
    assert_eq!(desk.sensor().calibration_file().as_str(), "calibration.toml");
}

#[test]
fn motor_is_written_as_the_run_has_it() {
    let run = running(desk().move_to_height(Centimeter(118)));
    let run = running(run.step(at(72)));
    let mut lines = run.motor_lines();
    match run.action() {
        Action::Motor(command) => {
            for write in command.line_writes() {
                match write.line {
                    standing_desk::motor::MotorLine::Up => lines.up = write.high,
                    standing_desk::motor::MotorLine::Down => lines.down = write.high,
                }
                assert!(!(lines.up && lines.down));
            }
        },
        other => panic!("no motor command: {:?}", other),
    }
    let run = running(run.step(Event::MotorSet));
    assert_eq!(run.motor_lines(), lines);
}
