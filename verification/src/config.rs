//! The configuration of the desk, as already validated values.

use vstd::prelude::*;

use crate::primitives::Centimeter;

verus! {

/// The heights that bound and name the positions of the desk.
#[derive(Debug, Copy, Clone, PartialEq, Eq, Structural)]
pub struct TableConfig {
    /// The highest position the desk may be sent to.
    pub max_table_height: Centimeter,
    /// The lowest position the desk may be sent to.
    pub min_table_height: Centimeter,
    /// The position for sitting.
    pub sitting_height: Centimeter,
    /// The position for standing.
    pub standing_height: Centimeter,
}

/// The lines of the distance sensor and the place of its calibration.
#[derive(Debug)]
pub struct SensorConfig {
    /// The pin that triggers a measurement.
    pub trigger_pin: u8,
    /// The pin on which the echo arrives.
    pub echo_pin: u8,
    /// Where the calibration record is kept.
    pub calibration_file: String,
}

/// The lines of the motor and the limit of one run.
#[derive(Debug, Copy, Clone, PartialEq, Eq, Structural)]
pub struct MotorConfig {
    /// The pin that drives the desk upwards.
    pub up_pin: u8,
    /// The pin that drives the desk downwards.
    pub down_pin: u8,
    /// The longest time, in seconds, that the motor may run at a stretch.
    pub timeout_secs: u64,
}

/// The configuration of the whole desk.
#[derive(Debug)]
pub struct Config {
    pub table: TableConfig,
    pub sensor: SensorConfig,
    pub motor: MotorConfig,
}

} // verus!
