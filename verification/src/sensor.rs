//! The ultrasonic height sensor: what counts as an echo, and how an echo
//! becomes a height.
//!
//! The sensor answers a trigger pulse with a pulse of its own whose length
//! is the time of flight of the sound. Two calibration anchors, each a
//! height with the echo measured there, fix a straight line; a height is
//! read off that line.

use vstd::prelude::*;
use vstd::arithmetic::div_mod::lemma_div_is_ordered;
use vstd::arithmetic::div_mod::lemma_fundamental_div_mod;
use vstd::arithmetic::div_mod::lemma_fundamental_div_mod_converse;

use crate::config::SensorConfig;
use crate::error::DeskError;
use crate::primitives::nearest_height;
use crate::primitives::Centimeter;

verus! {

/// How long the trigger line is held high, in microseconds. The device asks
/// for ten at least.
pub const TRIGGER_PULSE_US: u64 = 500;

/// How long to wait for the start of the echo, in milliseconds.
pub const ECHO_START_TIMEOUT_MS: u64 = 10;

/// How long to wait for the end of the echo, in milliseconds.
pub const ECHO_END_TIMEOUT_MS: u64 = 250;

/// The echo length, in microseconds, from which on the device reports that
/// it heard nothing.
pub const ECHO_LIMIT_US: u64 = 200_000;

/// What was seen on the echo line after one trigger pulse.
#[derive(Debug, Copy, Clone, PartialEq, Eq, Structural)]
pub struct EchoReading {
    /// Whether the echo started within its listen window.
    pub rising_edge: bool,
    /// Whether the echo ended within its listen window.
    pub falling_edge: bool,
    /// Microseconds between the start of the echo and the end of the wait
    /// for its end.
    pub elapsed_us: u64,
}

impl EchoReading {
    /// Whether the reading is an echo: both edges were seen, and the echo is
    /// shorter than the device's limit.
    pub open spec fn is_echo(self) -> bool {
        self.rising_edge && self.falling_edge && self.elapsed_us < ECHO_LIMIT_US
    }
}

/// The two anchors of the sensor's calibration.
#[derive(Debug, Copy, Clone, PartialEq, Eq, Structural)]
pub struct SensorCalibrationData {
    /// The lowest height that can be observed.
    pub min_height: Centimeter,
    /// The echo at the lowest height, in microseconds.
    pub min_height_echo_us: u64,
    /// The highest height that can be observed.
    pub max_height: Centimeter,
    /// The echo at the highest height, in microseconds.
    pub max_height_echo_us: u64,
}

impl SensorCalibrationData {
    /// Whether the anchors fix a rising line: the upper anchor is higher
    /// and has the longer echo.
    pub open spec fn is_usable(self) -> bool {
        self.min_height@ < self.max_height@ && self.min_height_echo_us < self.max_height_echo_us
    }

    /// The point of the line through the two anchors at `echo_us`, rounded
    /// to the nearest whole centimetre (a half rounds up). The line is
    /// followed beyond the anchors too.
    pub open spec fn line_at(self, echo_us: int) -> int
        recommends
            self.min_height_echo_us < self.max_height_echo_us,
    {
        let span = self.max_height_echo_us - self.min_height_echo_us;
        let rise = self.max_height@ - self.min_height@;
        self.min_height@ + (2 * ((echo_us - self.min_height_echo_us) * rise) + span) / (2 * span)
    }

    /// The height that an echo of `echo_us` microseconds stands for: the
    /// point of the line, held to the range of the unit.
    pub open spec fn height_at(self, echo_us: int) -> int
        recommends
            self.min_height_echo_us < self.max_height_echo_us,
    {
        nearest_height(self.line_at(echo_us))
    }

    /// A longer echo never stands for a lower height, as long as the upper
    /// anchor has the longer echo and is not the lower of the two.
    pub proof fn lemma_height_is_monotonic(self, shorter_us: int, longer_us: int)
        requires
            self.min_height_echo_us < self.max_height_echo_us,
            self.min_height@ <= self.max_height@,
            shorter_us <= longer_us,
        ensures
            self.line_at(shorter_us) <= self.line_at(longer_us),
            self.height_at(shorter_us) <= self.height_at(longer_us),
    {
        let span = self.max_height_echo_us - self.min_height_echo_us;
        let rise = self.max_height@ - self.min_height@;
        let low = shorter_us - self.min_height_echo_us;
        let high = longer_us - self.min_height_echo_us;
        assert(low * rise <= high * rise) by (nonlinear_arith)
            requires
                low <= high,
                rise >= 0,
        ;
        lemma_div_is_ordered(2 * (low * rise) + span, 2 * (high * rise) + span, 2 * span);
    }

    /// The rounded point lies within half a centimetre of the line itself.
    /// With `span` the difference of the two anchor echoes, the line passes
    /// through `exact / span` centimetres at `echo_us`.
    pub proof fn lemma_line_is_nearest(self, echo_us: int)
        requires
            self.is_usable(),
        ensures
            ({
                let span = self.max_height_echo_us - self.min_height_echo_us;
                let rise = self.max_height@ - self.min_height@;
                let exact = self.min_height@ * span + (echo_us - self.min_height_echo_us) * rise;
                2 * span * self.line_at(echo_us) - span <= 2 * exact < 2 * span * self.line_at(
                    echo_us,
                ) + span
            }),
    {
        let span = self.max_height_echo_us - self.min_height_echo_us;
        let rise = self.max_height@ - self.min_height@;
        let run = (echo_us - self.min_height_echo_us) * rise;
        let gain = (2 * run + span) / (2 * span);
        lemma_fundamental_div_mod(2 * run + span, 2 * span);
        assert(2 * span * (self.min_height@ + gain) == 2 * (self.min_height@ * span) + (2 * span)
            * gain) by (nonlinear_arith);
    }

    /// At the echo of an anchor the line gives the height of that anchor.
    pub proof fn lemma_anchors_are_fixed(self)
        requires
            self.is_usable(),
        ensures
            self.height_at(self.min_height_echo_us as int) == self.min_height@,
            self.height_at(self.max_height_echo_us as int) == self.max_height@,
    {
        let span = self.max_height_echo_us - self.min_height_echo_us;
        let rise = self.max_height@ - self.min_height@;
        assert(0 * rise == 0);
        lemma_fundamental_div_mod_converse(span, 2 * span, 0, span);
        assert(2 * (span * rise) + span == rise * (2 * span) + span) by (nonlinear_arith);
        lemma_fundamental_div_mod_converse(2 * (span * rise) + span, 2 * span, rise, span);
    }

    /// The height that a reading stands for, and the failure where it stands
    /// for none: the reading is no echo, or the anchors fix no rising line.
    pub open spec fn reading_height(self, reading: EchoReading) -> Result<Centimeter, DeskError> {
        if reading.is_echo() && self.is_usable() {
            Ok(Centimeter(self.height_at(reading.elapsed_us as int) as u8))
        } else {
            Err(DeskError::Measurement)
        }
    }

    /// The record with its lower anchor replaced.
    pub open spec fn with_min(self, height: Centimeter, echo_us: u64) -> SensorCalibrationData {
        SensorCalibrationData { min_height: height, min_height_echo_us: echo_us, ..self }
    }

    /// The record with its upper anchor replaced.
    pub open spec fn with_max(self, height: Centimeter, echo_us: u64) -> SensorCalibrationData {
        SensorCalibrationData { max_height: height, max_height_echo_us: echo_us, ..self }
    }

    /// The record after an attempt to set an anchor from a reading taken at
    /// `height`: the anchor is replaced where the reading is an echo, and
    /// the record is left as it was where it is none.
    pub open spec fn anchored(
        self,
        upper: bool,
        height: Centimeter,
        reading: EchoReading,
    ) -> SensorCalibrationData {
        if !reading.is_echo() {
            self
        } else if upper {
            self.with_max(height, reading.elapsed_us)
        } else {
            self.with_min(height, reading.elapsed_us)
        }
    }

    /// Turns an echo length into a height.
    ///
    /// Fails exactly where the anchors fix no rising line; the division by
    /// an empty span is never attempted.
    pub fn interpolate(&self, echo_us: u64) -> (height: Result<Centimeter, DeskError>)
        ensures
            self.is_usable() ==> height == Ok::<Centimeter, DeskError>(
                Centimeter(self.height_at(echo_us as int) as u8),
            ),
            !self.is_usable() ==> height == Err::<Centimeter, DeskError>(DeskError::Measurement),
    {
        if self.min_height.0 >= self.max_height.0 || self.min_height_echo_us
            >= self.max_height_echo_us {
            return Err(DeskError::Measurement);
        }
        let span: u128 = (self.max_height_echo_us - self.min_height_echo_us) as u128;
        let rise: u128 = (self.max_height.0 - self.min_height.0) as u128;
        let base: u128 = self.min_height.0 as u128;
        if echo_us >= self.min_height_echo_us {
            let run: u128 = (echo_us - self.min_height_echo_us) as u128;
            assert(run * rise <= 0xffff_ffff_ffff_ffff * 255) by (nonlinear_arith)
                requires
                    run <= 0xffff_ffff_ffff_ffff,
                    rise <= 255,
            ;
            let gain: u128 = (2 * (run * rise) + span) / (2 * span);
            if gain > 255 - base {
                Ok(Centimeter(255))
            } else {
                Ok(Centimeter((base + gain) as u8))
            }
        } else {
            let back: u128 = (self.min_height_echo_us - echo_us) as u128;
            assert(back * rise <= 0xffff_ffff_ffff_ffff * 255) by (nonlinear_arith)
                requires
                    back <= 0xffff_ffff_ffff_ffff,
                    rise <= 255,
            ;
            // Below the lower anchor the line falls by `back * rise / span`.
            let twice: u128 = 2 * (back * rise);
            assert((echo_us - self.min_height_echo_us) * rise == -(back * rise))
                by (nonlinear_arith)
                requires
                    echo_us - self.min_height_echo_us == -back,
            ;
            if twice <= span {
                // Less than half a centimetre down, or just a half: rounds
                // to the lower anchor itself.
                proof {
                    lemma_fundamental_div_mod_converse(span - twice, 2 * span, 0, span - twice);
                }
                Ok(Centimeter(base as u8))
            } else {
                // The fall beyond the first half centimetre, in whole
                // centimetres and rounded up, so that a half rounds towards
                // the greater height.
                let loss: u128 = (twice - span + (2 * span - 1)) / (2 * span);
                proof {
                    let over = twice - span;
                    let width = 2 * span;
                    let rest = (over + (width - 1)) % width;
                    assert(over + (width - 1) == width * loss + rest && 0 <= rest < width) by {
                        lemma_fundamental_div_mod(over + (width - 1), width);
                    }
                    assert(-over == (-loss) * width + (width - 1 - rest)) by (nonlinear_arith)
                        requires
                            over + (width - 1) == width * loss + rest,
                    ;
                    lemma_fundamental_div_mod_converse(-over, width, -loss, width - 1 - rest);
                }
                if loss >= base {
                    Ok(Centimeter(0))
                } else {
                    Ok(Centimeter((base - loss) as u8))
                }
            }
        }
    }
}

/// Judges what was seen on the echo line.
///
/// Gives the length of the echo in microseconds where the reading is an
/// echo, and fails on every other reading: a reading that is no echo never
/// becomes a height.
pub fn measure_full_echo_duration(reading: EchoReading) -> (echo: Result<u64, DeskError>)
    ensures
        reading.is_echo() ==> echo == Ok::<u64, DeskError>(reading.elapsed_us),
        !reading.is_echo() ==> echo == Err::<u64, DeskError>(DeskError::Measurement),
{
    if reading.rising_edge && reading.falling_edge && reading.elapsed_us < ECHO_LIMIT_US {
        Ok(reading.elapsed_us)
    } else {
        Err(DeskError::Measurement)
    }
}

/// The HC-SR04 sensor: its calibration and the place where that is kept.
#[derive(Debug)]
pub struct HCSR04 {
    calibration_file_path: String,
    calibration_data: SensorCalibrationData,
}

impl HCSR04 {
    /// The calibration in use.
    pub closed spec fn calibration(self) -> SensorCalibrationData {
        self.calibration_data
    }

    /// The place where the calibration is kept.
    pub closed spec fn storage(self) -> Seq<char> {
        self.calibration_file_path@
    }

    /// A sensor with the calibration that was loaded from the configured
    /// place.
    pub fn new(config: SensorConfig, calibration_data: SensorCalibrationData) -> (sensor: HCSR04)
        ensures
            sensor.calibration() == calibration_data,
            sensor.storage() == config.calibration_file@,
    {
        HCSR04 { calibration_file_path: config.calibration_file, calibration_data }
    }

    /// The height that a reading stands for.
    ///
    /// Fails where the reading is no echo, and where the calibration fixes
    /// no rising line.
    pub fn current_height(&self, reading: EchoReading) -> (height: Result<Centimeter, DeskError>)
        ensures
            height == self.calibration().reading_height(reading),
    {
        match measure_full_echo_duration(reading) {
            Ok(echo_us) => self.calibration_data.interpolate(echo_us),
            Err(error) => Err(error),
        }
    }

    /// Makes the reading, taken at the lowest position, the lower anchor
    /// with the given height.
    ///
    /// Fails, and leaves the calibration as it was, where the reading is no
    /// echo.
    pub fn set_min_height(&mut self, height: Centimeter, reading: EchoReading) -> (done: Result<
        (),
        DeskError,
    >)
        ensures
            reading.is_echo() ==> done == Ok::<(), DeskError>(()),
            !reading.is_echo() ==> done == Err::<(), DeskError>(DeskError::Measurement),
            final(self).calibration() == old(self).calibration().anchored(false, height, reading),
            final(self).storage() == old(self).storage(),
    {
        match measure_full_echo_duration(reading) {
            Ok(echo_us) => {
                self.calibration_data.min_height_echo_us = echo_us;
                self.calibration_data.min_height = height;
                Ok(())
            },
            Err(error) => Err(error),
        }
    }

    /// Makes the reading, taken at the highest position, the upper anchor
    /// with the given height.
    ///
    /// Fails, and leaves the calibration as it was, where the reading is no
    /// echo.
    pub fn set_max_height(&mut self, height: Centimeter, reading: EchoReading) -> (done: Result<
        (),
        DeskError,
    >)
        ensures
            reading.is_echo() ==> done == Ok::<(), DeskError>(()),
            !reading.is_echo() ==> done == Err::<(), DeskError>(DeskError::Measurement),
            final(self).calibration() == old(self).calibration().anchored(true, height, reading),
            final(self).storage() == old(self).storage(),
    {
        match measure_full_echo_duration(reading) {
            Ok(echo_us) => {
                self.calibration_data.max_height_echo_us = echo_us;
                self.calibration_data.max_height = height;
                Ok(())
            },
            Err(error) => Err(error),
        }
    }

    /// The place where the calibration is kept.
    pub fn calibration_file(&self) -> (path: &String)
        ensures
            path@ == self.storage(),
    {
        &self.calibration_file_path
    }

    /// The calibration in use.
    pub fn calibration_data(&self) -> (data: &SensorCalibrationData)
        ensures
            *data == self.calibration(),
    {
        &self.calibration_data
    }
}

} // verus!
