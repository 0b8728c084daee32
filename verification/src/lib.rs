//! Closed-loop control of a motorised, height-adjustable desk.
//!
//! The desk has one linear motor and one ultrasonic time-of-flight sensor.
//! This library holds the decisions of the control loop as plain functions
//! on plain values: the caller owns the hardware, performs what the library
//! asks for and reports back what it observed.

pub mod config;
pub mod error;
pub mod motor;
pub mod movement;
pub mod primitives;
pub mod sensor;
pub mod table;
