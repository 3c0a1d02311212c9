//! Drives a single hobby servo over a PWM output: a linear angle-to-duty
//! mapper, and a motion controller that sweeps the servo one degree at a
//! time toward the most recently commanded angle.

pub mod channel;
pub mod controller;
pub mod duty;
