//! Input snapshots of the PlayStation Vita's controller and touch panels.
//!
//! The library holds what the hardware reports as plain values and computes
//! every query on them: button masks, stick and touch normalisation, touch
//! point access. Normalised values are exact fractions ([`Ratio`]); turning
//! them into floating point, and talking to the system, is left to the caller.

pub mod controller;
pub mod ratio;
pub mod text;
pub mod touch;

pub use crate::controller::{Button, ControllerInput, Joystick};
pub use crate::ratio::Ratio;
pub use crate::touch::{TouchInput, TouchPoint};

