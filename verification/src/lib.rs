//! Protocol core of a driver for HC-SR04 class ultrasonic range finders.
//!
//! The sensor is armed by a short pulse on its trigger line and answers by
//! holding its echo line high for as long as the sound travelled. This crate
//! holds everything about that exchange that can be decided without touching
//! hardware: the quantities involved, the time budget, the sequence of line
//! operations, and the resolution of an echo into a distance.
//!
//! Times are whole nanoseconds, lengths whole picometres, speeds whole
//! millimetres per second.

pub mod error;
pub mod laws;
pub mod protocol;
pub mod resolver;
pub mod sensor;
pub mod timing;
pub mod units;

pub use crate::error::HcSr04Error;
pub use crate::protocol::{Action, Edge, Event, Level, Phase};
pub use crate::sensor::HcSr04;
pub use crate::timing::range_to_timeout;
pub use crate::units::{speed_of_sound, DistanceUnit, VelocityUnit};
