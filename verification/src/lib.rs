//! Fixed-point dynamics of a top-down car: held controls, the per-frame
//! speed and heading update, the pose it produces, and the road tile that
//! follows the car.
//!
//! Every quantity is an integer. Tuning constants are given in thousandths
//! of a unit, frame times in microseconds, and the state that is integrated
//! (speed, heading, position) in billionths, so that a constant multiplied
//! by a frame time is an exact amount of state. Frame times are unsigned: a
//! negative or non-finite one cannot be handed in.
//!
//! The library does no trigonometry. Whoever moves a pose supplies the sine
//! and cosine of the car's heading.

pub mod car;
pub mod laws;
pub mod pose;
pub mod road;
pub mod units;
