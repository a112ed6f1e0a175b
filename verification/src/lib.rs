//! Control logic of a single elevator car that serves a fixed range of floors.
//!
//! `model` holds the mathematical state machine, `controller` the executable
//! car whose every operation is proved to follow it, and `laws` the theorems
//! that hold of the state machine as a whole.

pub mod controller;
pub mod laws;
pub mod model;

pub use controller::{Elevator, ElevatorState};
pub use model::{ElevatorError, ElevatorModel, State, MAX_FLOOR, MIN_FLOOR};
