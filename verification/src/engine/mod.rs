//! The verified core: numbers, schedules and the engine.
pub mod annealer;
pub mod scalar;
pub mod schedule;
