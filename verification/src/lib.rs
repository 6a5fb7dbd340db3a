//! # Frostfire
//!
//! A simulated annealing engine whose bookkeeping is verified.
//!
//! The engine proposes neighbouring candidates, applies the Metropolis
//! acceptance rule, tracks the best candidate seen and cools a temperature
//! according to a schedule. Costs and temperatures are binary64 numbers. This
//! library holds them by their bit patterns, as [`Scalar`] values, and decides
//! everything that rests on their order: which parameters a schedule accepts,
//! when a proposal is accepted without a random draw, when the best candidate
//! is replaced, and how the counters of a run evolve. Arithmetic on the numbers
//! themselves (the Boltzmann factor, the cooling formulas) is left to the
//! caller, who drives the [`Annealer`] through its phases.
pub mod engine;
pub mod rng;
pub mod utils;

pub use crate::engine::annealer::{Annealer, AnnealingResult, Event, OutOfPhase, Phase, RunState};
pub use crate::engine::scalar::Scalar;
pub use crate::engine::schedule::{AdaptiveSchedule, GeometricSchedule, LogarithmicSchedule};
pub use crate::rng::seeded_rng::seeded_rng;
