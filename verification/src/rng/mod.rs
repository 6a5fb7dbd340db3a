//! Deterministic random sources for reproducible runs.
pub mod seeded_rng;
