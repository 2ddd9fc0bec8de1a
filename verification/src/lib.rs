//! A recurring-task scheduler: named jobs carry an execution interval and an
//! absolute expiration, and a registry polls them, executing the due ones and
//! evicting the expired ones.
//!
//! Instants and durations are plain `i64` counts of milliseconds (instants are
//! measured from the Unix epoch), so every time comparison the scheduler makes
//! is ordinary integer arithmetic with a proved contract.

pub mod job;
pub mod scheduler;
