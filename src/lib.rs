//! Decision logic of a CPU sector plotter: the per-sector job protocol, the
//! ordering of its progress notifications, and the pool of table generators that
//! jobs borrow while encoding.
pub mod errors;
pub mod generators;
pub mod job;
pub mod progress;
