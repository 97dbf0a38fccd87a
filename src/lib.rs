//! Cooperative interruption of computations: a broadcast signal channel whose
//! receivers read through cursors of their own, and the race that lets a
//! pending signal cut a computation short with an interrupt error.

pub mod channel;
pub mod interrupt;
pub mod laws;
pub mod race;
