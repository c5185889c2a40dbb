//! The data that the finder layer passes around.

pub mod finder;
pub mod cheat;
pub mod fnv;
