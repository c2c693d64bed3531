//! What every agent has in common: its attributes and how they are read.

pub mod basic_agent;
pub mod basic_traits;
