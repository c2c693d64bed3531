//! The data the agents work on and the agents themselves.

pub mod agent_basic;
pub mod agents;
pub mod general;
