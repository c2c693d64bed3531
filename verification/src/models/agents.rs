//! The agents by role, and what they share with their driver.

pub mod agent_architect;
pub mod agent_traits;
pub mod architect_run;
