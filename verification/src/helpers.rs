//! What the agents share: operator notices and the task request protocol.

pub mod command_line;
pub mod general;
