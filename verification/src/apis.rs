//! The boundary to the model gateway.

pub mod call_request;
