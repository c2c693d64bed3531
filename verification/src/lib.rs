//! An automated solution architect: the orchestration engine that turns a
//! free-text project description into a structured engineering brief through a
//! language-model gateway, with every decision of the run stated and proved.
//!
//! The engine performs no input or output. It says what has to be asked of the
//! outside world next and is told what came back.

pub mod ai_functions;
pub mod apis;
pub mod helpers;
pub mod models;
