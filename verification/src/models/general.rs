//! Types shared by every layer of the engine.

pub mod llm;
