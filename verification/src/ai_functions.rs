//! The capabilities that agents ask of the model.

pub mod aifunc_architect;
