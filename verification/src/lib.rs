//! A minimal persistence component for a desktop tool: one state file,
//! located next to the running executable, written and read wholesale.
//!
//! The crate has three parts: a location resolver that derives the state
//! path from the executable's own path, a state store modelling the single
//! on-disk file with whole-file save and load, and the command layer that
//! turns observed filesystem outcomes into the results owed to the caller.

pub mod commands;
pub mod errors;
pub mod paths;
pub mod store;
