//! A structured diff between two branches of a repository, and an ordered
//! queue of review comments that an agent pulls one at a time.

pub mod classify;
pub mod commands;
pub mod error;
pub mod git;
pub mod mcp;
pub mod state;
pub mod types;
