//! Verified core of an MCP server for Obsidian vaults.
use vstd::prelude::*;

pub mod auth;
pub mod cli;
pub mod js;
pub mod json;
pub mod launch;
pub mod server;
pub mod text;
pub mod types;

verus! {
} // verus!
