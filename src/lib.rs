//! Tells a host editor how to start the `inkscape-mcp` context server.
//!
//! The whole decision is one lookup from a server id to a launch
//! specification (`uv run inkscape-mcp`), or an error naming the unknown id.

pub mod launch;
pub mod resolver;
