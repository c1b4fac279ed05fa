//! A compile-time generator of scripting-runtime glue: given the members of
//! an annotated `impl` block and a configuration attribute, it classifies
//! each function (receiver shape, return shape, field role), partitions its
//! parameters into script-supplied and context-sourced ones, derives the
//! public-facing names, and assembles one registration entry per member for
//! the embedding runtime's two registration blocks. The surrounding
//! proc-macro shell parses the attribute's tokens into plain values, hands
//! them to [`bridge::mlua_bridge`], and renders the returned entries into
//! the generated trait implementation, appended after the untouched
//! original block.
pub mod assemble;
pub mod bridge;
pub mod classify;
pub mod config;
pub mod laws;
pub mod model;
pub mod partition;
pub mod rename;
pub mod render;
pub mod strutil;
