//! Native side of a Dart/Rust message bridge: the messages that cross the
//! boundary, how their raw wire form is decoded, how they are laid out for
//! Dart, and how each bridge entry point is dispatched.

pub mod api;
pub mod call;
pub mod dart;
pub mod wire;
