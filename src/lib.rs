//! A client for the compositor's IPC protocol, reduced to what a window
//! picker needs: framing requests and checking responses, the tree of nodes
//! the compositor reports, and the walk along the focus path that finds the
//! windows sharing a tab bar with the focused one.

pub mod error;
pub mod model;
pub mod resolver;
pub mod session;
pub mod text;
pub mod wire;
