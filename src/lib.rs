//! Native shell bootstrap for the OhMyBox desktop application.
//!
//! The windowing framework does the work (windows, event loop, IPC); this
//! library holds the decisions around it: which window and notification the
//! setup hook subscribes to, how a native theme change is relayed to the web
//! content, and how the outcome of a run maps to the process exit.
pub mod bootstrap;
pub mod events;
pub mod setup;
