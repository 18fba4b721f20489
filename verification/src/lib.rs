//! A table view engine for a terminal dashboard of network sockets.
//!
//! The crate holds the parts of the dashboard that decide what is shown:
//! cell wrapping and row heights, the filter entry line, the filtered and
//! scrolled table of socket records, and the mode controller that routes
//! key presses. Drawing and reading the keyboard are left to the caller.

pub mod app;
pub mod filter;
pub mod geometry;
pub mod keys;
pub mod layout;
pub mod reader;
pub mod socket;
pub mod sockets;
pub mod text;
