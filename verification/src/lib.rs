//! Decision logic of a command-line client that uploads a file to a
//! file-hosting service while showing live progress, and deletes earlier
//! uploads: argument parsing, the progress counter, the renderer's and the
//! controller's state machines and the layout of the final summary.
//!
//! Everything that touches the network, the terminal or the clock is left to
//! the program around this library, which feeds events in and carries the
//! returned actions out.

pub mod config;
pub mod controller;
pub mod delete;
pub mod error;
pub mod panel;
pub mod progress;
pub mod renderer;
pub mod report;
