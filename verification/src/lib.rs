//! pydev-core: the decisions of a cross-platform installer that sets up a
//! Python development environment (uv, Python, VSCode and its extensions,
//! and the PATH), with their contracts.
//!
//! Everything here computes from plain values: what to download and run,
//! which PATH edits to make, how to read the output of the tools, and in
//! which order the one-click flow runs its steps. The program around it
//! performs the downloads, runs the commands and touches the files.

pub mod config;
pub mod download;
pub mod error;
pub mod installers;
pub mod json;
pub mod netcheck;
pub mod orchestrate;
pub mod pathenv;
pub mod platform;
pub mod progress;
pub mod runner;
pub mod status;
pub mod text;
pub mod version;
