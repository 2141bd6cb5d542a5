//! Supervision core for a bundled backend server process.
//!
//! The host application starts one backend executable, learns from its
//! standard output which port it listens on, keeps its standard error drained,
//! and stops it when the application closes. This crate holds every decision
//! of that lifecycle as verified code; the host performs the file, process and
//! pipe operations the decisions ask for and reports back what happened.

pub mod drain;
pub mod guarantees;
pub mod handshake;
pub mod launcher;
pub mod port;
pub mod supervisor;
