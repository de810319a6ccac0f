//! Provisioning of a personal workstation, described as data.
//!
//! The library decides everything that can be decided without touching the
//! machine: which programs are run, with which arguments, in which working
//! directory and with which piped input, and in which order. The program that
//! drives it only spawns the processes and reports back what happened.

pub mod text;
pub mod step;
pub mod plan;
pub mod config;
pub mod dispatch;
pub mod session;
pub mod laws;
