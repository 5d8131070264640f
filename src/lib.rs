//! Health-probe relay: checks replicas and scripts, classifies their health and
//! builds the reports sent to a monitoring endpoint.
//!
//! The library decides; the caller performs the network, process and clock work
//! that each decision asks for, and feeds the outcome back as an event.

pub mod config;
pub mod probe;
pub mod utilities;
