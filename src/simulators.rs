//! Simulators provided by this crate.
pub mod event_log;
