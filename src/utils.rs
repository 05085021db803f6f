//! Small helpers.
pub mod time;
