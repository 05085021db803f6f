//! Compositional descriptions of synthetic input, played against pluggable simulators.
//!
//! Atomic events (`SetTo`, `ChangeBy`) are realised by a simulator through `Simulate`.
//! Combinators build larger events out of smaller ones; every event, atomic or not,
//! is played through `Simulatable::run_with`, whose contract gives the simulator's
//! state afterwards as a spec function of the state before.
pub mod simulator;
pub mod simulatable;
pub mod input_event;
pub mod combinator;
pub mod timing;
pub mod utils;
pub mod common_inputs;
pub mod simulatable_pack;
pub mod simulators;
pub mod laws;
pub mod prelude;

pub use vstd::view::View;
