//! The items most programs need, in one import.
pub use crate::combinator::{Combine, Sleep};
pub use crate::common_inputs::{Char, Key, MouseButton, MousePosition, MouseScroll};
pub use crate::simulatable::Simulatable;
