//! The items that most users of the driver need.
pub use crate::color::EpdColor;
pub use crate::graphics::{DisplayRotation, VarDisplay};
pub use crate::traits::Error;
