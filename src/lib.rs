//! A driver for serial-attached Waveshare e-paper panels.
//!
//! The library holds the protocol logic: the command-frame codec, the command
//! catalog, the pixel-buffer coordinate mapping, the timing of the control
//! lines and the decisions of the frame update engine. Moving bytes over the
//! serial line and toggling pins is left to the caller, which carries out the
//! steps that the library hands out.
pub mod color;
pub mod epd4in3;
pub mod graphics;
pub mod interface;
pub mod prelude;
pub mod traits;

pub use crate::epd4in3::command;
