//! The errors of talking to the panel.
use vstd::prelude::*;

verus! {

/// What can go wrong on the serial line or the control lines.
#[derive(Debug)]
pub enum Error<E, F, G> {
    /// Serial read bus error
    SerialR(E),
    /// Serial write error
    SerialW(F),
    /// GPIO Error
    GpioE(G),
    /// Timeout
    Timeout,
}

} // verus!
