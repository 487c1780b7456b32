//! The timing of the panel's two control lines.
//!
//! Both lines are pulsed: the caller walks through a sequence of steps, setting
//! the line low or high and waiting the given milliseconds.
use vstd::prelude::*;

verus! {

/// One step of a pulse on a control line.
#[derive(Clone, Copy, Debug, PartialEq, Eq, Structural)]
pub enum PinStep {
    SetLow,
    SetHigh,
    DelayMs(u16),
}

/// The steps on the reset line that reset the panel.
pub open spec fn reset_steps() -> Seq<PinStep> {
    seq![
        PinStep::SetLow,
        PinStep::DelayMs(255),
        PinStep::SetHigh,
        PinStep::DelayMs(3000),
        PinStep::SetLow,
        PinStep::DelayMs(255),
    ]
}

/// The steps on the wake line that wake the panel from sleep.
pub open spec fn wake_steps() -> Seq<PinStep> {
    seq![
        PinStep::SetLow,
        PinStep::DelayMs(255),
        PinStep::SetHigh,
        PinStep::DelayMs(255),
        PinStep::SetLow,
        PinStep::DelayMs(255),
    ]
}

/// The pulse on the reset line that resets the panel.
pub fn reset_sequence() -> (r: Vec<PinStep>)
    ensures
        r@ == reset_steps(),
{
    let r = vec![
        PinStep::SetLow,
        PinStep::DelayMs(255),
        PinStep::SetHigh,
        PinStep::DelayMs(3000),
        PinStep::SetLow,
        PinStep::DelayMs(255),
    ];
    assert(r@ =~= reset_steps());
    r
}

/// The pulse on the wake line that wakes the panel.
pub fn wake_sequence() -> (r: Vec<PinStep>)
    ensures
        r@ == wake_steps(),
{
    let r = vec![
        PinStep::SetLow,
        PinStep::DelayMs(255),
        PinStep::SetHigh,
        PinStep::DelayMs(255),
        PinStep::SetLow,
        PinStep::DelayMs(255),
    ];
    assert(r@ =~= wake_steps());
    r
}

} // verus!
