//! Status LED states and their blink timing.
use vstd::prelude::*;

verus! {

/// What the status LED is asked to show.
#[derive(Clone, Copy, PartialEq, Eq, Structural, Debug)]
pub enum LedState {
    Off,
    On,
    BlinkSlow,
    BlinkFast,
}

impl Default for LedState {
    fn default() -> (r: Self)
        ensures
            r == LedState::Off,
    {
        LedState::Off
    }
}

/// The steady level the LED pin is driven to, or `None` for a blinking state.
pub fn steady_level(s: LedState) -> (r: Option<bool>)
    ensures
        r == (match s {
            LedState::On => Some(true),
            LedState::Off => Some(false),
            _ => None::<bool>,
        }),
{
    match s {
        LedState::On => Some(true),
        LedState::Off => Some(false),
        LedState::BlinkSlow => None,
        LedState::BlinkFast => None,
    }
}

/// Milliseconds the LED stays on (and then off) in a blinking state,
/// or `None` for the steady states.
pub fn blink_half_period_ms(s: LedState) -> (r: Option<u64>)
    ensures
        r == (match s {
            LedState::BlinkSlow => Some(500u64),
            LedState::BlinkFast => Some(100u64),
            _ => None::<u64>,
        }),
{
    match s {
        LedState::BlinkSlow => Some(500),
        LedState::BlinkFast => Some(100),
        LedState::On => None,
        LedState::Off => None,
    }
}

} // verus!
