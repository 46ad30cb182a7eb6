//! The fan duty that a sustained power limit demands.

use vstd::prelude::*;

verus! {

/// The lowest duty while the sustained limit is above the safe one.
pub const HIGH_TDP_MIN_PWM: i32 = 204;

/// The highest sustained limit, in watts, that needs no minimum duty.
pub const TDP_MAX_SAFE: u32 = 75;

/// The lowest duty that a sustained limit allows.
pub fn floor_pwm(pl1: u32) -> (result: i32)
    ensures
        result == (if pl1 > TDP_MAX_SAFE {
            HIGH_TDP_MIN_PWM
        } else {
            0
        }),
{
    if pl1 > TDP_MAX_SAFE {
        HIGH_TDP_MIN_PWM
    } else {
        0
    }
}

} // verus!
