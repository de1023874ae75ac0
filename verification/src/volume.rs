//! Volume levels and the amounts by which a fade moves them.

use vstd::prelude::*;

verus! {

/// A volume level: the raw scalar of the sound server, ordered as an integer.
pub type Volume = u32;

/// Silence.
pub const MUTED: Volume = 0;

/// Unattenuated playback; an amount of this size is 100 percent.
pub const NORMAL: Volume = 0x10000;

/// The level restored by an unmute when no earlier level is on record:
/// a quarter of `NORMAL`.
pub const DEFAULT_VOLUME: Volume = 0x4000;

/// Steps of one increase.
pub const INC_STEPS: u8 = 10;

/// Steps of one decrease.
pub const DEC_STEPS: u8 = 10;

/// The amount one round of a fade-in raises the level by: 9 percent.
pub const FADE_IN_INCREMENT: u32 = NORMAL * 9 / 100;

/// The amount one round of a fade-out lowers the level by: 20 percent.
pub const FADE_OUT_DECREMENT: u32 = NORMAL * 20 / 100;

/// Milliseconds a driver waits after each step.
pub const WAIT_BETWEEN_STEPS_MS: u64 = 26;

/// The share of `total` that each of `steps` equal steps moves the level by.
/// With no steps there is nothing to share out.
pub open spec fn spec_step_amount(total: u32, steps: u8) -> u32 {
    if steps == 0 {
        0
    } else {
        total / (steps as u32)
    }
}

/// Divides a total amount evenly over a number of steps.
#[verifier::when_used_as_spec(spec_step_amount)]
pub fn step_amount(total: u32, steps: u8) -> (delta: u32)
    ensures
        delta == spec_step_amount(total, steps),
        steps > 0 ==> delta * steps <= total < delta * steps + steps,
{
    if steps == 0 {
        0
    } else {
        let delta: u32 = total / (steps as u32);
        proof {
            vstd::arithmetic::div_mod::lemma_fundamental_div_mod(total as int, steps as int);
            vstd::arithmetic::div_mod::lemma_mod_bound(total as int, steps as int);
            vstd::arithmetic::mul::lemma_mul_is_commutative(delta as int, steps as int);
        }
        delta
    }
}

/// A level raised by an amount, held at the top of the scale.
pub open spec fn raised(level: Volume, amount: u32) -> Volume {
    if level + amount > u32::MAX {
        u32::MAX
    } else {
        (level + amount) as u32
    }
}

/// A level lowered by an amount, held at silence.
pub open spec fn lowered(level: Volume, amount: u32) -> Volume {
    if level <= amount {
        MUTED
    } else {
        (level - amount) as u32
    }
}

} // verus!
