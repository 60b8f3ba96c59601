use vstd::prelude::*;

verus! {

/// How hard the heading controller turns the vehicle towards its goal.
#[derive(Clone, Copy, Debug, PartialEq, Eq, Structural)]
pub enum ProportionalGain {
    Slow,
    Moderate,
    Aggressive,
    Fast,
}

/// The proportional gain of each setting, in tenths (a gain of 0.5 is 5).
pub open spec fn spec_gain_tenths(turn_speed: ProportionalGain) -> nat {
    match turn_speed {
        ProportionalGain::Slow => 5,
        ProportionalGain::Moderate => 10,
        ProportionalGain::Aggressive => 20,
        ProportionalGain::Fast => 50,
    }
}

impl ProportionalGain {
    /// The proportional gain of a setting, in tenths: 0.5, 1, 2 and 5 are
    /// returned as 5, 10, 20 and 50.
    pub fn get_gain(turn_speed: ProportionalGain) -> (tenths: u32)
        ensures
            tenths == spec_gain_tenths(turn_speed),
    {
        match turn_speed {
            ProportionalGain::Slow => 5,
            ProportionalGain::Moderate => 10,
            ProportionalGain::Aggressive => 20,
            ProportionalGain::Fast => 50,
        }
    }
}

} // verus!
