//! The damage gauge: tracks whether the player is currently taking damage
//! and paces the life decrement and the red/white display flash.

use crate::timer::Timer;
use crate::wait;
use vstd::prelude::*;

verus! {

pub struct DamageGauge {
    /// Gates the life decrement: one point of damage per firing.
    pub damagetimer: Timer,
    /// Gates the red/white display alternation.
    pub flashtimer: Timer,
    /// A hazard is currently beneath the unprotected player.
    pub damaging: bool,
    /// The gauge display is flashing.
    pub flashing: bool,
    /// Current phase of the red/white alternation.
    pub is_red: bool,
}

impl DamageGauge {
    pub open spec fn wf(&self) -> bool {
        &&& self.damagetimer.bounded()
        &&& self.flashtimer.bounded()
    }

    pub fn new() -> (g: DamageGauge)
        ensures
            g.wf(),
            g.damagetimer.waittime == wait::DAMAGE && g.damagetimer.wait == 0,
            g.flashtimer.waittime == wait::GAUGEFLASH && g.flashtimer.wait == 0,
            !g.damaging,
            !g.flashing,
            !g.is_red,
    {
        DamageGauge {
            damagetimer: Timer::new(wait::DAMAGE),
            flashtimer: Timer::new(wait::GAUGEFLASH),
            damaging: false,
            flashing: false,
            is_red: false,
        }
    }
}

} // verus!
