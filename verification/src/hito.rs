//! The player figure: grid position, power-up flags, visual-flash state and
//! the timers that pace its behaviours.

use crate::field;
use crate::timer::Timer;
use crate::wait;
use vstd::prelude::*;

verus! {

pub struct Hito {
    /// Column, clamped to `[0, field::WID)`.
    pub x: i32,
    /// Row; the figure itself never changes rows, the terrain scrolls.
    pub y: i32,
    /// Visible-state index used for sprite selection (flash / shimmer).
    pub hitonum: i32,
    /// Hidden once the game-over epilogue fires.
    pub hide: bool,
    /// Invulnerability power-up active.
    pub muteki: bool,
    /// Parachute power-up active.
    pub para: bool,
    /// Weight power-up active.
    pub omori: bool,
    /// Visual flashing active (damage or game over).
    pub flashing: bool,
    /// Simulation time at which invulnerability began.
    pub mutekistart: u32,
    /// Walk cadence: one horizontal step per firing.
    pub walktimer: Timer,
    /// Flash toggle cadence.
    pub flashtimer: Timer,
    /// Wave animation cadence.
    pub wavetimer: Timer,
    /// Invulnerability shimmer cadence.
    pub mutekiflashtimer: Timer,
    /// Hazard breakage cadence (hazards need sustained contact).
    pub haribreaktimer: Timer,
}

impl Hito {
    /// Position in bounds (with a row of terrain below it inside the grid),
    /// visible-state index in its sprite range, parachute and weight never
    /// simultaneously active, and every timer well formed.  The flash
    /// toggle (`1 - hitonum`) can briefly drive the index negative while
    /// leftover shimmer state is present, hence the lower bound.
    pub open spec fn wf(&self) -> bool {
        &&& 0 <= self.x < field::WID
        &&& 1 <= self.y < field::HEI - 1
        &&& -5 <= self.hitonum <= 6
        &&& !(self.para && self.omori)
        &&& self.walktimer.bounded()
        &&& self.flashtimer.bounded()
        &&& self.wavetimer.bounded()
        &&& self.mutekiflashtimer.bounded()
        &&& self.haribreaktimer.bounded()
    }

    pub fn new() -> (h: Hito)
        ensures
            h.wf(),
            h.x == field::WID / 2 - 1,
            h.y == field::HEI / 2,
            h.hitonum == 0,
            !h.hide,
            !h.muteki,
            !h.para,
            !h.omori,
            !h.flashing,
            h.mutekistart == 0,
            h.walktimer.waittime == wait::WALK && h.walktimer.wait == 0,
            h.flashtimer.waittime == wait::HITOFLASH && h.flashtimer.wait == 0,
            h.wavetimer.waittime == wait::HITOWAVE && h.wavetimer.wait == 0,
            h.mutekiflashtimer.waittime == wait::MUTEKIFLASH && h.mutekiflashtimer.wait == 0,
            h.haribreaktimer.waittime == wait::HARIBREAK && h.haribreaktimer.wait == 0,
    {
        Hito {
            x: field::WID / 2 - 1,
            y: field::HEI / 2,
            hitonum: 0,
            hide: false,
            muteki: false,
            para: false,
            omori: false,
            flashing: false,
            mutekistart: 0,
            walktimer: Timer::new(wait::WALK),
            flashtimer: Timer::new(wait::HITOFLASH),
            wavetimer: Timer::new(wait::HITOWAVE),
            mutekiflashtimer: Timer::new(wait::MUTEKIFLASH),
            haribreaktimer: Timer::new(wait::HARIBREAK),
        }
    }

    /// Begins visual flashing; the visible-state index is left as it is.
    pub fn start_flashing(&mut self)
        ensures
            *final(self) == (Hito { flashing: true, ..*old(self) }),
    {
        self.flashing = true;
    }

    /// Stops visual flashing and restores the normal visible state.
    pub fn stop_flashing(&mut self)
        ensures
            *final(self) == (Hito { flashing: false, hitonum: 0, ..*old(self) }),
    {
        self.flashing = false;
        self.hitonum = 0;
    }
}

} // verus!
