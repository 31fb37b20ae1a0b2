//! Transient visual effects (breakage, parachute impact): non-gameplay
//! markers with their own lifetime timers, scrolled in lockstep with the
//! grid and purged once their animation completes or they leave the shaft.

use crate::kinds::EffectType;
use crate::timer::{Timer, MAX_DT};
use vstd::arithmetic::div_mod::lemma_div_nonincreasing;
use vstd::prelude::*;

verus! {

/// Number of animation states of a breakage effect.
pub const STATES_BREAK: i32 = 3;

/// Number of animation states of a parachute-impact effect.
pub const STATES_PANG: i32 = 3;

/// Terminal animation-state count of an effect kind.
pub open spec fn states_of(t: EffectType) -> int {
    match t {
        EffectType::BREAK => STATES_BREAK as int,
        EffectType::PANG => STATES_PANG as int,
    }
}

#[derive(Clone, Copy)]
pub struct Effect {
    /// Grid column.
    pub x: i32,
    /// Grid row; decremented by one per scroll while the effect lives.
    pub y: i32,
    /// Effect kind.
    pub _type: EffectType,
    /// Lifetime timer: each firing advances the animation by one state.
    pub timer: Timer,
    /// Discrete animation-state counter.
    pub state: i32,
    /// Set once the animation completed or the effect left the shaft;
    /// dead effects are purged at the end of the next effect update.
    pub dead: bool,
}

impl Effect {
    /// Timer well formed, state within the kind's animation range, and the
    /// row still inside the shaft while the effect lives.
    pub open spec fn wf(&self) -> bool {
        &&& self.timer.bounded()
        &&& 0 <= self.state < states_of(self._type)
        &&& 0 <= self.y
        &&& (!self.dead ==> 1 <= self.y)
    }

    pub fn new(x: i32, y: i32, _type: EffectType, timer: Timer) -> (e: Effect)
        ensures
            e == (Effect { x, y, _type, timer, state: 0, dead: false }),
    {
        Effect { x, y, _type, timer, state: 0, dead: false }
    }

    /// Advances the lifetime timer by `dt`; each firing advances the
    /// animation by one state, and the effect dies once the counter reaches
    /// the kind's terminal count.
    pub fn tick(&mut self, dt: u32)
        requires
            old(self).timer.bounded(),
            0 <= old(self).state < states_of(old(self)._type),
            dt <= MAX_DT,
        ensures
            *final(self) == ticked_effect(*old(self), dt),
    {
        proof {
            lemma_div_nonincreasing(old(self).timer.wait + dt, old(self).timer.waittime as int);
        }
        let n = self.timer.wait(dt);
        let ghost mid = *self;
        let mut k: u32 = 0;
        while k < n
            invariant
                k <= n,
                n <= crate::timer::MAX_PERIOD + MAX_DT,
                old(self).state < states_of(old(self)._type),
                states_of(old(self)._type) <= 3,
                *self == (Effect {
                    state: (old(self).state + k) as i32,
                    dead: old(self).dead || old(self).state + k >= states_of(old(self)._type),
                    ..mid
                }),
            decreases n - k,
        {
            self.state = self.state + 1;
            if self.state >= states_count(self._type) {
                self.dead = true;
            }
            k = k + 1;
        }
    }
}

/// Executable twin of `states_of`.
fn states_count(t: EffectType) -> (n: i32)
    ensures
        n == states_of(t),
{
    match t {
        EffectType::BREAK => STATES_BREAK,
        EffectType::PANG => STATES_PANG,
    }
}

/// The state of an effect after its lifetime timer has been advanced by
/// `dt` and fully drained: the animation moves one state per firing and the
/// effect is dead once the counter has reached the kind's terminal count.
pub open spec fn ticked_effect(e: Effect, dt: u32) -> Effect {
    let total = e.timer.wait + dt;
    let n = Timer::fire_count(total, e.timer.waittime as int);
    Effect {
        timer: Timer {
            waittime: e.timer.waittime,
            wait: Timer::leftover(total, e.timer.waittime as int) as i32,
        },
        state: (e.state + n) as i32,
        dead: e.dead || e.state + n >= states_of(e._type),
        ..e
    }
}

} // verus!
