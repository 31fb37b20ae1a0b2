//! The aggregate root: owns the grid, player, damage gauge, effects, score
//! and high-score list, and advances all subsystems once per invocation
//! with the elapsed delta time.

use crate::effect::{ticked_effect, Effect};
use crate::field;
use crate::gauge::DamageGauge;
use crate::hito::Hito;
use crate::kinds::{passable, Chara, Command, EffectType, MusicCommand, Sound};
use crate::rng::{rand_below, seed_rng};
use crate::system::{counted_fps, System};
use crate::timer::Timer;
use crate::wait;
use crate::{HARI_PER_FLOOR, HIGHSCORES, ITEM_PERCENT, MUTEKI_TIME};
use vstd::prelude::*;

verus! {

pub struct Game {
    /// Random-number source, seeded once per session.
    pub rng: rand::rngs::StdRng,
    /// The game-over state has been entered (terminal until restart).
    pub is_over: bool,
    /// Remaining life, `0..=100`.
    pub life: i32,
    /// Outbound sound cues, drained by the audio shell after each frame.
    pub requested_sounds: Vec<Sound>,
    /// Outbound music commands, drained by the music shell after each frame.
    pub requested_musics: Vec<MusicCommand>,
    /// The player figure.
    pub hito: Hito,
    /// Whether the next successful scroll generates terrain ("floor rows"
    /// and "gap rows" alternate).
    pub isfloor: bool,
    /// The shaft: row 0 is the top, the last row is where terrain spawns.
    pub data: Vec<Vec<Chara>>,
    /// Live visual effects.
    pub effects: Vec<Effect>,
    /// Score: incremented once per successful scroll.
    pub score: i32,
    /// Bounded high-score list, sorted descending.
    pub highscore: Vec<i32>,
    /// Paces the fall/scroll cadence; its period changes with power-ups.
    pub falltimer: Timer,
    /// Paces the single epilogue step after the game-over transition.
    pub gameovertimer: Timer,
    /// The damage gauge.
    pub gauge: DamageGauge,
    /// Running simulation clock in milliseconds.
    pub now: u32,
    /// Frame-rate bookkeeping.
    pub system: System,
}

/// The grid is a full `field::HEI` by `field::WID` rectangle.
pub open spec fn grid_wf(data: Seq<Vec<Chara>>) -> bool {
    &&& data.len() == field::HEI
    &&& forall|y: int| 0 <= y < field::HEI ==> (#[trigger] data[y])@.len() == field::WID
}

/// A row holding one `field::FLOORWID`-wide run of `k` starting at `pos`
/// and nothing else.
pub open spec fn run_covers(row: Seq<Chara>, pos: int, k: Chara) -> bool {
    forall|x: int|
        0 <= x < field::WID ==> row[x] == (if pos <= x < pos + field::FLOORWID {
            k
        } else {
            Chara::EMPTY
        })
}

/// The bottom row of `g` holds exactly one freshly generated run: a
/// `field::FLOORWID`-wide span of ground or hazard over empty cells.
pub open spec fn bottom_run(g: Game, pos: int, k: Chara) -> bool {
    &&& 0 <= pos <= field::WID - field::FLOORWID
    &&& (k == Chara::HARI || k == Chara::BLOCK)
    &&& run_covers(g.data@[field::HEI - 1]@, pos, k)
}

/// A surviving effect after one scroll tick: its row moves up by one and it
/// dies on reaching the top boundary.  Dead effects are left as they are
/// until the next effect update purges them.
pub open spec fn scrolled_effect(e: Effect) -> Effect {
    if e.dead {
        e
    } else {
        Effect { y: (e.y - 1) as i32, dead: e.y == 1, ..e }
    }
}

/// Sorted in descending order.
pub open spec fn sorted_desc(s: Seq<i32>) -> bool {
    forall|i: int, j: int| 0 <= i <= j < s.len() ==> s[i] >= s[j]
}

/// `v` inserted into the descending-sorted `s`, before the first strictly
/// smaller entry.
pub open spec fn insert_desc(s: Seq<i32>, v: i32) -> Seq<i32>
    decreases s.len(),
{
    if s.len() == 0 {
        seq![v]
    } else if v >= s[0] {
        seq![v] + s
    } else {
        seq![s[0]] + insert_desc(s.drop_first(), v)
    }
}

impl Game {
    /// Cell at row `y`, column `x`; row 0 is the top.
    pub open spec fn cell(&self, y: int, x: int) -> Chara {
        self.data@[y]@[x]
    }

    pub open spec fn grid_wf(&self) -> bool {
        grid_wf(self.data@)
    }

    /// Well-formedness: full grid, player in bounds with mutually exclusive
    /// parachute/weight flags, life and score in range, all timers well
    /// formed with the fall period one of its three configured speeds,
    /// every effect well formed, the high-score list sorted and bounded,
    /// and the invulnerability start mark not in the future.
    pub open spec fn wf(&self) -> bool {
        &&& self.grid_wf()
        &&& self.hito.wf()
        &&& self.hito.mutekistart <= self.now
        &&& 0 <= self.life <= 100
        &&& 0 <= self.score
        &&& self.falltimer.bounded()
        &&& (self.falltimer.waittime == wait::FALL || self.falltimer.waittime == wait::FALL_PARA
            || self.falltimer.waittime == wait::FALL_OMORI)
        &&& self.gameovertimer.bounded()
        &&& self.gauge.wf()
        &&& forall|i: int| 0 <= i < self.effects@.len() ==> (#[trigger] self.effects@[i]).wf()
        &&& sorted_desc(self.highscore@)
        &&& self.highscore@.len() <= HIGHSCORES
    }

    /// Creates a fresh session from the given seed (the shell derives the
    /// seed from the wall clock and logs it for reproducibility).  The grid
    /// is empty except for one freshly generated run in the bottom row.
    pub fn new(seed: u64) -> (g: Game)
        ensures
            g.wf(),
            !g.is_over,
            g.life == 100,
            g.requested_sounds@.len() == 0,
            g.requested_musics@.len() == 0,
            g.hito.x == field::WID / 2 - 1,
            g.hito.y == field::HEI / 2,
            g.hito.hitonum == 0,
            !g.hito.hide && !g.hito.muteki && !g.hito.para && !g.hito.omori && !g.hito.flashing,
            g.hito.walktimer == (Timer { waittime: wait::WALK, wait: 0 }),
            g.hito.flashtimer == (Timer { waittime: wait::HITOFLASH, wait: 0 }),
            g.hito.wavetimer == (Timer { waittime: wait::HITOWAVE, wait: 0 }),
            g.hito.mutekiflashtimer == (Timer { waittime: wait::MUTEKIFLASH, wait: 0 }),
            g.hito.haribreaktimer == (Timer { waittime: wait::HARIBREAK, wait: 0 }),
            g.gauge.damagetimer == (Timer { waittime: wait::DAMAGE, wait: 0 }),
            g.gauge.flashtimer == (Timer { waittime: wait::GAUGEFLASH, wait: 0 }),
            !g.isfloor,
            g.effects@.len() == 0,
            g.score == 0,
            g.highscore@.len() == 0,
            g.falltimer == (Timer { waittime: wait::FALL, wait: 0 }),
            g.gameovertimer == (Timer { waittime: wait::GAMEOVER, wait: 0 }),
            !g.gauge.damaging && !g.gauge.flashing && !g.gauge.is_red,
            g.now == 0,
            g.system == (System { time: 0, count: 0, fps: 0 }),
            forall|y: int, x: int|
                0 <= y < field::HEI - 1 && 0 <= x < field::WID ==> #[trigger] g.data@[y]@[x]
                    == Chara::EMPTY,
            exists|pos: int, k: Chara| bottom_run(g, pos, k),
    {
        let mut data: Vec<Vec<Chara>> = Vec::new();
        while data.len() < field::HEI as usize
            invariant
                data@.len() <= field::HEI,
                forall|y: int|
                    0 <= y < data@.len() ==> (#[trigger] data@[y])@.len() == field::WID,
                forall|y: int, x: int|
                    0 <= y < data@.len() && 0 <= x < field::WID ==> data@[y]@[x] == Chara::EMPTY,
            decreases field::HEI - data.len(),
        {
            data.push(empty_row());
        }
        let mut game = Game {
            rng: seed_rng(seed),
            is_over: false,
            life: 100,
            requested_sounds: Vec::new(),
            requested_musics: Vec::new(),
            hito: Hito::new(),
            isfloor: false,
            data,
            effects: Vec::new(),
            score: 0,
            highscore: Vec::new(),
            falltimer: Timer::new(wait::FALL),
            gameovertimer: Timer::new(wait::GAMEOVER),
            gauge: DamageGauge::new(),
            now: 0,
            system: System::new(),
        };
        let (pos, k) = game.generate_floor();
        proof {
            assert forall|x: int| 0 <= x < field::WID implies #[trigger] game.data@[field::HEI
                - 1]@[x] == (if pos <= x < pos + field::FLOORWID {
                k
            } else {
                Chara::EMPTY
            }) by {}
            assert(bottom_run(game, pos as int, k));
        }
        game
    }

    /// Draws a value uniformly from `[0, max)`; only the random source
    /// changes.
    pub fn rand(&mut self, max: i32) -> (r: i32)
        requires
            max > 0,
        ensures
            0 <= r < max,
            *final(self) == (Game { rng: final(self).rng, ..*old(self) }),
    {
        rand_below(&mut self.rng, max)
    }

    /// Writes one cell; nothing else changes.
    fn set_cell(&mut self, y: usize, x: usize, c: Chara)
        requires
            old(self).grid_wf(),
            y < field::HEI,
            x < field::WID,
        ensures
            final(self).grid_wf(),
            *final(self) == (Game { data: final(self).data, ..*old(self) }),
            final(self).data@.len() == old(self).data@.len(),
            forall|yy: int|
                0 <= yy < old(self).data@.len() && yy != y ==> #[trigger] final(self).data@[yy]
                    == old(self).data@[yy],
            final(self).data@[y as int]@ == old(self).data@[y as int]@.update(x as int, c),
    {
        self.data[y][x] = c;
    }

    /// Whether the player could occupy cell `(x, y)`.
    pub fn can_pass(&self, x: i32, y: i32) -> (b: bool)
        requires
            self.grid_wf(),
            0 <= x < field::WID,
            0 <= y < field::HEI,
        ensures
            b == passable(self.cell(y as int, x as int)),
    {
        let c = self.data[y as usize][x as usize];
        match c {
            Chara::EMPTY | Chara::STAR | Chara::PARA | Chara::OMORI => true,
            _ => false,
        }
    }

    /// Reassigns the fall/scroll period (power-ups fall slower or faster);
    /// accumulated progress towards the next scroll survives.
    pub fn set_scroll_wait(&mut self, wait: i32)
        requires
            0 < wait <= crate::timer::MAX_PERIOD,
        ensures
            *final(self) == (Game {
                falltimer: Timer { waittime: wait, wait: old(self).falltimer.wait },
                ..*old(self)
            }),
    {
        self.falltimer.set_wait(wait);
    }

    /// Destroys cell `(x, y)`: it becomes empty, a breakage effect appears
    /// there, and a breakage sound is enqueued.  In the top row the marker
    /// is born already expired: an effect at the top boundary is dead (the
    /// rule that also removes effects scrolled past the top), so it never
    /// animates or scrolls.
    pub fn field_break(&mut self, x: i32, y: i32)
        requires
            old(self).grid_wf(),
            0 <= x < field::WID,
            0 <= y < field::HEI,
        ensures
            final(self).grid_wf(),
            *final(self) == (Game {
                data: final(self).data,
                effects: final(self).effects,
                requested_sounds: final(self).requested_sounds,
                ..*old(self)
            }),
            final(self).data@.len() == old(self).data@.len(),
            forall|yy: int|
                0 <= yy < old(self).data@.len() && yy != y ==> #[trigger] final(self).data@[yy]
                    == old(self).data@[yy],
            final(self).data@[y as int]@ == old(self).data@[y as int]@.update(
                x as int,
                Chara::EMPTY,
            ),
            final(self).effects@ == old(self).effects@.push(
                Effect {
                    x,
                    y,
                    _type: EffectType::BREAK,
                    timer: Timer { waittime: 150, wait: 0 },
                    state: 0,
                    dead: y == 0,
                },
            ),
            final(self).requested_sounds@ == old(self).requested_sounds@.push(Sound::Break),
    {
        self.set_cell(y as usize, x as usize, Chara::EMPTY);
        let t = Timer::new(150);
        proof {
            assert(t == (Timer { waittime: 150, wait: 0 }));
        }
        let mut e = Effect::new(x, y, EffectType::BREAK, t);
        if y == 0 {
            e.dead = true;
        }
        self.effects.push(e);
        self.requested_sounds.push(Sound::Break);
    }

    /// Generates one run of terrain in the bottom row: picks a start column
    /// so the run fits, rolls hazard against ground, and writes the run.
    /// Returns the start column and the cell kind so the caller can place a
    /// power-up above a non-hazard run.
    pub fn generate_floor(&mut self) -> (r: (i32, Chara))
        requires
            old(self).wf(),
        ensures
            final(self).wf(),
            *final(self) == (Game {
                data: final(self).data,
                rng: final(self).rng,
                ..*old(self)
            }),
            0 <= r.0 <= field::WID - field::FLOORWID,
            r.1 == Chara::HARI || r.1 == Chara::BLOCK,
            final(self).data@.len() == field::HEI,
            forall|y: int|
                0 <= y < field::HEI - 1 ==> #[trigger] final(self).data@[y] == old(self).data@[y],
            forall|y: int, x: int|
                y == field::HEI - 1 && 0 <= x < field::WID ==> #[trigger] final(self).data@[y]@[x]
                    == (if r.0 <= x < r.0 + field::FLOORWID {
                    r.1
                } else {
                    old(self).data@[y]@[x]
                }),
    {
        let mut pos = self.rand(field::WID + field::FLOORWID) - field::FLOORWID;
        if pos < 0 {
            pos = 0;
        }
        if pos > field::WID - field::FLOORWID {
            pos = field::WID - field::FLOORWID;
        }

        let t: Chara = if self.rand(100) <= HARI_PER_FLOOR {
            // Deliberately `<=`: a nominal N% roll admits N+1
            // of the 100 draws.
            Chara::HARI
        } else {
            Chara::BLOCK
        };

        let mut i: i32 = 0;
        while i < field::FLOORWID
            invariant
                old(self).wf(),
                0 <= i <= field::FLOORWID,
                0 <= pos <= field::WID - field::FLOORWID,
                self.grid_wf(),
                *self == (Game { data: self.data, rng: self.rng, ..*old(self) }),
                self.data@.len() == field::HEI,
                forall|y: int|
                    0 <= y < field::HEI - 1 ==> #[trigger] self.data@[y] == old(self).data@[y],
                forall|y: int, x: int|
                    y == field::HEI - 1 && 0 <= x < field::WID ==> #[trigger] self.data@[y]@[x]
                        == (if pos <= x < pos + i {
                        t
                    } else {
                        old(self).data@[y]@[x]
                    }),
            decreases field::FLOORWID - i,
        {
            self.set_cell((field::HEI - 1) as usize, (pos + i) as usize, t);
            i = i + 1;
        }

        (pos, t)
    }

    /// Scrolls every surviving effect up by one row, in lockstep with the
    /// grid; an effect reaching the top boundary dies.
    pub fn effects_scroll(&mut self)
        requires
            forall|i: int| 0 <= i < old(self).effects@.len()
                ==> (#[trigger] old(self).effects@[i]).wf(),
        ensures
            *final(self) == (Game { effects: final(self).effects, ..*old(self) }),
            final(self).effects@.len() == old(self).effects@.len(),
            forall|i: int| 0 <= i < old(self).effects@.len()
                ==> final(self).effects@[i] == scrolled_effect(#[trigger] old(self).effects@[i]),
            forall|i: int| 0 <= i < final(self).effects@.len()
                ==> (#[trigger] final(self).effects@[i]).wf(),
    {
        let mut i: usize = 0;
        while i < self.effects.len()
            invariant
                forall|j: int| 0 <= j < old(self).effects@.len()
                    ==> (#[trigger] old(self).effects@[j]).wf(),
                i <= self.effects@.len(),
                self.effects@.len() == old(self).effects@.len(),
                *self == (Game { effects: self.effects, ..*old(self) }),
                forall|j: int| 0 <= j < i
                    ==> self.effects@[j] == scrolled_effect(#[trigger] old(self).effects@[j]),
                forall|j: int| i <= j < self.effects@.len()
                    ==> self.effects@[j] == old(self).effects@[j],
            decreases self.effects@.len() - i,
        {
            let mut e = self.effects[i];
            if !e.dead {
                e.y = e.y - 1;
                if e.y == 0 {
                    e.dead = true;
                }
            }
            self.effects[i] = e;
            i = i + 1;
        }
        proof {
            assert forall|j: int| 0 <= j < self.effects@.len() implies (#[trigger] self.effects@[
                j
            ]).wf() by {
                assert(old(self).effects@[j].wf());
                assert(self.effects@[j] == scrolled_effect(old(self).effects@[j]));
            }
        }
    }

    /// Advances every effect's animation by the elapsed delta and purges
    /// the dead ones.
    pub fn update_effects(&mut self, dt: u32)
        requires
            old(self).wf(),
            dt <= crate::timer::MAX_DT,
        ensures
            final(self).wf(),
            *final(self) == (Game { effects: final(self).effects, ..*old(self) }),
            final(self).effects@ == effects_after_update(old(self).effects@, dt),
    {
        let mut kept: Vec<Effect> = Vec::new();
        let mut i: usize = 0;
        while i < self.effects.len()
            invariant
                old(self).wf(),
                dt <= crate::timer::MAX_DT,
                i <= self.effects@.len(),
                *self == *old(self),
                kept@ == effects_after_update(old(self).effects@.subrange(0, i as int), dt),
                forall|j: int| 0 <= j < kept@.len() ==> (#[trigger] kept@[j]).wf(),
            decreases self.effects@.len() - i,
        {
            let mut e = self.effects[i];
            proof {
                assert(old(self).effects@[i as int].wf());
            }
            e.tick(dt);
            if !e.dead {
                kept.push(e);
            }
            proof {
                assert(old(self).effects@.subrange(0, i + 1).drop_last() =~= old(
                    self,
                ).effects@.subrange(0, i as int));
                assert(old(self).effects@.subrange(0, i + 1).last() == old(
                    self,
                ).effects@[i as int]);
            }
            i = i + 1;
        }
        proof {
            assert(old(self).effects@.subrange(0, old(self).effects@.len() as int) =~= old(
                self,
            ).effects@);
        }
        self.effects = kept;
    }

    /// Advances the whole simulation by one invocation: the running clock,
    /// the player, the damage gauge and the effects, then - while playing -
    /// drains the fall timer, scrolling once per firing, enters the
    /// game-over state once life is exhausted (enqueueing its sound and
    /// halt-music cue and starting the player flashing), and counts the
    /// frame.  Once over, only the fixed-duration epilogue timer runs; on
    /// its firing the player is hidden and the score is recorded in the
    /// high-score list.
    #[verifier::rlimit(60)]
    pub fn update(&mut self, command: Command, dt: u32)
        requires
            old(self).wf(),
            dt <= crate::timer::MAX_DT,
            old(self).now + dt <= u32::MAX,
            old(self).system.time + dt <= u32::MAX,
            old(self).system.count < i32::MAX,
            old(self).score + (old(self).falltimer.wait + dt) / (wait::FALL_OMORI as int)
                < i32::MAX,
        ensures
            final(self).wf(),
            final(self).now == old(self).now + dt,
            final(self).hito.y == old(self).hito.y,
            final(self).is_over == (old(self).is_over || final(self).life == 0),
            final(self).life <= old(self).life,
            final(self).score >= old(self).score,
            old(self).requested_sounds@.is_prefix_of(final(self).requested_sounds@),
            old(self).requested_musics@.is_prefix_of(final(self).requested_musics@),
            !old(self).is_over ==> ({
                // The per-frame work, stated against the clock-advanced
                // state the subsystems observe: the walked column, the
                // power-up flags, the damage outcome on life, the scroll
                // budget and the frame count.
                let g1 = ticked_clock(*old(self), dt);
                let x1 = x_after_walk(g1, command, dt);
                let y = old(self).hito.y as int;
                let below = (if break_count(g1, command, dt) >= 1 {
                    Chara::EMPTY
                } else {
                    old(self).cell(y + 1, x1)
                });
                let harmed = below == Chara::HARI && !muteki_after(g1, command, dt);
                let ndmg = Timer::fire_count(
                    old(self).gauge.damagetimer.wait + dt,
                    old(self).gauge.damagetimer.waittime as int,
                );
                let life1 = (if harmed {
                    if old(self).life - ndmg >= 0 {
                        old(self).life - ndmg
                    } else {
                        0int
                    }
                } else {
                    old(self).life as int
                });
                &&& final(self).hito.x == x1
                &&& final(self).hito.muteki == muteki_after(g1, command, dt)
                &&& final(self).hito.para == para_after(g1, command, dt)
                &&& final(self).hito.omori == omori_after(g1, command, dt)
                &&& final(self).hito.mutekistart == mutekistart_after(g1, command, dt)
                &&& final(self).life == life1
                &&& final(self).gauge.damaging == harmed
                &&& (life1 > 0 ==> final(self).hito.flashing == (if harmed {
                    if old(self).gauge.damaging {
                        old(self).hito.flashing
                    } else {
                        true
                    }
                } else if old(self).gauge.damaging {
                    false
                } else {
                    old(self).hito.flashing
                }))
                &&& final(self).hito.hitonum == (if !harmed && old(self).gauge.damaging {
                    0int
                } else {
                    num_after_shimmer(g1, command, dt)
                })
                &&& final(self).score <= old(self).score + Timer::fire_count(
                    old(self).falltimer.wait + dt,
                    fall_wait_after(g1, command, dt),
                )
                &&& final(self).falltimer == (Timer {
                    waittime: fall_wait_after(g1, command, dt) as i32,
                    wait: Timer::leftover(
                        old(self).falltimer.wait + dt,
                        fall_wait_after(g1, command, dt),
                    ) as i32,
                })
                &&& (life1 > 0 ==> final(self).system == counted_fps(old(self).system, dt))
                &&& (life1 == 0 ==> final(self).system == old(self).system)
            }),
            old(self).is_over ==> final(self).system == old(self).system,
            count_of(final(self).requested_sounds@, Sound::GameOver) == count_of(
                old(self).requested_sounds@,
                Sound::GameOver,
            ) + (if !old(self).is_over && final(self).is_over {
                1int
            } else {
                0
            }),
            count_of(final(self).requested_musics@, MusicCommand::Halt) == count_of(
                old(self).requested_musics@,
                MusicCommand::Halt,
            ) + (if !old(self).is_over && final(self).is_over {
                1int
            } else {
                0
            }),
            (!old(self).is_over && final(self).is_over) ==> ({
                &&& final(self).requested_sounds@.len() >= 1
                &&& final(self).requested_sounds@.last() == Sound::GameOver
                &&& final(self).requested_musics@.len() >= 1
                &&& final(self).requested_musics@.last() == MusicCommand::Halt
                &&& final(self).hito.flashing
            }),
            !old(self).is_over ==> final(self).highscore == old(self).highscore
                && final(self).hito.hide == old(self).hito.hide,
            old(self).is_over ==> ({
                &&& final(self).data == old(self).data
                &&& final(self).score == old(self).score
                &&& final(self).isfloor == old(self).isfloor
                &&& final(self).requested_sounds@ == old(self).requested_sounds@
                &&& final(self).requested_musics@ == old(self).requested_musics@
                &&& final(self).hito.x == old(self).hito.x
                &&& final(self).falltimer == old(self).falltimer
            }),
            old(self).is_over ==> ({
                let ng = Timer::fire_count(
                    old(self).gameovertimer.wait + dt,
                    old(self).gameovertimer.waittime as int,
                );
                &&& final(self).gameovertimer == (Timer {
                    waittime: old(self).gameovertimer.waittime,
                    wait: Timer::leftover(
                        old(self).gameovertimer.wait + dt,
                        old(self).gameovertimer.waittime as int,
                    ) as i32,
                })
                &&& ((ng >= 1 && !old(self).hito.hide) ==> (final(self).hito.hide
                    && final(self).highscore@ == highscore_after(
                    old(self).highscore@,
                    old(self).score,
                )))
                &&& ((ng == 0 || old(self).hito.hide) ==> (final(self).hito.hide
                    == old(self).hito.hide && final(self).highscore == old(self).highscore))
            }),
    {
        let ghost g0 = *old(self);
        self.now = self.now + dt;
        let ghost g1 = ticked_clock(g0, dt);
        proof {
            assert(*self == g1);
        }

        self.step_subsystems(command, dt);

        if self.is_over {
            self.update_gameover(dt);
            proof {
                assert(self.requested_sounds@ =~= g0.requested_sounds@);
                assert(self.requested_musics@ =~= g0.requested_musics@);
                assert(count_of(self.requested_sounds@, Sound::GameOver) == count_of(
                    g0.requested_sounds@,
                    Sound::GameOver,
                ));
                assert(count_of(self.requested_musics@, MusicCommand::Halt) == count_of(
                    g0.requested_musics@,
                    MusicCommand::Halt,
                ));
            }
            return;
        }

        let nf = self.falltimer.wait(dt);
        let ghost st = *self;
        proof {
            assert(st.falltimer.waittime >= wait::FALL_OMORI);
            assert(nf == (g0.falltimer.wait + dt) / (st.falltimer.waittime as int));
            vstd::arithmetic::div_mod::lemma_div_is_ordered_by_denominator(
                g0.falltimer.wait + dt,
                wait::FALL_OMORI as int,
                st.falltimer.waittime as int,
            );
            assert(st.score + nf <= i32::MAX);
        }
        let mut k: u32 = 0;
        while k < nf
            invariant
                k <= nf,
                self.wf(),
                st.wf(),
                st.score + nf <= i32::MAX,
                *self == (Game {
                    data: self.data,
                    effects: self.effects,
                    requested_sounds: self.requested_sounds,
                    score: self.score,
                    isfloor: self.isfloor,
                    rng: self.rng,
                    ..st
                }),
                st.score <= self.score <= st.score + k,
                st.requested_sounds@.is_prefix_of(self.requested_sounds@),
                count_of(self.requested_sounds@, Sound::GameOver) == count_of(
                    st.requested_sounds@,
                    Sound::GameOver,
                ),
            decreases nf - k,
        {
            let ghost presnd = self.requested_sounds@;
            let _ = self.scroll();
            proof {
                assert(st.requested_sounds@.is_prefix_of(self.requested_sounds@)) by {
                    assert(st.requested_sounds@ =~= self.requested_sounds@.subrange(
                        0,
                        st.requested_sounds@.len() as int,
                    ));
                }
                lemma_count_of_push(presnd, Sound::Foot, Sound::GameOver);
            }
            k = k + 1;
        }
        proof {
            assert(g0.requested_sounds@.is_prefix_of(self.requested_sounds@)) by {
                assert(g0.requested_sounds@ =~= self.requested_sounds@.subrange(
                    0,
                    g0.requested_sounds@.len() as int,
                ));
            }
        }

        self.finish_frame(dt);
        proof {
            assert(g0.requested_sounds@.is_prefix_of(self.requested_sounds@)) by {
                assert(g0.requested_sounds@ =~= self.requested_sounds@.subrange(
                    0,
                    g0.requested_sounds@.len() as int,
                ));
            }
            assert(g0.requested_musics@.is_prefix_of(self.requested_musics@)) by {
                assert(g0.requested_musics@ =~= self.requested_musics@.subrange(
                    0,
                    g0.requested_musics@.len() as int,
                ));
            }
        }
    }

    /// One frame's subsystem sequence - player, damage gauge, effects - as
    /// run before any scrolling: the deterministic part of an update,
    /// consolidated for the orchestrator.
    fn step_subsystems(&mut self, command: Command, dt: u32)
        requires
            old(self).wf(),
            dt <= crate::timer::MAX_DT,
        ensures
            final(self).wf(),
            *final(self) == (Game {
                hito: final(self).hito,
                data: final(self).data,
                effects: final(self).effects,
                requested_sounds: final(self).requested_sounds,
                requested_musics: final(self).requested_musics,
                falltimer: final(self).falltimer,
                life: final(self).life,
                gauge: final(self).gauge,
                ..*old(self)
            }),
            final(self).hito.y == old(self).hito.y,
            final(self).hito.hide == old(self).hito.hide,
            ({
                let x1 = x_after_walk(*old(self), command, dt);
                let y = old(self).hito.y as int;
                let below = (if break_count(*old(self), command, dt) >= 1 {
                    Chara::EMPTY
                } else {
                    old(self).cell(y + 1, x1)
                });
                let harmed = below == Chara::HARI && !muteki_after(*old(self), command, dt);
                let ndmg = Timer::fire_count(
                    old(self).gauge.damagetimer.wait + dt,
                    old(self).gauge.damagetimer.waittime as int,
                );
                &&& final(self).hito.x == x1
                &&& final(self).hito.muteki == muteki_after(*old(self), command, dt)
                &&& final(self).hito.para == para_after(*old(self), command, dt)
                &&& final(self).hito.omori == omori_after(*old(self), command, dt)
                &&& final(self).hito.mutekistart == mutekistart_after(*old(self), command, dt)
                &&& final(self).life == (if harmed {
                    if old(self).life - ndmg >= 0 {
                        old(self).life - ndmg
                    } else {
                        0int
                    }
                } else {
                    old(self).life as int
                })
                &&& final(self).gauge.damaging == harmed
                &&& final(self).hito.flashing == (if harmed {
                    if old(self).gauge.damaging {
                        old(self).hito.flashing
                    } else {
                        true
                    }
                } else if old(self).gauge.damaging {
                    false
                } else {
                    old(self).hito.flashing
                })
                &&& final(self).hito.hitonum == (if !harmed && old(self).gauge.damaging {
                    0int
                } else {
                    num_after_shimmer(*old(self), command, dt)
                })
            }),
            final(self).falltimer == (Timer {
                waittime: fall_wait_after(*old(self), command, dt) as i32,
                wait: old(self).falltimer.wait,
            }),
            old(self).is_over ==> ({
                &&& final(self).data == old(self).data
                &&& final(self).requested_sounds@ == old(self).requested_sounds@
                &&& final(self).requested_musics@ == old(self).requested_musics@
                &&& final(self).hito.x == old(self).hito.x
                &&& final(self).falltimer == old(self).falltimer
            }),
            old(self).requested_sounds@.is_prefix_of(final(self).requested_sounds@),
            old(self).requested_musics@.is_prefix_of(final(self).requested_musics@),
            count_of(final(self).requested_sounds@, Sound::GameOver) == count_of(
                old(self).requested_sounds@,
                Sound::GameOver,
            ),
            count_of(final(self).requested_musics@, MusicCommand::Halt) == count_of(
                old(self).requested_musics@,
                MusicCommand::Halt,
            ),
    {
        let ghost g0 = *old(self);
        self.update_hito(command, dt);
        proof {
            let y = g0.hito.y as int;
            let x1 = x_after_walk(g0, command, dt);
            assert(self.cell(y + 1, x1) == (if break_count(g0, command, dt) >= 1 {
                Chara::EMPTY
            } else {
                g0.cell(y + 1, x1)
            }));
            // The player step appends no game-over or halt cues.
            assert(count_of(self.requested_sounds@, Sound::GameOver) == count_of(
                g0.requested_sounds@,
                Sound::GameOver,
            )) by {
                let pick_seg = if picks(g0, command, dt, Chara::STAR) {
                    seq![Sound::Muteki]
                } else if picks(g0, command, dt, Chara::PARA) {
                    seq![Sound::GetPara]
                } else if picks(g0, command, dt, Chara::OMORI) {
                    seq![Sound::GetOmori]
                } else {
                    Seq::<Sound>::empty()
                };
                let spank_seg = if para_lands(g0, command, dt) {
                    seq![Sound::Spank]
                } else {
                    Seq::<Sound>::empty()
                };
                let brk_seg = repeat_sound(Sound::Break, break_count(g0, command, dt));
                lemma_count_of_single(Sound::Muteki, Sound::GameOver);
                lemma_count_of_single(Sound::GetPara, Sound::GameOver);
                lemma_count_of_single(Sound::GetOmori, Sound::GameOver);
                lemma_count_of_single(Sound::Spank, Sound::GameOver);
                lemma_count_of_repeat_sound(
                    Sound::Break,
                    break_count(g0, command, dt),
                    Sound::GameOver,
                );
                lemma_count_of_concat(g0.requested_sounds@, pick_seg, Sound::GameOver);
                lemma_count_of_concat(g0.requested_sounds@ + pick_seg, spank_seg, Sound::GameOver);
                lemma_count_of_concat(
                    g0.requested_sounds@ + pick_seg + spank_seg,
                    brk_seg,
                    Sound::GameOver,
                );
            }
            assert(count_of(self.requested_musics@, MusicCommand::Halt) == count_of(
                g0.requested_musics@,
                MusicCommand::Halt,
            )) by {
                let pause_seg = if picks(g0, command, dt, Chara::STAR) {
                    seq![MusicCommand::Pause]
                } else {
                    Seq::<MusicCommand>::empty()
                };
                let resume_seg = if muteki_expires(g0, command, dt) {
                    seq![MusicCommand::Resume]
                } else {
                    Seq::<MusicCommand>::empty()
                };
                lemma_count_of_single(MusicCommand::Pause, MusicCommand::Halt);
                lemma_count_of_single(MusicCommand::Resume, MusicCommand::Halt);
                lemma_count_of_concat(g0.requested_musics@, pause_seg, MusicCommand::Halt);
                lemma_count_of_concat(
                    g0.requested_musics@ + pause_seg,
                    resume_seg,
                    MusicCommand::Halt,
                );
            }
        }
        let ghost sounds_after_hito = self.requested_sounds@;
        self.update_damage(dt);
        proof {
            // The damage step appends only damage sounds.
            assert(count_of(self.requested_sounds@, Sound::GameOver) == count_of(
                sounds_after_hito,
                Sound::GameOver,
            )) by {
                let n = Timer::fire_count(
                    g0.gauge.damagetimer.wait + dt,
                    g0.gauge.damagetimer.waittime as int,
                );
                lemma_count_of_repeat_sound(Sound::Damage, n, Sound::GameOver);
                lemma_count_of_concat(
                    sounds_after_hito,
                    repeat_sound(Sound::Damage, n),
                    Sound::GameOver,
                );
                lemma_count_of_concat(sounds_after_hito, Seq::<Sound>::empty(), Sound::GameOver);
            }
        }
        self.update_effects(dt);
        proof {
            assert(g0.requested_sounds@.is_prefix_of(self.requested_sounds@)) by {
                assert(g0.requested_sounds@ =~= self.requested_sounds@.subrange(
                    0,
                    g0.requested_sounds@.len() as int,
                ));
            }
            assert(g0.requested_musics@.is_prefix_of(self.requested_musics@)) by {
                assert(g0.requested_musics@ =~= self.requested_musics@.subrange(
                    0,
                    g0.requested_musics@.len() as int,
                ));
            }
            if g0.is_over {
                assert(self.requested_sounds@ =~= g0.requested_sounds@);
                assert(self.requested_musics@ =~= g0.requested_musics@);
            }
        }
    }

    /// Epilogue step while the game is over: drains the epilogue timer; on
    /// its first firing the player is hidden and the score is recorded in
    /// the high-score list, exactly once per session.
    fn update_gameover(&mut self, dt: u32)
        requires
            old(self).wf(),
            old(self).is_over,
            dt <= crate::timer::MAX_DT,
        ensures
            final(self).wf(),
            *final(self) == (Game {
                hito: final(self).hito,
                highscore: final(self).highscore,
                gameovertimer: final(self).gameovertimer,
                ..*old(self)
            }),
            final(self).hito == (Hito { hide: final(self).hito.hide, ..old(self).hito }),
            final(self).gameovertimer == (Timer {
                waittime: old(self).gameovertimer.waittime,
                wait: Timer::leftover(
                    old(self).gameovertimer.wait + dt,
                    old(self).gameovertimer.waittime as int,
                ) as i32,
            }),
            ({
                let ng = Timer::fire_count(
                    old(self).gameovertimer.wait + dt,
                    old(self).gameovertimer.waittime as int,
                );
                &&& ((ng >= 1 && !old(self).hito.hide) ==> (final(self).hito.hide
                    && final(self).highscore@ == highscore_after(
                    old(self).highscore@,
                    old(self).score,
                )))
                &&& ((ng == 0 || old(self).hito.hide) ==> (final(self).hito.hide
                    == old(self).hito.hide && final(self).highscore == old(self).highscore))
            }),
    {
        let ng = self.gameovertimer.wait(dt);
        if ng > 0 {
            if !self.hito.hide {
                self.hito.hide = true;
                self.add_highscore();
            }
        }
    }

    /// End of a playing frame: once life is exhausted, enters the game-over
    /// state, enqueueing the game-over sound and the halt-music command and
    /// starting the player flashing; otherwise counts the frame.
    fn finish_frame(&mut self, dt: u32)
        requires
            old(self).wf(),
            !old(self).is_over,
            dt <= crate::timer::MAX_DT,
            old(self).system.time + dt <= u32::MAX,
            old(self).system.count < i32::MAX,
        ensures
            final(self).wf(),
            *final(self) == (Game {
                is_over: final(self).is_over,
                requested_sounds: final(self).requested_sounds,
                requested_musics: final(self).requested_musics,
                hito: final(self).hito,
                system: final(self).system,
                ..*old(self)
            }),
            final(self).is_over == (old(self).life == 0),
            old(self).life > 0 ==> ({
                &&& final(self).requested_sounds == old(self).requested_sounds
                &&& final(self).requested_musics == old(self).requested_musics
                &&& final(self).hito == old(self).hito
                &&& final(self).system == counted_fps(old(self).system, dt)
            }),
            old(self).life == 0 ==> ({
                &&& final(self).requested_sounds@ == old(self).requested_sounds@.push(
                    Sound::GameOver,
                )
                &&& final(self).requested_musics@ == old(self).requested_musics@.push(
                    MusicCommand::Halt,
                )
                &&& final(self).hito == (Hito { flashing: true, ..old(self).hito })
                &&& final(self).system == old(self).system
            }),
            count_of(final(self).requested_sounds@, Sound::GameOver) == count_of(
                old(self).requested_sounds@,
                Sound::GameOver,
            ) + (if old(self).life == 0 {
                1int
            } else {
                0
            }),
            count_of(final(self).requested_musics@, MusicCommand::Halt) == count_of(
                old(self).requested_musics@,
                MusicCommand::Halt,
            ) + (if old(self).life == 0 {
                1int
            } else {
                0
            }),
    {
        if self.life <= 0 {
            let ghost presnd = self.requested_sounds@;
            let ghost premus = self.requested_musics@;
            self.is_over = true;
            self.requested_musics.push(MusicCommand::Halt);
            self.requested_sounds.push(Sound::GameOver);
            self.hito.start_flashing();
            proof {
                lemma_count_of_push(presnd, Sound::GameOver, Sound::GameOver);
                lemma_count_of_push(premus, MusicCommand::Halt, MusicCommand::Halt);
            }
        } else {
            self.system.count_fps(dt);
        }
    }

    /// Player step, in order: walk (one step per walk-timer firing, into
    /// passable cells only), power-up pickup, weight expiry at 80% of the
    /// invulnerability duration, invulnerability expiry, parachute collapse
    /// on a hazard, breakage below while invulnerable and weighted, and the
    /// flash/shimmer animation of the visible-state index.
    #[verifier::rlimit(60)]
    pub fn update_hito(&mut self, command: Command, dt: u32)
        requires
            old(self).wf(),
            dt <= crate::timer::MAX_DT,
        ensures
            final(self).wf(),
            *final(self) == (Game {
                hito: final(self).hito,
                data: final(self).data,
                effects: final(self).effects,
                requested_sounds: final(self).requested_sounds,
                requested_musics: final(self).requested_musics,
                falltimer: final(self).falltimer,
                ..*old(self)
            }),
            final(self).hito.x == x_after_walk(*old(self), command, dt),
            final(self).hito.y == old(self).hito.y,
            final(self).hito.hide == old(self).hito.hide,
            final(self).hito.flashing == old(self).hito.flashing,
            final(self).hito.muteki == muteki_after(*old(self), command, dt),
            final(self).hito.para == para_after(*old(self), command, dt),
            final(self).hito.omori == omori_after(*old(self), command, dt),
            final(self).hito.mutekistart == mutekistart_after(*old(self), command, dt),
            final(self).hito.hitonum == num_after_shimmer(*old(self), command, dt),
            final(self).hito.walktimer == (if old(self).is_over {
                old(self).hito.walktimer
            } else {
                Timer {
                    waittime: old(self).hito.walktimer.waittime,
                    wait: Timer::leftover(
                        old(self).hito.walktimer.wait + dt,
                        old(self).hito.walktimer.waittime as int,
                    ) as i32,
                }
            }),
            final(self).hito.flashtimer == (if old(self).hito.flashing {
                Timer {
                    waittime: old(self).hito.flashtimer.waittime,
                    wait: Timer::leftover(
                        old(self).hito.flashtimer.wait + dt,
                        old(self).hito.flashtimer.waittime as int,
                    ) as i32,
                }
            } else {
                old(self).hito.flashtimer
            }),
            final(self).hito.mutekiflashtimer == (if muteki_after(*old(self), command, dt) {
                Timer {
                    waittime: old(self).hito.mutekiflashtimer.waittime,
                    wait: Timer::leftover(
                        old(self).hito.mutekiflashtimer.wait + dt,
                        old(self).hito.mutekiflashtimer.waittime as int,
                    ) as i32,
                }
            } else {
                old(self).hito.mutekiflashtimer
            }),
            final(self).hito.haribreaktimer == (if breaks_hari(*old(self), command, dt) {
                Timer {
                    waittime: old(self).hito.haribreaktimer.waittime,
                    wait: Timer::leftover(
                        old(self).hito.haribreaktimer.wait + dt,
                        old(self).hito.haribreaktimer.waittime as int,
                    ) as i32,
                }
            } else {
                old(self).hito.haribreaktimer
            }),
            final(self).hito.wavetimer == old(self).hito.wavetimer,
            final(self).falltimer == (Timer {
                waittime: fall_wait_after(*old(self), command, dt) as i32,
                wait: old(self).falltimer.wait,
            }),
            ({
                let x1 = x_after_walk(*old(self), command, dt);
                let y = old(self).hito.y as int;
                &&& final(self).data@.len() == field::HEI
                &&& forall|yy: int|
                    0 <= yy < field::HEI && yy != y && yy != y + 1
                        ==> #[trigger] final(self).data@[yy] == old(self).data@[yy]
                &&& (if picks(*old(self), command, dt, Chara::STAR) || picks(
                    *old(self),
                    command,
                    dt,
                    Chara::PARA,
                ) || picks(*old(self), command, dt, Chara::OMORI) {
                    final(self).data@[y]@ == old(self).data@[y]@.update(x1, Chara::EMPTY)
                } else {
                    final(self).data@[y] == old(self).data@[y]
                })
                &&& (if break_count(*old(self), command, dt) >= 1 {
                    final(self).data@[y + 1]@ == old(self).data@[y + 1]@.update(x1, Chara::EMPTY)
                } else {
                    final(self).data@[y + 1] == old(self).data@[y + 1]
                })
            }),
            old(self).is_over ==> *final(self) == (Game { hito: final(self).hito, ..*old(self) }),
            final(self).requested_sounds@ == old(self).requested_sounds@ + (if picks(
                *old(self),
                command,
                dt,
                Chara::STAR,
            ) {
                seq![Sound::Muteki]
            } else if picks(*old(self), command, dt, Chara::PARA) {
                seq![Sound::GetPara]
            } else if picks(*old(self), command, dt, Chara::OMORI) {
                seq![Sound::GetOmori]
            } else {
                Seq::empty()
            }) + (if para_lands(*old(self), command, dt) {
                seq![Sound::Spank]
            } else {
                Seq::empty()
            }) + repeat_sound(Sound::Break, break_count(*old(self), command, dt)),
            final(self).requested_musics@ == old(self).requested_musics@ + (if picks(
                *old(self),
                command,
                dt,
                Chara::STAR,
            ) {
                seq![MusicCommand::Pause]
            } else {
                Seq::empty()
            }) + (if muteki_expires(*old(self), command, dt) {
                seq![MusicCommand::Resume]
            } else {
                Seq::empty()
            }),
            final(self).effects@ == old(self).effects@ + (if para_lands(*old(self), command, dt) {
                seq![
                    (Effect {
                        x: x_after_walk(*old(self), command, dt) as i32,
                        y: old(self).hito.y,
                        _type: EffectType::PANG,
                        timer: Timer { waittime: 150, wait: 0 },
                        state: 0,
                        dead: false,
                    }),
                ]
            } else {
                Seq::empty()
            }) + repeat_effect(
                (Effect {
                    x: x_after_walk(*old(self), command, dt) as i32,
                    y: (old(self).hito.y + 1) as i32,
                    _type: EffectType::BREAK,
                    timer: Timer { waittime: 150, wait: 0 },
                    state: 0,
                    dead: false,
                }),
                break_count(*old(self), command, dt),
            ),
    {
        let ghost g0 = *old(self);
        if !self.is_over {
            let nw = self.hito.walktimer.wait(dt);
            let ghost prewalk = *self;
            let mut k: u32 = 0;
            while k < nw
                invariant
                    g0.wf(),
                    k <= nw,
                    *self == (Game { hito: self.hito, ..prewalk }),
                    self.hito == (Hito { x: self.hito.x, ..prewalk.hito }),
                    prewalk.data == g0.data,
                    0 <= self.hito.x < field::WID,
                    0 <= self.hito.y < field::HEI - 1,
                    self.hito.y == g0.hito.y,
                    self.hito.x == walked_x(
                        g0,
                        g0.hito.x as int,
                        g0.hito.y as int,
                        command,
                        k as int,
                    ),
                decreases nw - k,
            {
                proof {
                    assert(self.grid_wf());
                }
                if command == Command::Left {
                    if self.hito.x > 0 && self.can_pass(self.hito.x - 1, self.hito.y) {
                        self.hito.x = self.hito.x - 1;
                    }
                } else if command == Command::Right {
                    if self.hito.x < field::WID - 1 && self.can_pass(self.hito.x + 1, self.hito.y) {
                        self.hito.x = self.hito.x + 1;
                    }
                }
                k = k + 1;
            }
            proof {
                assert(self.hito.x == x_after_walk(g0, command, dt));
            }

            let x = self.hito.x;
            let y = self.hito.y;
            let c = self.data[y as usize][x as usize];
            proof {
                assert(c == picked_item(g0, command, dt));
            }
            match c {
                Chara::STAR => {
                    self.set_cell(y as usize, x as usize, Chara::EMPTY);
                    self.hito.muteki = true;
                    self.hito.mutekistart = self.now;
                    self.requested_musics.push(MusicCommand::Pause);
                    self.requested_sounds.push(Sound::Muteki);
                },
                Chara::PARA => {
                    self.set_cell(y as usize, x as usize, Chara::EMPTY);
                    self.set_scroll_wait(wait::FALL_PARA);
                    self.hito.para = true;
                    self.hito.omori = false;
                    self.requested_sounds.push(Sound::GetPara);
                },
                Chara::OMORI => {
                    self.set_cell(y as usize, x as usize, Chara::EMPTY);
                    self.set_scroll_wait(wait::FALL_OMORI);
                    self.hito.omori = true;
                    self.hito.para = false;
                    self.requested_sounds.push(Sound::GetOmori);
                },
                _ => {},
            }
            proof {
                assert(self.hito.muteki == muteki_mid(g0, command, dt));
                assert(self.hito.para == para_mid(g0, command, dt));
                assert(self.hito.omori == omori_mid(g0, command, dt));
                assert(self.hito.mutekistart == mutekistart_after(g0, command, dt));
                assert(self.hito.mutekistart <= self.now);
            }

            if self.hito.omori && self.hito.muteki && self.now - self.hito.mutekistart
                >= (MUTEKI_TIME * 4 / 5) as u32 {
                self.hito.omori = false;
                self.set_scroll_wait(wait::FALL);
            }
            proof {
                assert(self.hito.omori == omori_after(g0, command, dt));
            }

            if self.hito.muteki && self.now - self.hito.mutekistart >= MUTEKI_TIME as u32 {
                self.hito.muteki = false;
                self.hito.hitonum = 0;
                self.requested_musics.push(MusicCommand::Resume);
            }
            proof {
                assert(self.hito.muteki == muteki_after(g0, command, dt));
                assert(self.hito.hitonum == num_after_expiry(g0, command, dt));
            }

            let below = self.data[(y + 1) as usize][x as usize];
            proof {
                assert(below == g0.data@[y + 1]@[x as int]);
                assert(below == g0.cell(y + 1, x as int));
            }
            if self.hito.para && below == Chara::HARI && !self.hito.muteki {
                self.hito.para = false;
                self.set_scroll_wait(wait::FALL);
                self.requested_sounds.push(Sound::Spank);
                let t5 = Timer::new(150);
                proof {
                    assert(t5 == (Timer { waittime: 150, wait: 0 }));
                }
                self.effects.push(Effect::new(x, y, EffectType::PANG, t5));
            }
            proof {
                assert(self.hito.para == para_after(g0, command, dt));
                assert(self.falltimer.waittime == fall_wait_after(g0, command, dt));
            }

            if self.hito.omori && self.hito.muteki {
                if below == Chara::BLOCK {
                    self.field_break(x, y + 1);
                } else if below == Chara::HARI {
                    let nb = self.hito.haribreaktimer.wait(dt);
                    let ghost prebreak = *self;
                    let mut kb: u32 = 0;
                    while kb < nb
                        invariant
                            kb <= nb,
                            prebreak.grid_wf(),
                            0 <= x < field::WID,
                            1 <= y + 1 < field::HEI,
                            *self == (Game {
                                data: self.data,
                                effects: self.effects,
                                requested_sounds: self.requested_sounds,
                                ..prebreak
                            }),
                            self.grid_wf(),
                            forall|yy: int|
                                0 <= yy < field::HEI && yy != y + 1 ==> #[trigger] self.data@[yy]
                                    == prebreak.data@[yy],
                            kb >= 1 ==> self.data@[y + 1]@ == prebreak.data@[y + 1]@.update(
                                x as int,
                                Chara::EMPTY,
                            ),
                            kb == 0 ==> self.data == prebreak.data,
                            self.effects@ == prebreak.effects@ + repeat_effect(
                                (Effect {
                                    x,
                                    y: (y + 1) as i32,
                                    _type: EffectType::BREAK,
                                    timer: Timer { waittime: 150, wait: 0 },
                                    state: 0,
                                    dead: false,
                                }),
                                kb as int,
                            ),
                            self.requested_sounds@ == prebreak.requested_sounds@ + repeat_sound(
                                Sound::Break,
                                kb as int,
                            ),
                        decreases nb - kb,
                    {
                        self.field_break(x, y + 1);
                        proof {
                            assert(prebreak.data@[y + 1]@.update(x as int, Chara::EMPTY).update(
                                x as int,
                                Chara::EMPTY,
                            ) =~= prebreak.data@[y + 1]@.update(x as int, Chara::EMPTY));
                            let brk = Effect {
                                x,
                                y: (y + 1) as i32,
                                _type: EffectType::BREAK,
                                timer: Timer { waittime: 150, wait: 0 },
                                state: 0,
                                dead: false,
                            };
                            assert(prebreak.effects@ + repeat_effect(brk, kb + 1) =~= (prebreak.effects@
                                + repeat_effect(brk, kb as int)).push(brk));
                            assert(prebreak.requested_sounds@ + repeat_sound(Sound::Break, kb + 1) =~= (
                            prebreak.requested_sounds@ + repeat_sound(Sound::Break, kb as int)).push(
                                Sound::Break,
                            ));
                        }
                        kb = kb + 1;
                    }
                }
            }
        }

        self.animate_hito(dt);
        proof {
            assert(self.hito.hitonum == num_after_shimmer(g0, command, dt));
            let x1 = x_after_walk(g0, command, dt);
            let y = g0.hito.y as int;
            let pang = Effect {
                x: x1 as i32,
                y: g0.hito.y,
                _type: EffectType::PANG,
                timer: Timer { waittime: 150, wait: 0 },
                state: 0,
                dead: false,
            };
            let brk = Effect {
                x: x1 as i32,
                y: (g0.hito.y + 1) as i32,
                _type: EffectType::BREAK,
                timer: Timer { waittime: 150, wait: 0 },
                state: 0,
                dead: false,
            };
            let snd_pick = if picks(g0, command, dt, Chara::STAR) {
                seq![Sound::Muteki]
            } else if picks(g0, command, dt, Chara::PARA) {
                seq![Sound::GetPara]
            } else if picks(g0, command, dt, Chara::OMORI) {
                seq![Sound::GetOmori]
            } else {
                Seq::<Sound>::empty()
            };
            let snd_spank = if para_lands(g0, command, dt) {
                seq![Sound::Spank]
            } else {
                Seq::<Sound>::empty()
            };
            let nbrk = break_count(g0, command, dt);
            assert(repeat_sound(Sound::Break, 0) =~= Seq::<Sound>::empty());
            assert(repeat_sound(Sound::Break, 1) =~= repeat_sound(Sound::Break, 0).push(
                Sound::Break,
            ));
            assert(repeat_effect(brk, 0) =~= Seq::<Effect>::empty());
            assert(repeat_effect(brk, 1) =~= repeat_effect(brk, 0).push(brk));
            assert(self.requested_sounds@ =~= g0.requested_sounds@ + snd_pick + snd_spank
                + repeat_sound(Sound::Break, nbrk));
            assert(self.requested_musics@ =~= g0.requested_musics@ + (if picks(
                g0,
                command,
                dt,
                Chara::STAR,
            ) {
                seq![MusicCommand::Pause]
            } else {
                Seq::<MusicCommand>::empty()
            }) + (if muteki_expires(g0, command, dt) {
                seq![MusicCommand::Resume]
            } else {
                Seq::<MusicCommand>::empty()
            }));
            assert(self.effects@ =~= g0.effects@ + (if para_lands(g0, command, dt) {
                seq![pang]
            } else {
                Seq::<Effect>::empty()
            }) + repeat_effect(brk, nbrk));
            assert forall|yy: int|
                0 <= yy < field::HEI && yy != y && yy != y + 1 implies #[trigger] self.data@[yy]
                    == g0.data@[yy] by {}
            if picks(g0, command, dt, Chara::STAR) || picks(g0, command, dt, Chara::PARA)
                || picks(g0, command, dt, Chara::OMORI) {
                assert(self.data@[y]@ =~= g0.data@[y]@.update(x1, Chara::EMPTY));
            }
            if break_count(g0, command, dt) >= 1 {
                assert(self.data@[y + 1]@ =~= g0.data@[y + 1]@.update(x1, Chara::EMPTY));
            }
            assert forall|i: int| 0 <= i < self.effects@.len() implies (#[trigger] self.effects@[
                i
            ]).wf() by {
                if i < g0.effects@.len() {
                    assert(self.effects@[i] == g0.effects@[i]);
                    assert(g0.effects@[i].wf());
                } else {
                    lemma_repeat_effect_elems(brk, nbrk);
                }
            }
        }
    }

    /// Flash/shimmer animation of the visible-state index, independent of
    /// gameplay: while the flashing flag is set, the flash timer toggles
    /// the index once per firing; while invulnerable, the shimmer timer
    /// cycles it through `0..=6` once per firing.
    fn animate_hito(&mut self, dt: u32)
        requires
            old(self).hito.flashtimer.bounded(),
            old(self).hito.mutekiflashtimer.bounded(),
            -5 <= old(self).hito.hitonum <= 6,
            dt <= crate::timer::MAX_DT,
        ensures
            *final(self) == (Game { hito: final(self).hito, ..*old(self) }),
            final(self).hito == (Hito {
                hitonum: final(self).hito.hitonum,
                flashtimer: final(self).hito.flashtimer,
                mutekiflashtimer: final(self).hito.mutekiflashtimer,
                ..old(self).hito
            }),
            -5 <= final(self).hito.hitonum <= 6,
            final(self).hito.hitonum == ({
                let h1 = flash_toggled(
                    old(self).hito.hitonum as int,
                    old(self).hito.flashing,
                    Timer::fire_count(
                        old(self).hito.flashtimer.wait + dt,
                        old(self).hito.flashtimer.waittime as int,
                    ),
                );
                if old(self).hito.muteki {
                    cycled_num(
                        h1,
                        Timer::fire_count(
                            old(self).hito.mutekiflashtimer.wait + dt,
                            old(self).hito.mutekiflashtimer.waittime as int,
                        ),
                    )
                } else {
                    h1
                }
            }),
            final(self).hito.flashtimer == (if old(self).hito.flashing {
                Timer {
                    waittime: old(self).hito.flashtimer.waittime,
                    wait: Timer::leftover(
                        old(self).hito.flashtimer.wait + dt,
                        old(self).hito.flashtimer.waittime as int,
                    ) as i32,
                }
            } else {
                old(self).hito.flashtimer
            }),
            final(self).hito.mutekiflashtimer == (if old(self).hito.muteki {
                Timer {
                    waittime: old(self).hito.mutekiflashtimer.waittime,
                    wait: Timer::leftover(
                        old(self).hito.mutekiflashtimer.wait + dt,
                        old(self).hito.mutekiflashtimer.waittime as int,
                    ) as i32,
                }
            } else {
                old(self).hito.mutekiflashtimer
            }),
    {
        if self.hito.flashing {
            let nf = self.hito.flashtimer.wait(dt);
            let ghost preflash = *self;
            let mut kf: u32 = 0;
            while kf < nf
                invariant
                    kf <= nf,
                    *self == (Game { hito: self.hito, ..preflash }),
                    self.hito == (Hito { hitonum: self.hito.hitonum, ..preflash.hito }),
                    -5 <= preflash.hito.hitonum <= 6,
                    self.hito.hitonum == (if kf % 2 == 1 {
                        1 - preflash.hito.hitonum
                    } else {
                        preflash.hito.hitonum as int
                    }),
                decreases nf - kf,
            {
                self.hito.hitonum = 1 - self.hito.hitonum;
                kf = kf + 1;
            }
        }

        if self.hito.muteki {
            let nm = self.hito.mutekiflashtimer.wait(dt);
            let ghost preshimmer = *self;
            let mut km: u32 = 0;
            while km < nm
                invariant
                    km <= nm,
                    *self == (Game { hito: self.hito, ..preshimmer }),
                    self.hito == (Hito { hitonum: self.hito.hitonum, ..preshimmer.hito }),
                    -5 <= preshimmer.hito.hitonum <= 6,
                    -5 <= self.hito.hitonum <= 6,
                    self.hito.hitonum == cycled_num(preshimmer.hito.hitonum as int, km as int),
                decreases nm - km,
            {
                self.hito.hitonum = self.hito.hitonum + 1;
                if self.hito.hitonum > 6 {
                    self.hito.hitonum = 0;
                }
                proof {
                    let h = preshimmer.hito.hitonum as int;
                    if h + km + 1 > 7 {
                        assert((h + km + 1 - 7) % 7 == (if (h + km - 7) % 7 == 6 {
                            0int
                        } else {
                            (h + km - 7) % 7 + 1
                        })) by (nonlinear_arith)
                            requires
                                h + km > 6,
                        ;
                    }
                }
                km = km + 1;
            }
        }
    }

    /// Damage step: while a hazard sits directly beneath an unprotected
    /// player, damage is active; entering that state starts the player and
    /// gauge flashing, the damage timer decrements life once per firing
    /// (never below zero) with a damage sound per firing, and the flash
    /// timer alternates the red phase.  When the condition clears, the
    /// damage state is torn down and the damage timer's accumulator reset.
    pub fn update_damage(&mut self, dt: u32)
        requires
            old(self).wf(),
            dt <= crate::timer::MAX_DT,
        ensures
            final(self).wf(),
            *final(self) == (Game {
                life: final(self).life,
                requested_sounds: final(self).requested_sounds,
                hito: final(self).hito,
                gauge: final(self).gauge,
                ..*old(self)
            }),
            ({
                let harmed = old(self).cell(old(self).hito.y + 1, old(self).hito.x as int)
                    == Chara::HARI && !old(self).hito.muteki;
                let n = Timer::fire_count(
                    old(self).gauge.damagetimer.wait + dt,
                    old(self).gauge.damagetimer.waittime as int,
                );
                let m = Timer::fire_count(
                    old(self).gauge.flashtimer.wait + dt,
                    old(self).gauge.flashtimer.waittime as int,
                );
                if harmed {
                    &&& final(self).gauge.damaging
                    &&& final(self).gauge.flashing == (if old(self).gauge.damaging {
                        old(self).gauge.flashing
                    } else {
                        true
                    })
                    &&& final(self).hito == (if old(self).gauge.damaging {
                        old(self).hito
                    } else {
                        Hito { flashing: true, ..old(self).hito }
                    })
                    &&& final(self).life == (if old(self).life - n >= 0 {
                        old(self).life - n
                    } else {
                        0int
                    })
                    &&& final(self).requested_sounds@ == old(self).requested_sounds@
                        + (if old(self).is_over {
                        Seq::<Sound>::empty()
                    } else {
                        repeat_sound(Sound::Damage, n)
                    })
                    &&& final(self).gauge.damagetimer == (Timer {
                        waittime: old(self).gauge.damagetimer.waittime,
                        wait: Timer::leftover(
                            old(self).gauge.damagetimer.wait + dt,
                            old(self).gauge.damagetimer.waittime as int,
                        ) as i32,
                    })
                    &&& final(self).gauge.flashtimer == (Timer {
                        waittime: old(self).gauge.flashtimer.waittime,
                        wait: Timer::leftover(
                            old(self).gauge.flashtimer.wait + dt,
                            old(self).gauge.flashtimer.waittime as int,
                        ) as i32,
                    })
                    &&& final(self).gauge.is_red == (if m % 2 == 1 {
                        !old(self).gauge.is_red
                    } else {
                        old(self).gauge.is_red
                    })
                } else if old(self).gauge.damaging {
                    &&& final(self).gauge == (DamageGauge {
                        damagetimer: Timer {
                            waittime: old(self).gauge.damagetimer.waittime,
                            wait: 0,
                        },
                        flashtimer: old(self).gauge.flashtimer,
                        damaging: false,
                        flashing: false,
                        is_red: false,
                    })
                    &&& final(self).hito == (Hito { flashing: false, hitonum: 0, ..old(self).hito })
                    &&& final(self).life == old(self).life
                    &&& final(self).requested_sounds == old(self).requested_sounds
                } else {
                    *final(self) == *old(self)
                }
            }),
    {
        let below = self.data[(self.hito.y + 1) as usize][self.hito.x as usize];
        if below == Chara::HARI && !self.hito.muteki {
            if self.gauge.damaging == false {
                self.gauge.damaging = true;
                self.hito.start_flashing();
                self.gauge.flashing = true;
            }

            let n = self.gauge.damagetimer.wait(dt);
            let mut k: u32 = 0;
            while k < n
                invariant
                    k <= n,
                    *self == (Game {
                        life: self.life,
                        requested_sounds: self.requested_sounds,
                        hito: self.hito,
                        gauge: self.gauge,
                        ..*old(self)
                    }),
                    self.hito == (if old(self).gauge.damaging {
                        old(self).hito
                    } else {
                        Hito { flashing: true, ..old(self).hito }
                    }),
                    self.gauge.damaging,
                    self.gauge.flashing == (if old(self).gauge.damaging {
                        old(self).gauge.flashing
                    } else {
                        true
                    }),
                    self.gauge.is_red == old(self).gauge.is_red,
                    self.gauge.flashtimer == old(self).gauge.flashtimer,
                    self.gauge.damagetimer == (Timer {
                        waittime: old(self).gauge.damagetimer.waittime,
                        wait: Timer::leftover(
                            old(self).gauge.damagetimer.wait + dt,
                            old(self).gauge.damagetimer.waittime as int,
                        ) as i32,
                    }),
                    0 <= old(self).life <= 100,
                    self.life == (if old(self).life - k >= 0 {
                        old(self).life - k
                    } else {
                        0int
                    }),
                    self.requested_sounds@ == old(self).requested_sounds@ + (if old(
                        self,
                    ).is_over {
                        Seq::<Sound>::empty()
                    } else {
                        repeat_sound(Sound::Damage, k as int)
                    }),
                decreases n - k,
            {
                if !self.is_over {
                    self.requested_sounds.push(Sound::Damage);
                }
                if self.life > 0 {
                    self.life = self.life - 1;
                }
                proof {
                    if !old(self).is_over {
                        assert(old(self).requested_sounds@ + repeat_sound(
                            Sound::Damage,
                            k + 1,
                        ) =~= (old(self).requested_sounds@ + repeat_sound(
                            Sound::Damage,
                            k as int,
                        )).push(Sound::Damage));
                    } else {
                        assert(old(self).requested_sounds@ + Seq::<Sound>::empty() =~= old(
                            self,
                        ).requested_sounds@);
                    }
                }
                k = k + 1;
            }

            let m = self.gauge.flashtimer.wait(dt);
            let mut k2: u32 = 0;
            while k2 < m
                invariant
                    k2 <= m,
                    *self == (Game {
                        life: self.life,
                        requested_sounds: self.requested_sounds,
                        hito: self.hito,
                        gauge: self.gauge,
                        ..*old(self)
                    }),
                    self.hito == (if old(self).gauge.damaging {
                        old(self).hito
                    } else {
                        Hito { flashing: true, ..old(self).hito }
                    }),
                    0 <= old(self).life <= 100,
                    self.life == (if old(self).life - n >= 0 {
                        old(self).life - n
                    } else {
                        0int
                    }),
                    self.requested_sounds@ == old(self).requested_sounds@ + (if old(
                        self,
                    ).is_over {
                        Seq::<Sound>::empty()
                    } else {
                        repeat_sound(Sound::Damage, n as int)
                    }),
                    self.gauge.damaging,
                    self.gauge.flashing == (if old(self).gauge.damaging {
                        old(self).gauge.flashing
                    } else {
                        true
                    }),
                    self.gauge.damagetimer == (Timer {
                        waittime: old(self).gauge.damagetimer.waittime,
                        wait: Timer::leftover(
                            old(self).gauge.damagetimer.wait + dt,
                            old(self).gauge.damagetimer.waittime as int,
                        ) as i32,
                    }),
                    self.gauge.flashtimer == (Timer {
                        waittime: old(self).gauge.flashtimer.waittime,
                        wait: Timer::leftover(
                            old(self).gauge.flashtimer.wait + dt,
                            old(self).gauge.flashtimer.waittime as int,
                        ) as i32,
                    }),
                    self.gauge.is_red == (if k2 % 2 == 1 {
                        !old(self).gauge.is_red
                    } else {
                        old(self).gauge.is_red
                    }),
                decreases m - k2,
            {
                self.gauge.is_red = !self.gauge.is_red;
                k2 = k2 + 1;
            }
        } else {
            if self.gauge.damaging {
                self.gauge.damaging = false;
                self.hito.stop_flashing();
                self.gauge.flashing = false;
                self.gauge.is_red = false;
                self.gauge.damagetimer.reset();
            }
        }
    }

    /// One scroll tick.  Refused (returning `false`, changing nothing) when
    /// the player stands on an impassable cell.  Otherwise every row moves
    /// up by one, the new bottom row is cleared and - on alternating
    /// "floor" ticks - receives a generated run with a possible power-up
    /// above it, the effects scroll along, a footstep sounds if the player
    /// now rests on solid ground, and the score increases by exactly one.
    pub fn scroll(&mut self) -> (r: bool)
        requires
            old(self).wf(),
            old(self).score < i32::MAX,
        ensures
            final(self).wf(),
            r == passable(old(self).cell(old(self).hito.y + 1, old(self).hito.x as int)),
            !r ==> *final(self) == *old(self),
            r ==> *final(self) == (Game {
                data: final(self).data,
                effects: final(self).effects,
                requested_sounds: final(self).requested_sounds,
                score: final(self).score,
                isfloor: final(self).isfloor,
                rng: final(self).rng,
                ..*old(self)
            }),
            r ==> final(self).score == old(self).score + 1,
            r ==> final(self).isfloor == !old(self).isfloor,
            r ==> final(self).effects@.len() == old(self).effects@.len(),
            r ==> forall|i: int|
                0 <= i < old(self).effects@.len() ==> final(self).effects@[i] == scrolled_effect(
                    #[trigger] old(self).effects@[i],
                ),
            r ==> final(self).data@.len() == field::HEI,
            r ==> forall|yy: int|
                0 <= yy < field::HEI - 2 ==> #[trigger] final(self).data@[yy] == old(self).data@[yy
                    + 1],
            (r && !old(self).isfloor) ==> final(self).data@[field::HEI - 2] == old(
                self,
            ).data@[field::HEI - 1],
            (r && !old(self).isfloor) ==> forall|yy: int, x: int|
                yy == field::HEI - 1 && 0 <= x < field::WID ==> #[trigger] final(self).data@[yy]@[x]
                    == Chara::EMPTY,
            (r && old(self).isfloor) ==> exists|pos: int, k: Chara, item: Chara, placed: bool|
                generated_rows(*old(self), *final(self), pos, k, item, placed),
            r ==> final(self).requested_sounds@ == (if final(self).data@[old(self).hito.y
                + 1]@[old(self).hito.x as int] == Chara::BLOCK {
                old(self).requested_sounds@.push(Sound::Foot)
            } else {
                old(self).requested_sounds@
            }),
    {
        if !self.can_pass(self.hito.x, self.hito.y + 1) {
            return false;
        }
        let ghost g0 = *old(self);

        let _dropped = self.data.remove(0);
        let row = empty_row();
        self.data.push(row);
        proof {
            assert forall|yy: int| 0 <= yy < field::HEI - 1 implies #[trigger] self.data@[yy]
                == g0.data@[yy + 1] by {
                assert(self.data@[yy] == g0.data@.remove(0)[yy]);
            }
            assert(self.grid_wf()) by {
                assert forall|yy: int| 0 <= yy < field::HEI implies (#[trigger] self.data@[
                    yy
                ])@.len() == field::WID by {
                    if yy < field::HEI - 1 {
                        assert(self.data@[yy] == g0.data@[yy + 1]);
                    }
                }
            }
        }

        self.effects_scroll();

        let ghost wpos: int = 0;
        let ghost wkind: Chara = Chara::BLOCK;
        let ghost witem: Chara = Chara::STAR;
        let ghost wplaced: bool = false;
        if self.isfloor {
            let (pos, t) = self.generate_floor();
            let ghost mid = *self;
            let roll = self.rand(100);
            let mut placed = false;
            let ghost witness_item = Chara::STAR;
            if roll <= ITEM_PERCENT && t != Chara::HARI {
                // Deliberately `<=` again: a nominal N% roll
                // admits N+1 of the 100 draws.
                let r2 = self.rand(100);
                let item_type = if r2 <= 33 {
                    Chara::STAR
                } else if r2 <= 66 {
                    Chara::PARA
                } else {
                    Chara::OMORI
                };
                self.set_cell(
                    (field::HEI - 2) as usize,
                    (pos + field::FLOORWID / 2) as usize,
                    item_type,
                );
                placed = true;
                proof {
                    witness_item = item_type;
                }
            }
            proof {
                assert(run_covers(self.data@[field::HEI - 1]@, pos as int, t)) by {
                    assert forall|x: int| 0 <= x < field::WID implies #[trigger] self.data@[
                        field::HEI - 1
                    ]@[x] == (if pos <= x < pos + field::FLOORWID {
                        t
                    } else {
                        Chara::EMPTY
                    }) by {
                        assert(mid.data@[field::HEI - 1]@[x] == (if pos <= x < pos
                            + field::FLOORWID {
                            t
                        } else {
                            Chara::EMPTY
                        }));
                    }
                }
                assert(generated_rows(g0, *self, pos as int, t, witness_item, placed));
                wpos = pos as int;
                wkind = t;
                witem = witness_item;
                wplaced = placed;
            }
        }

        self.isfloor = !self.isfloor;

        if !self.can_pass(self.hito.x, self.hito.y + 1) {
            if self.data[(self.hito.y + 1) as usize][self.hito.x as usize] == Chara::BLOCK {
                self.requested_sounds.push(Sound::Foot);
            }
        }

        self.score = self.score + 1;

        proof {
            assert forall|yy: int| 0 <= yy < field::HEI - 2 implies #[trigger] self.data@[yy]
                == g0.data@[yy + 1] by {}
            if g0.isfloor {
                assert(generated_rows(g0, *self, wpos, wkind, witem, wplaced));
            }
        }
        true
    }

    /// Records the current score: inserts it into the descending-sorted
    /// high-score list and truncates the list to the top `HIGHSCORES`.
    pub fn add_highscore(&mut self)
        requires
            sorted_desc(old(self).highscore@),
            old(self).highscore@.len() <= HIGHSCORES,
        ensures
            *final(self) == (Game { highscore: final(self).highscore, ..*old(self) }),
            final(self).highscore@ == highscore_after(old(self).highscore@, old(self).score),
            sorted_desc(final(self).highscore@),
            final(self).highscore@.len() <= HIGHSCORES,
    {
        let mut idx: usize = 0;
        while idx < self.highscore.len() && self.highscore[idx] >= self.score
            invariant
                *self == *old(self),
                idx <= self.highscore@.len(),
                forall|j: int| 0 <= j < idx ==> #[trigger] self.highscore@[j] >= self.score,
            decreases self.highscore@.len() - idx,
        {
            idx = idx + 1;
        }
        proof {
            lemma_insert_desc_at(old(self).highscore@, old(self).score, idx as int);
        }
        self.highscore.insert(idx, self.score);
        self.highscore.truncate(HIGHSCORES as usize);
        proof {
            let ins = insert_desc(old(self).highscore@, old(self).score);
            assert(ins == old(self).highscore@.insert(idx as int, old(self).score));
            if ins.len() <= HIGHSCORES {
                assert(final(self).highscore@ =~= ins);
            } else {
                assert(final(self).highscore@ =~= ins.take(HIGHSCORES as int));
            }
            assert forall|i: int, j: int|
                0 <= i <= j < final(self).highscore@.len() implies final(self).highscore@[i]
                >= final(self).highscore@[j] by {
                let s = old(self).highscore@;
                let k = idx as int;
                if i < k && j < k {
                    assert(s[i] >= s[j]);
                } else if i < k && j == k {
                    assert(s[i] >= old(self).score);
                } else if i < k && j > k {
                    assert(s[i] >= s[j - 1]);
                } else if i == k && j > k {
                    assert(s[j - 1] < old(self).score);
                    assert(s[j - 1] <= s[j - 1]);
                } else if i > k && j > k {
                    assert(s[i - 1] >= s[j - 1]);
                }
            }
        }
    }
}

/// The two bottom rows after a terrain-generating scroll tick, relative to
/// the pre-scroll state `gpre`: a freshly generated run fills the bottom
/// row, and at most one power-up may appear in the row directly above it
/// (the previous bottom row), at the centre of the run and only over a
/// non-hazard run.
pub open spec fn generated_rows(
    gpre: Game,
    gpost: Game,
    pos: int,
    k: Chara,
    item: Chara,
    placed: bool,
) -> bool {
    &&& 0 <= pos <= field::WID - field::FLOORWID
    &&& (k == Chara::HARI || k == Chara::BLOCK)
    &&& run_covers(gpost.data@[field::HEI - 1]@, pos, k)
    &&& (placed ==> k != Chara::HARI && (item == Chara::STAR || item == Chara::PARA || item
        == Chara::OMORI))
    &&& (placed ==> gpost.data@[field::HEI - 2]@ == gpre.data@[field::HEI - 1]@.update(
        pos + field::FLOORWID / 2,
        item,
    ))
    &&& (!placed ==> gpost.data@[field::HEI - 2] == gpre.data@[field::HEI - 1])
}

/// The effect list after one update: every effect's lifetime timer advances
/// by `dt` (animating one state per firing), then dead effects are purged.
pub open spec fn effects_after_update(s: Seq<Effect>, dt: u32) -> Seq<Effect>
    decreases s.len(),
{
    if s.len() == 0 {
        Seq::empty()
    } else {
        let rest = effects_after_update(s.drop_last(), dt);
        let e = ticked_effect(s.last(), dt);
        if e.dead {
            rest
        } else {
            rest.push(e)
        }
    }
}

/// Destination of one attempted step from column `x` in row `y`: the step
/// succeeds only into an in-bounds passable cell.
pub open spec fn step_x(g: Game, x: int, y: int, command: Command) -> int {
    if command == Command::Left && x > 0 && passable(g.cell(y, x - 1)) {
        x - 1
    } else if command == Command::Right && x < field::WID - 1 && passable(g.cell(y, x + 1)) {
        x + 1
    } else {
        x
    }
}

/// Column after `n` walk firings against the (unchanging) grid of `g`.
pub open spec fn walked_x(g: Game, x: int, y: int, command: Command, n: int) -> int
    decreases n,
{
    if n <= 0 {
        x
    } else {
        step_x(g, walked_x(g, x, y, command, n - 1), y, command)
    }
}

/// Firings of the walk timer for this delta.
pub open spec fn walk_fires(g: Game, dt: u32) -> int {
    Timer::fire_count(g.hito.walktimer.wait + dt, g.hito.walktimer.waittime as int)
}

/// Player column after the movement stage (movement is disabled once the
/// game is over).
pub open spec fn x_after_walk(g: Game, command: Command, dt: u32) -> int {
    if g.is_over {
        g.hito.x as int
    } else {
        walked_x(g, g.hito.x as int, g.hito.y as int, command, walk_fires(g, dt))
    }
}

/// The cell the player stands on after moving; the pickup stage clears it
/// if it is a power-up.
pub open spec fn picked_item(g: Game, command: Command, dt: u32) -> Chara {
    g.cell(g.hito.y as int, x_after_walk(g, command, dt))
}

/// The player picks up `item` this step.
pub open spec fn picks(g: Game, command: Command, dt: u32, item: Chara) -> bool {
    !g.is_over && picked_item(g, command, dt) == item
}

/// Invulnerability start mark after the pickup stage.
pub open spec fn mutekistart_after(g: Game, command: Command, dt: u32) -> u32 {
    if picks(g, command, dt, Chara::STAR) {
        g.now
    } else {
        g.hito.mutekistart
    }
}

/// Invulnerability flag right after pickup, before expiry is checked.
pub open spec fn muteki_mid(g: Game, command: Command, dt: u32) -> bool {
    g.hito.muteki || picks(g, command, dt, Chara::STAR)
}

/// Invulnerability expires this step, at 100% of its duration.
pub open spec fn muteki_expires(g: Game, command: Command, dt: u32) -> bool {
    &&& !g.is_over
    &&& muteki_mid(g, command, dt)
    &&& g.now - mutekistart_after(g, command, dt) >= MUTEKI_TIME
}

/// Invulnerability flag at the end of the step.
pub open spec fn muteki_after(g: Game, command: Command, dt: u32) -> bool {
    muteki_mid(g, command, dt) && !muteki_expires(g, command, dt)
}

/// Weight flag right after pickup (acquiring the parachute cancels it).
pub open spec fn omori_mid(g: Game, command: Command, dt: u32) -> bool {
    if picks(g, command, dt, Chara::OMORI) {
        true
    } else if picks(g, command, dt, Chara::PARA) {
        false
    } else {
        g.hito.omori
    }
}

/// The weight auto-cancels this step, at 80% of the invulnerability
/// duration, when both are simultaneously active.
pub open spec fn omori_expires(g: Game, command: Command, dt: u32) -> bool {
    &&& !g.is_over
    &&& omori_mid(g, command, dt)
    &&& muteki_mid(g, command, dt)
    &&& g.now - mutekistart_after(g, command, dt) >= MUTEKI_TIME * 4 / 5
}

/// Weight flag at the end of the step.
pub open spec fn omori_after(g: Game, command: Command, dt: u32) -> bool {
    omori_mid(g, command, dt) && !omori_expires(g, command, dt)
}

/// Parachute flag right after pickup (acquiring the weight cancels it).
pub open spec fn para_mid(g: Game, command: Command, dt: u32) -> bool {
    if picks(g, command, dt, Chara::PARA) {
        true
    } else if picks(g, command, dt, Chara::OMORI) {
        false
    } else {
        g.hito.para
    }
}

/// The parachute collapses this step: the cell below is a hazard and
/// invulnerability is not active.
pub open spec fn para_lands(g: Game, command: Command, dt: u32) -> bool {
    &&& !g.is_over
    &&& para_mid(g, command, dt)
    &&& g.cell(g.hito.y + 1, x_after_walk(g, command, dt)) == Chara::HARI
    &&& !muteki_after(g, command, dt)
}

/// Parachute flag at the end of the step.
pub open spec fn para_after(g: Game, command: Command, dt: u32) -> bool {
    para_mid(g, command, dt) && !para_lands(g, command, dt)
}

/// Fall-timer period at the end of the step: power-up pickups change it,
/// and either expiry restores the normal speed.
pub open spec fn fall_wait_after(g: Game, command: Command, dt: u32) -> int {
    if para_lands(g, command, dt) || omori_expires(g, command, dt) {
        wait::FALL as int
    } else if picks(g, command, dt, Chara::PARA) {
        wait::FALL_PARA as int
    } else if picks(g, command, dt, Chara::OMORI) {
        wait::FALL_OMORI as int
    } else {
        g.falltimer.waittime as int
    }
}

/// Breakage of solid ground directly below: one-shot while invulnerable
/// and weighted.
pub open spec fn breaks_ground(g: Game, command: Command, dt: u32) -> bool {
    &&& !g.is_over
    &&& omori_after(g, command, dt)
    &&& muteki_after(g, command, dt)
    &&& g.cell(g.hito.y + 1, x_after_walk(g, command, dt)) == Chara::BLOCK
}

/// Whether the hazard-breakage timer is drained this step (hazards need
/// sustained contact to break).
pub open spec fn breaks_hari(g: Game, command: Command, dt: u32) -> bool {
    &&& !g.is_over
    &&& omori_after(g, command, dt)
    &&& muteki_after(g, command, dt)
    &&& g.cell(g.hito.y + 1, x_after_walk(g, command, dt)) == Chara::HARI
}

/// How many times the cell below is destroyed this step.
pub open spec fn break_count(g: Game, command: Command, dt: u32) -> int {
    if breaks_ground(g, command, dt) {
        1
    } else if breaks_hari(g, command, dt) {
        Timer::fire_count(
            g.hito.haribreaktimer.wait + dt,
            g.hito.haribreaktimer.waittime as int,
        )
    } else {
        0
    }
}

/// Visible-state index after a possible invulnerability expiry.
pub open spec fn num_after_expiry(g: Game, command: Command, dt: u32) -> int {
    if muteki_expires(g, command, dt) {
        0
    } else {
        g.hito.hitonum as int
    }
}

/// `h` after `nf` flash toggles, applied only while the flashing flag is
/// set (a toggle is an involution, so only the parity of `nf` matters).
pub open spec fn flash_toggled(h: int, flashing: bool, nf: int) -> int {
    if flashing && nf % 2 == 1 {
        1 - h
    } else {
        h
    }
}

/// Visible-state index after the flash toggle (one toggle per firing).
pub open spec fn num_after_flash(g: Game, command: Command, dt: u32) -> int {
    let h = num_after_expiry(g, command, dt);
    let nf = Timer::fire_count(g.hito.flashtimer.wait + dt, g.hito.flashtimer.waittime as int);
    flash_toggled(h, g.hito.flashing, nf)
}

/// `h` advanced `k` steps through the shimmer cycle `0..=6`.
pub open spec fn cycled_num(h: int, k: int) -> int {
    if h + k <= 6 {
        h + k
    } else {
        (h + k - 7) % 7
    }
}

/// Visible-state index at the end of the step: while invulnerable, the
/// shimmer timer cycles it through `0..=6` once per firing.
pub open spec fn num_after_shimmer(g: Game, command: Command, dt: u32) -> int {
    let h = num_after_flash(g, command, dt);
    let nm = Timer::fire_count(
        g.hito.mutekiflashtimer.wait + dt,
        g.hito.mutekiflashtimer.waittime as int,
    );
    if muteki_after(g, command, dt) {
        cycled_num(h, nm)
    } else {
        h
    }
}

/// `n` copies of the same break effect.
pub open spec fn repeat_effect(e: Effect, n: int) -> Seq<Effect>
    decreases n,
{
    if n <= 0 {
        Seq::empty()
    } else {
        repeat_effect(e, n - 1).push(e)
    }
}

/// Every entry of `repeat_effect(e, n)` is `e`.
proof fn lemma_repeat_effect_elems(e: Effect, n: int)
    ensures
        repeat_effect(e, n).len() == (if n >= 0 {
            n
        } else {
            0
        }),
        forall|i: int| 0 <= i < repeat_effect(e, n).len() ==> repeat_effect(e, n)[i] == e,
    decreases n,
{
    if n > 0 {
        lemma_repeat_effect_elems(e, n - 1);
    }
}

/// `g` with its running clock advanced by `dt`, before any subsystem has
/// stepped: the state the per-subsystem transition functions are evaluated
/// against during one `update`.
pub open spec fn ticked_clock(g: Game, dt: u32) -> Game {
    Game { now: (g.now + dt) as u32, ..g }
}

/// How many entries of `s` equal `v`.
pub open spec fn count_of<T>(s: Seq<T>, v: T) -> int
    decreases s.len(),
{
    if s.len() == 0 {
        0
    } else {
        count_of(s.drop_last(), v) + (if s.last() == v {
            1int
        } else {
            0
        })
    }
}

/// Appending one entry raises its own count by one and no other.
pub proof fn lemma_count_of_push<T>(s: Seq<T>, v: T, w: T)
    ensures
        count_of(s.push(v), w) == count_of(s, w) + (if v == w {
            1int
        } else {
            0
        }),
{
    assert(s.push(v).drop_last() =~= s);
}

/// Counting distributes over concatenation.
pub proof fn lemma_count_of_concat<T>(a: Seq<T>, b: Seq<T>, w: T)
    ensures
        count_of(a + b, w) == count_of(a, w) + count_of(b, w),
    decreases b.len(),
{
    if b.len() == 0 {
        assert(a + b =~= a);
    } else {
        lemma_count_of_concat(a, b.drop_last(), w);
        assert((a + b).drop_last() =~= a + b.drop_last());
        assert((a + b).last() == b.last());
    }
}

/// A singleton counts one for its own entry and zero for any other.
pub proof fn lemma_count_of_single<T>(v: T, w: T)
    ensures
        count_of(seq![v], w) == (if v == w {
            1int
        } else {
            0
        }),
{
    assert(count_of(Seq::<T>::empty(), w) == 0);
    assert(seq![v].drop_last() =~= Seq::<T>::empty());
    assert(seq![v].last() == v);
}

/// A repeated sound contributes nothing to the count of a different one.
pub proof fn lemma_count_of_repeat_sound(v: Sound, n: int, w: Sound)
    requires
        v != w,
    ensures
        count_of(repeat_sound(v, n), w) == 0,
    decreases n,
{
    if n > 0 {
        lemma_count_of_repeat_sound(v, n - 1, w);
        lemma_count_of_push(repeat_sound(v, n - 1), v, w);
    }
}

/// `n` copies of the same sound cue.
pub open spec fn repeat_sound(snd: Sound, n: int) -> Seq<Sound>
    decreases n,
{
    if n <= 0 {
        Seq::empty()
    } else {
        repeat_sound(snd, n - 1).push(snd)
    }
}

/// The high-score list after recording `v`: insert in descending order,
/// truncate to the top `HIGHSCORES` entries.
pub open spec fn highscore_after(s: Seq<i32>, v: i32) -> Seq<i32> {
    let ins = insert_desc(s, v);
    if ins.len() <= HIGHSCORES {
        ins
    } else {
        ins.take(HIGHSCORES as int)
    }
}

/// Law: the parachute and weight power-up flags are mutually exclusive in
/// every well-formed game state, and every verified mutator of `Game`
/// preserves well-formedness.
pub proof fn lemma_para_omori_exclusive(g: Game)
    requires
        g.wf(),
    ensures
        !(g.hito.para && g.hito.omori),
{
}

/// Inserting always grows the list by one entry.
pub proof fn lemma_insert_desc_len(s: Seq<i32>, v: i32)
    ensures
        insert_desc(s, v).len() == s.len() + 1,
    decreases s.len(),
{
    if s.len() > 0 && !(v >= s[0]) {
        lemma_insert_desc_len(s.drop_first(), v);
    }
}

/// The inserted value is kept.
pub proof fn lemma_insert_desc_contains(s: Seq<i32>, v: i32)
    ensures
        insert_desc(s, v).contains(v),
    decreases s.len(),
{
    if s.len() == 0 {
        assert(insert_desc(s, v)[0] == v);
    } else if v >= s[0] {
        assert(insert_desc(s, v)[0] == v);
    } else {
        lemma_insert_desc_contains(s.drop_first(), v);
        let rest = insert_desc(s.drop_first(), v);
        let i = choose|i: int| 0 <= i < rest.len() && rest[i] == v;
        assert(insert_desc(s, v)[i + 1] == v);
    }
}

/// Law: recording a score into a high-score list that is not yet full
/// always keeps that score in the list.
pub proof fn lemma_highscore_keeps_score(s: Seq<i32>, v: i32)
    requires
        s.len() < HIGHSCORES,
    ensures
        highscore_after(s, v).contains(v),
{
    lemma_insert_desc_len(s, v);
    lemma_insert_desc_contains(s, v);
}

/// Inserting `v` into a descending-sorted sequence at the first position
/// holding a strictly smaller entry yields `insert_desc`.
proof fn lemma_insert_desc_at(s: Seq<i32>, v: i32, idx: int)
    requires
        sorted_desc(s),
        0 <= idx <= s.len(),
        forall|j: int| 0 <= j < idx ==> s[j] >= v,
        idx < s.len() ==> s[idx] < v,
    ensures
        insert_desc(s, v) == s.insert(idx, v),
    decreases s.len(),
{
    if idx == 0 {
        assert(insert_desc(s, v) =~= s.insert(0, v));
    } else if v >= s[0] {
        // Every skipped entry equals `v`, so inserting before or after the
        // run of equals yields the same sequence.
        assert forall|j: int| 0 <= j < idx implies s[j] == v by {
            assert(s[0] >= s[j]);
        }
        assert(insert_desc(s, v) =~= s.insert(idx, v));
    } else {
        let rest = s.drop_first();
        assert(sorted_desc(rest)) by {
            assert(forall|i: int, j: int|
                0 <= i <= j < rest.len() ==> rest[i] == s[i + 1] && rest[j] == s[j + 1]);
        }
        assert(forall|j: int| 0 <= j < idx - 1 ==> #[trigger] rest[j] == s[j + 1]);
        lemma_insert_desc_at(rest, v, idx - 1);
        assert(insert_desc(s, v) =~= s.insert(idx, v));
    }
}

/// One all-empty grid row.
fn empty_row() -> (row: Vec<Chara>)
    ensures
        row@.len() == field::WID,
        forall|x: int| 0 <= x < field::WID ==> row@[x] == Chara::EMPTY,
{
    let mut row: Vec<Chara> = Vec::new();
    while row.len() < field::WID as usize
        invariant
            row@.len() <= field::WID,
            forall|x: int| 0 <= x < row@.len() ==> row@[x] == Chara::EMPTY,
        decreases field::WID - row.len(),
    {
        row.push(Chara::EMPTY);
    }
    row
}

} // verus!
