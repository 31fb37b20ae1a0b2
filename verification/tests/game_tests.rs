use down_core::field;
use down_core::game::Game;
use down_core::kinds::{Chara, Command, EffectType, MusicCommand, Sound};
use down_core::wait;

/// A fresh game whose terrain has been wiped, so tests control the grid.
fn blank_game(seed: u64) -> Game {
    let mut g = Game::new(seed);
    for y in 0..field::HEI as usize {
        for x in 0..field::WID as usize {
            g.data[y][x] = Chara::EMPTY;
        }
    }
    g
}

#[test]
fn new_game_initial_state() {
    let g = Game::new(12345);
    assert!(!g.is_over);
    assert_eq!(g.life, 100);
    assert_eq!(g.score, 0);
    assert_eq!(g.hito.x, field::WID / 2 - 1);
    assert_eq!(g.hito.y, field::HEI / 2);
    assert!(!g.hito.muteki && !g.hito.para && !g.hito.omori);
    assert!(g.requested_sounds.is_empty());
    assert!(g.requested_musics.is_empty());
    assert!(g.highscore.is_empty());
    assert_eq!(g.falltimer.waittime, wait::FALL);
    // All rows but the bottom one are empty.
    for y in 0..(field::HEI - 1) as usize {
        for x in 0..field::WID as usize {
            assert_eq!(g.data[y][x], Chara::EMPTY);
        }
    }
}

#[test]
fn same_seed_same_terrain() {
    let a = Game::new(777);
    let b = Game::new(777);
    for x in 0..field::WID as usize {
        assert_eq!(a.data[(field::HEI - 1) as usize][x], b.data[(field::HEI - 1) as usize][x]);
    }
}

#[test]
fn generated_run_fits_and_is_uniform() {
    // The run's start column is always within [0, width - runWidth] and
    // every generated run is entirely one cell kind.
    for seed in 0..60u64 {
        let mut g = blank_game(seed);
        let (pos, kind) = g.generate_floor();
        assert!(0 <= pos && pos <= field::WID - field::FLOORWID);
        assert!(kind == Chara::HARI || kind == Chara::BLOCK);
        let bottom = (field::HEI - 1) as usize;
        for x in 0..field::WID {
            let expected = if pos <= x && x < pos + field::FLOORWID { kind } else { Chara::EMPTY };
            assert_eq!(g.data[bottom][x as usize], expected);
        }
    }
}

#[test]
fn rand_stays_below_bound() {
    let mut g = Game::new(9);
    for _ in 0..200 {
        let v = g.rand(7);
        assert!(0 <= v && v < 7);
    }
    // A constant or echoed-argument source would fail this: 200 draws from
    // seven values must not all collide.
    let first = g.rand(1_000_000);
    let mut all_same = true;
    for _ in 0..20 {
        if g.rand(1_000_000) != first {
            all_same = false;
        }
    }
    assert!(!all_same);
}

#[test]
fn items_only_over_ground_runs() {
    // Power-ups appear only in the row above a freshly generated run, at
    // its centre, and never above a hazard run.
    let mut seen_item = false;
    for seed in 0..300u64 {
        let mut g = blank_game(seed);
        g.isfloor = true;
        assert!(g.scroll());
        let above = (field::HEI - 2) as usize;
        let bottom = (field::HEI - 1) as usize;
        let mut items = Vec::new();
        for x in 0..field::WID as usize {
            match g.data[above][x] {
                Chara::STAR | Chara::PARA | Chara::OMORI => items.push(x),
                Chara::EMPTY => {}
                other => panic!("unexpected cell above the run: {:?}", other),
            }
        }
        assert!(items.len() <= 1);
        if let Some(&x) = items.first() {
            seen_item = true;
            // Directly above the run, at the fixed offset from its start.
            assert_eq!(g.data[bottom][x], Chara::BLOCK);
            let pos = (0..field::WID as usize)
                .find(|&c| g.data[bottom][c] != Chara::EMPTY)
                .unwrap();
            assert_eq!(x, pos + (field::FLOORWID / 2) as usize);
            for c in 0..field::FLOORWID as usize {
                assert_eq!(g.data[bottom][pos + c], Chara::BLOCK);
            }
        }
    }
    assert!(seen_item);
}

#[test]
fn scroll_scores_exactly_one() {
    let mut g = blank_game(3);
    let before = g.score;
    assert!(g.scroll());
    assert_eq!(g.score, before + 1);
}

#[test]
fn scroll_refused_on_solid_ground() {
    let mut g = blank_game(3);
    let below = (g.hito.y + 1) as usize;
    g.data[below][g.hito.x as usize] = Chara::BLOCK;
    let before = g.score;
    assert!(!g.scroll());
    assert_eq!(g.score, before);
    assert!(g.requested_sounds.is_empty());
}

#[test]
fn scroll_shifts_rows_up() {
    let mut g = blank_game(3);
    g.isfloor = false;
    g.data[20][4] = Chara::HARI;
    assert!(g.scroll());
    assert_eq!(g.data[19][4], Chara::HARI);
    assert_eq!(g.data[20][4], Chara::EMPTY);
    for x in 0..field::WID as usize {
        assert_eq!(g.data[(field::HEI - 1) as usize][x], Chara::EMPTY);
    }
}

#[test]
fn footstep_after_landing() {
    let mut g = blank_game(3);
    g.isfloor = false;
    // Ground two rows below the player scrolls up under the player's feet.
    g.data[(g.hito.y + 2) as usize][g.hito.x as usize] = Chara::BLOCK;
    assert!(g.scroll());
    assert_eq!(g.requested_sounds, vec![Sound::Foot]);
    assert_eq!(Sound::Foot.filename(), "foot.wav");
}

#[test]
fn pickup_star_starts_invulnerability() {
    let mut g = blank_game(5);
    g.now = 1000;
    g.data[g.hito.y as usize][g.hito.x as usize] = Chara::STAR;
    g.update_hito(Command::Neutral, 0);
    assert!(g.hito.muteki);
    assert_eq!(g.hito.mutekistart, 1000);
    assert_eq!(g.data[g.hito.y as usize][g.hito.x as usize], Chara::EMPTY);
    assert_eq!(g.requested_sounds, vec![Sound::Muteki]);
    assert_eq!(g.requested_musics, vec![MusicCommand::Pause]);
    assert_eq!(Sound::Muteki.filename(), "muteki.wav");
    assert_eq!(MusicCommand::Pause.name(), "pause");
}

#[test]
fn pickup_para_slows_fall_and_cancels_weight() {
    let mut g = blank_game(5);
    g.hito.omori = false;
    g.data[g.hito.y as usize][g.hito.x as usize] = Chara::PARA;
    g.update_hito(Command::Neutral, 0);
    assert!(g.hito.para && !g.hito.omori);
    assert_eq!(g.falltimer.waittime, wait::FALL_PARA);
    assert_eq!(g.requested_sounds, vec![Sound::GetPara]);
}

#[test]
fn pickup_omori_speeds_fall_and_cancels_parachute() {
    let mut g = blank_game(5);
    g.hito.para = true;
    g.data[g.hito.y as usize][g.hito.x as usize] = Chara::OMORI;
    g.update_hito(Command::Neutral, 0);
    assert!(g.hito.omori && !g.hito.para);
    assert_eq!(g.falltimer.waittime, wait::FALL_OMORI);
    assert_eq!(g.requested_sounds, vec![Sound::GetOmori]);
}

#[test]
fn invulnerability_expires_after_its_duration() {
    let mut g = blank_game(5);
    g.hito.muteki = true;
    g.hito.mutekistart = 0;
    g.now = down_core::MUTEKI_TIME as u32;
    g.update_hito(Command::Neutral, 0);
    assert!(!g.hito.muteki);
    assert_eq!(g.hito.hitonum, 0);
    assert_eq!(g.requested_musics, vec![MusicCommand::Resume]);
}

#[test]
fn weight_expires_at_eighty_percent_of_invulnerability() {
    let mut g = blank_game(5);
    g.hito.muteki = true;
    g.hito.omori = true;
    g.hito.mutekistart = 0;
    g.falltimer.set_wait(wait::FALL_OMORI);
    g.now = (down_core::MUTEKI_TIME * 4 / 5) as u32;
    g.update_hito(Command::Neutral, 0);
    assert!(!g.hito.omori);
    assert!(g.hito.muteki);
    assert_eq!(g.falltimer.waittime, wait::FALL);
}

#[test]
fn parachute_collapses_on_hazard() {
    let mut g = blank_game(5);
    g.hito.para = true;
    g.falltimer.set_wait(wait::FALL_PARA);
    g.data[(g.hito.y + 1) as usize][g.hito.x as usize] = Chara::HARI;
    g.update_hito(Command::Neutral, 0);
    assert!(!g.hito.para);
    assert_eq!(g.falltimer.waittime, wait::FALL);
    assert_eq!(g.requested_sounds, vec![Sound::Spank]);
    assert_eq!(g.effects.len(), 1);
    assert!(matches!(g.effects[0]._type, EffectType::PANG));
    assert_eq!((g.effects[0].x, g.effects[0].y), (g.hito.x, g.hito.y));
}

#[test]
fn invulnerable_weight_breaks_ground_immediately() {
    let mut g = blank_game(5);
    g.hito.muteki = true;
    g.hito.mutekistart = 0;
    g.now = 0;
    g.hito.omori = true;
    let below = (g.hito.y + 1) as usize;
    g.data[below][g.hito.x as usize] = Chara::BLOCK;
    g.update_hito(Command::Neutral, 0);
    assert_eq!(g.data[below][g.hito.x as usize], Chara::EMPTY);
    assert_eq!(g.requested_sounds, vec![Sound::Break]);
    assert_eq!(g.effects.len(), 1);
    assert!(matches!(g.effects[0]._type, EffectType::BREAK));
}

#[test]
fn hazard_breaks_only_after_sustained_contact() {
    let mut g = blank_game(5);
    g.hito.muteki = true;
    g.hito.mutekistart = 0;
    g.now = 0;
    g.hito.omori = true;
    let below = (g.hito.y + 1) as usize;
    g.data[below][g.hito.x as usize] = Chara::HARI;
    g.update_hito(Command::Neutral, (wait::HARIBREAK - 1) as u32);
    assert_eq!(g.data[below][g.hito.x as usize], Chara::HARI);
    g.update_hito(Command::Neutral, 1);
    assert_eq!(g.data[below][g.hito.x as usize], Chara::EMPTY);
    assert_eq!(g.requested_sounds, vec![Sound::Break]);
}

#[test]
fn field_break_clears_cell_and_spawns_effect() {
    let mut g = blank_game(8);
    g.data[16][5] = Chara::BLOCK;
    g.field_break(5, 16);
    assert_eq!(g.data[16][5], Chara::EMPTY);
    assert_eq!(g.requested_sounds, vec![Sound::Break]);
    assert_eq!(g.effects.len(), 1);
    assert_eq!((g.effects[0].x, g.effects[0].y), (5, 16));
    assert_eq!(Sound::Break.filename(), "break.wav");
}

#[test]
fn break_in_top_row_leaves_a_dead_marker() {
    // At the top boundary the breakage marker is born already expired, the
    // same rule that removes effects scrolled past the top.
    let mut g = blank_game(8);
    g.data[0][3] = Chara::BLOCK;
    g.field_break(3, 0);
    assert_eq!(g.data[0][3], Chara::EMPTY);
    assert_eq!(g.requested_sounds, vec![Sound::Break]);
    assert_eq!(g.effects.len(), 1);
    assert!(g.effects[0].dead);
    g.update_effects(0);
    assert!(g.effects.is_empty());
}

#[test]
fn effects_animate_and_die() {
    let mut g = blank_game(8);
    g.field_break(5, 16);
    g.update_effects(149);
    assert_eq!(g.effects.len(), 1);
    assert_eq!(g.effects[0].state, 0);
    g.update_effects(1);
    assert_eq!(g.effects[0].state, 1);
    // Two more firings reach the terminal state count and the effect is
    // purged.
    g.update_effects(300);
    assert!(g.effects.is_empty());
}

#[test]
fn effects_scroll_with_terrain_and_die_at_the_top() {
    let mut g = blank_game(8);
    g.field_break(5, 2);
    assert!(g.scroll());
    assert_eq!(g.effects[0].y, 1);
    assert!(!g.effects[0].dead);
    assert!(g.scroll());
    assert_eq!(g.effects[0].y, 0);
    assert!(g.effects[0].dead);
    g.update_effects(0);
    assert!(g.effects.is_empty());
}

#[test]
fn highscores_sorted_and_bounded() {
    let mut g = blank_game(1);
    for s in [30, 50, 40, 10, 20, 60, 5, 25, 35, 45] {
        g.score = s;
        g.add_highscore();
    }
    assert_eq!(g.highscore, vec![60, 50, 45, 40, 35, 30, 25, 20, 10, 5]);
    g.score = 33;
    g.add_highscore();
    assert_eq!(g.highscore, vec![60, 50, 45, 40, 35, 33, 30, 25, 20, 10]);
    g.score = 1;
    g.add_highscore();
    // A score below the full top list is dropped again.
    assert_eq!(g.highscore, vec![60, 50, 45, 40, 35, 33, 30, 25, 20, 10]);
}

#[test]
fn flash_toggles_visible_state_per_firing() {
    let mut g = blank_game(2);
    g.hito.start_flashing();
    g.update_hito(Command::Neutral, wait::HITOFLASH as u32);
    assert_eq!(g.hito.hitonum, 1);
    g.update_hito(Command::Neutral, wait::HITOFLASH as u32);
    assert_eq!(g.hito.hitonum, 0);
    g.hito.stop_flashing();
    g.update_hito(Command::Neutral, wait::HITOFLASH as u32);
    assert_eq!(g.hito.hitonum, 0);
}

#[test]
fn invulnerability_shimmer_cycles_through_seven_states() {
    let mut g = blank_game(2);
    g.hito.muteki = true;
    g.hito.mutekistart = 0;
    g.now = 0;
    g.update_hito(Command::Neutral, 3 * wait::MUTEKIFLASH as u32);
    assert_eq!(g.hito.hitonum, 3);
    g.update_hito(Command::Neutral, 4 * wait::MUTEKIFLASH as u32);
    assert_eq!(g.hito.hitonum, 0, "after seven firings the cycle wraps");
}

#[test]
fn gauge_flash_alternates_red_phase() {
    let mut g = blank_game(2);
    let below = (g.hito.y + 1) as usize;
    g.data[below][g.hito.x as usize] = Chara::HARI;
    g.update_damage(wait::GAUGEFLASH as u32);
    assert!(g.gauge.is_red);
    g.update_damage(wait::GAUGEFLASH as u32);
    assert!(!g.gauge.is_red);
}

#[test]
fn fps_counter_publishes_once_per_second() {
    let mut g = blank_game(1);
    assert_eq!(g.system.fps, 0);
    g.update(Command::Neutral, 500);
    g.update(Command::Neutral, 500);
    assert_eq!(g.system.fps, 2);
    assert_eq!(g.system.count, 0);
}
