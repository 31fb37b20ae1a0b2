use down_core::field;
use down_core::game::Game;
use down_core::kinds::{Chara, Command, MusicCommand, Sound};
use down_core::wait;

/// A fresh game whose terrain has been wiped, so tests control the grid.
fn blank_game(seed: u64) -> Game {
    let mut g = Game::new(seed);
    for y in 0..field::HEI as usize {
        for x in 0..field::WID as usize {
            g.data[y][x] = Chara::EMPTY;
        }
    }
    g
}

#[test]
fn walk_left_one_column_per_walk_period() {
    // Player at column 8 (of width 18); MoveLeft with dt equal to the walk
    // period moves one column per call until column 0, then stays.
    let mut g = blank_game(11);
    assert_eq!(g.hito.x, 8);
    for expected in (0..8).rev() {
        g.update_hito(Command::Left, wait::WALK as u32);
        assert_eq!(g.hito.x, expected);
    }
    for _ in 0..3 {
        g.update_hito(Command::Left, wait::WALK as u32);
        assert_eq!(g.hito.x, 0);
    }
}

#[test]
fn walk_catches_up_after_a_stall() {
    // A single large delta fires the walk timer several times: three walk
    // periods in one call move three columns.
    let mut g = blank_game(11);
    g.update_hito(Command::Left, 3 * wait::WALK as u32);
    assert_eq!(g.hito.x, 5);
}

#[test]
fn walk_blocked_by_solid_ground() {
    let mut g = blank_game(11);
    g.data[g.hito.y as usize][(g.hito.x - 1) as usize] = Chara::BLOCK;
    g.update_hito(Command::Left, wait::WALK as u32);
    assert_eq!(g.hito.x, 8);
    g.update_hito(Command::Right, wait::WALK as u32);
    assert_eq!(g.hito.x, 9);
}

#[test]
fn hazard_below_drains_life_once_per_damage_period() {
    // Hazard row directly below an unprotected player: life decreases by
    // exactly 1 per damage period; once invulnerable, it stops.
    let mut g = blank_game(22);
    let below = (g.hito.y + 1) as usize;
    for x in 0..field::WID as usize {
        g.data[below][x] = Chara::HARI;
    }
    for expected in (90..100).rev() {
        g.update_damage(wait::DAMAGE as u32);
        assert_eq!(g.life, expected);
    }
    assert!(g.gauge.damaging);
    assert!(g.hito.flashing);
    assert_eq!(
        g.requested_sounds,
        vec![Sound::Damage; 10],
        "one damage sound per firing"
    );
    assert_eq!(Sound::Damage.filename(), "damage.wav");

    g.hito.muteki = true;
    for _ in 0..10 {
        g.update_damage(wait::DAMAGE as u32);
        assert_eq!(g.life, 90);
    }
    assert!(!g.gauge.damaging);
    assert!(!g.hito.flashing);
}

#[test]
fn life_never_drops_below_zero() {
    let mut g = blank_game(22);
    let below = (g.hito.y + 1) as usize;
    for x in 0..field::WID as usize {
        g.data[below][x] = Chara::HARI;
    }
    g.life = 3;
    g.update_damage(10 * wait::DAMAGE as u32);
    assert_eq!(g.life, 0);
}

#[test]
fn game_over_fires_once_then_epilogue_records_score() {
    // Life reaching 0 flips isOver on that update and enqueues the
    // game-over sound and halt-music command exactly once; later updates
    // only run the epilogue timer, and its single firing records the score.
    let mut g = blank_game(33);
    let below = (g.hito.y + 1) as usize;
    for x in 0..field::WID as usize {
        g.data[below][x] = Chara::HARI;
    }
    g.life = 1;
    g.score = 4;
    g.update(Command::Neutral, wait::DAMAGE as u32);
    assert_eq!(g.life, 0);
    assert!(g.is_over);
    assert!(g.hito.flashing);
    let gameovers =
        g.requested_sounds.iter().filter(|s| **s == Sound::GameOver).count();
    let halts =
        g.requested_musics.iter().filter(|m| **m == MusicCommand::Halt).count();
    assert_eq!(gameovers, 1);
    assert_eq!(halts, 1);
    assert_eq!(Sound::GameOver.filename(), "gameover.wav");
    assert_eq!(MusicCommand::Halt.name(), "halt");

    // Frozen while the epilogue counts down: no new cues, no score change,
    // no terrain change.
    let sounds_len = g.requested_sounds.len();
    let musics_len = g.requested_musics.len();
    let grid_before = g.data.clone();
    g.update(Command::Left, 100);
    assert_eq!(g.requested_sounds.len(), sounds_len);
    assert_eq!(g.requested_musics.len(), musics_len);
    assert_eq!(g.score, 4);
    assert_eq!(g.data, grid_before);
    assert!(!g.hito.hide);
    assert!(g.highscore.is_empty());

    // The epilogue timer fires once after its fixed duration.
    g.update(Command::Neutral, (wait::GAMEOVER - 100) as u32);
    assert!(g.hito.hide);
    assert_eq!(g.highscore, vec![4]);
}

#[test]
fn update_advances_clock_and_scrolls() {
    let mut g = blank_game(44);
    g.update(Command::Neutral, wait::FALL as u32);
    assert_eq!(g.now, wait::FALL as u32);
    assert_eq!(g.score, 1, "one fall period, one scroll, one point");
    g.update(Command::Neutral, 3 * wait::FALL as u32);
    assert_eq!(g.score, 4, "catch-up: three periods in one delta");
}
