//! The closed sets of discrete values the simulation works with: player
//! commands, cell kinds, effect kinds, and the identifiers of the outbound
//! sound and music cues.

use vstd::prelude::*;

verus! {

/// One discrete player command per invocation; at most one direction.
#[derive(Debug, Clone, Copy, Eq, PartialEq, Structural)]
pub enum Command {
    Neutral,
    Left,
    Right,
}

/// One cell of the shaft grid.
#[derive(Debug, Clone, Copy, Eq, PartialEq, Structural)]
pub enum Chara {
    /// Empty space.
    EMPTY,
    /// Solid ground.
    BLOCK,
    /// A hazard: damages an unprotected player standing on it.
    HARI,
    /// Invulnerability power-up.
    STAR,
    /// Parachute power-up.
    PARA,
    /// Weight power-up.
    OMORI,
}

/// A cell the player can move into or fall through: empty space or any
/// power-up.  Hazards and solid ground are not passable.
pub open spec fn passable(c: Chara) -> bool {
    c == Chara::EMPTY || c == Chara::STAR || c == Chara::PARA || c == Chara::OMORI
}

/// Kind of a transient visual effect.
#[derive(Debug, Clone, Copy, Eq, PartialEq, Structural)]
pub enum EffectType {
    /// Ground or hazard destroyed while invulnerable and weighted.
    BREAK,
    /// Parachute landing on a hazard.
    PANG,
}

/// Sound cues appended during an update and drained by the audio shell.
#[derive(Debug, Clone, Copy, Eq, PartialEq, Structural)]
pub enum Sound {
    Damage,
    Muteki,
    GetPara,
    GetOmori,
    Spank,
    Break,
    Foot,
    GameOver,
}

impl Sound {
    /// File name of the sample the audio shell plays for this cue.
    pub fn filename(self) -> (r: &'static str)
        ensures
            self == Sound::Damage ==> r@ == "damage.wav"@,
            self == Sound::Muteki ==> r@ == "muteki.wav"@,
            self == Sound::GetPara ==> r@ == "getpara.wav"@,
            self == Sound::GetOmori ==> r@ == "getomori.wav"@,
            self == Sound::Spank ==> r@ == "spank.wav"@,
            self == Sound::Break ==> r@ == "break.wav"@,
            self == Sound::Foot ==> r@ == "foot.wav"@,
            self == Sound::GameOver ==> r@ == "gameover.wav"@,
    {
        match self {
            Sound::Damage => "damage.wav",
            Sound::Muteki => "muteki.wav",
            Sound::GetPara => "getpara.wav",
            Sound::GetOmori => "getomori.wav",
            Sound::Spank => "spank.wav",
            Sound::Break => "break.wav",
            Sound::Foot => "foot.wav",
            Sound::GameOver => "gameover.wav",
        }
    }
}

/// Commands for the external music player, drained after each frame.
#[derive(Debug, Clone, Copy, Eq, PartialEq, Structural)]
pub enum MusicCommand {
    Halt,
    Pause,
    Resume,
}

impl MusicCommand {
    /// The identifier the music shell matches on.
    pub fn name(self) -> (r: &'static str)
        ensures
            self == MusicCommand::Halt ==> r@ == "halt"@,
            self == MusicCommand::Pause ==> r@ == "pause"@,
            self == MusicCommand::Resume ==> r@ == "resume"@,
    {
        match self {
            MusicCommand::Halt => "halt",
            MusicCommand::Pause => "pause",
            MusicCommand::Resume => "resume",
        }
    }
}

} // verus!
