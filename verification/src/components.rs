use vstd::prelude::*;

verus! {

// --- Game State ---

/// The three phases of a game: playing a wave, the pause between waves, and
/// the game-over screen.
#[derive(Clone, Copy, Debug, PartialEq, Eq, Hash, Structural)]
pub enum GameState {
    Playing,
    GameOver,
    WaveTransition,
}

impl Default for GameState {
    fn default() -> (state: Self)
        ensures
            state == GameState::Playing,
    {
        GameState::Playing
    }
}

/// The player's score in the current game.
#[derive(Clone, Copy, Debug, PartialEq, Eq, Structural)]
pub struct Score {
    pub value: u32,
}

impl Default for Score {
    fn default() -> (score: Self)
        ensures
            score.value == 0,
    {
        Score { value: 0 }
    }
}

/// High score persists across games within a session.
#[derive(Clone, Copy, Debug, PartialEq, Eq, Structural)]
pub struct HighScore {
    pub value: u32,
}

impl Default for HighScore {
    fn default() -> (high: Self)
        ensures
            high.value == 0,
    {
        HighScore { value: 0 }
    }
}

// --- Lives ---

/// Number of lives a game starts with.
pub const STARTING_LIVES: u32 = 3;

/// Lives the player has left.
#[derive(Clone, Copy, Debug, PartialEq, Eq, Structural)]
pub struct Lives {
    pub count: u32,
}

impl Default for Lives {
    fn default() -> (lives: Self)
        ensures
            lives.count == STARTING_LIVES,
    {
        Lives { count: STARTING_LIVES }
    }
}

// --- Wave System ---

/// The wave being played, counted from 1.
#[derive(Clone, Copy, Debug, PartialEq, Eq, Structural)]
pub struct CurrentWave {
    pub wave: u32,
}

impl Default for CurrentWave {
    fn default() -> (current: Self)
        ensures
            current.wave == 1,
    {
        CurrentWave { wave: 1 }
    }
}

/// Formation size of every wave: 5 rows of 11 aliens, like the original.
pub const FORMATION_ROWS: usize = 5;

pub const FORMATION_COLS: usize = 11;

/// Tracks how many enemies were in the wave at spawn time,
/// used to calculate dynamic speed-up.
#[derive(Clone, Copy, Debug, PartialEq, Eq, Structural)]
pub struct InitialEnemyCount {
    pub count: u32,
}

impl Default for InitialEnemyCount {
    fn default() -> (initial: Self)
        ensures
            initial.count == 55,
    {
        InitialEnemyCount { count: 55 }
    }
}

/// Configuration of one wave. Speeds, intervals and offsets are exact
/// decimal quantities, held as integers in the unit their name gives:
/// a `base_speed_hundredths` of 175 is a speed of 1.75 units per second.
#[derive(Clone, Copy, Debug, PartialEq, Eq, Structural)]
pub struct WaveConfig {
    /// Base horizontal speed of the formation, in hundredths of a unit per second.
    pub base_speed_hundredths: u32,
    /// Time between enemy shots, in hundredths of a second.
    pub shoot_interval_hundredths: u32,
    pub rows: usize,
    pub cols: usize,
    /// How much closer to the player the formation starts, in tenths of a unit.
    pub z_offset_tenths: u32,
}

/// Number of waves already completed before `wave`, capped at `cap`:
/// `min(wave - 1, cap)`, with wave 0 counted like wave 1.
pub open spec fn capped_waves_done(wave: u32, cap: u32) -> int {
    let done: int = if wave == 0 { 0 } else { wave - 1 };
    if done < cap { done } else { cap as int }
}

/// Base speed of a wave in hundredths: 1.5 plus 0.25 per completed wave,
/// the increase stopping after 12 waves.
pub open spec fn spec_base_speed_hundredths(wave: u32) -> int {
    150 + 25 * capped_waves_done(wave, 12)
}

/// Shot interval of a wave in hundredths: 1.6 minus 0.08 per completed wave,
/// the decrease stopping after 10 waves, and never below 0.5.
pub open spec fn spec_shoot_interval_hundredths(wave: u32) -> int {
    let raw = 160 - 8 * capped_waves_done(wave, 10);
    if raw < 50 { 50 } else { raw }
}

/// Starting offset toward the player in tenths: 0.5 per completed wave,
/// stopping after 8 waves.
pub open spec fn spec_z_offset_tenths(wave: u32) -> int {
    5 * capped_waves_done(wave, 8)
}

/// The configuration of wave `wave`.
pub open spec fn spec_wave_config(wave: u32) -> WaveConfig {
    WaveConfig {
        base_speed_hundredths: spec_base_speed_hundredths(wave) as u32,
        shoot_interval_hundredths: spec_shoot_interval_hundredths(wave) as u32,
        rows: FORMATION_ROWS,
        cols: FORMATION_COLS,
        z_offset_tenths: spec_z_offset_tenths(wave) as u32,
    }
}

/// Waves completed before `wave`, capped at `cap` (the `saturating_sub(1)`
/// then `min(cap)` of the wave table).
fn waves_done_capped(wave: u32, cap: u32) -> (done: u32)
    ensures
        done == capped_waves_done(wave, cap),
{
    let done = wave.saturating_sub(1);
    if done < cap {
        done
    } else {
        cap
    }
}

/// Returns configuration for a given wave number.
/// Formation is always 5×11 (like the original).
/// Each successive wave starts aliens slightly closer to the player
/// and increases base speed and fire rate.
pub fn wave_config(wave: u32) -> (config: WaveConfig)
    ensures
        config == spec_wave_config(wave),
        config.base_speed_hundredths == spec_base_speed_hundredths(wave),
        config.shoot_interval_hundredths == spec_shoot_interval_hundredths(wave),
        config.rows == FORMATION_ROWS,
        config.cols == FORMATION_COLS,
        config.z_offset_tenths == spec_z_offset_tenths(wave),
{
    let z_steps = waves_done_capped(wave, 8);
    let speed_steps = waves_done_capped(wave, 12);
    let interval_steps = waves_done_capped(wave, 10);
    let raw_interval = 160 - 8 * interval_steps;
    let shoot_interval = if raw_interval < 50 {
        50
    } else {
        raw_interval
    };
    WaveConfig {
        base_speed_hundredths: 150 + 25 * speed_steps,
        shoot_interval_hundredths: shoot_interval,
        rows: FORMATION_ROWS,
        cols: FORMATION_COLS,
        z_offset_tenths: 5 * z_steps,
    }
}

/// Later waves are never easier: the formation starts no farther away,
/// moves no slower and fires no less often, and each quantity stays within
/// the bounds of the wave table.
pub proof fn lemma_wave_config_monotone(w1: u32, w2: u32)
    requires
        w1 <= w2,
    ensures
        spec_base_speed_hundredths(w1) <= spec_base_speed_hundredths(w2),
        spec_shoot_interval_hundredths(w1) >= spec_shoot_interval_hundredths(w2),
        spec_z_offset_tenths(w1) <= spec_z_offset_tenths(w2),
        150 <= spec_base_speed_hundredths(w2) <= 450,
        80 <= spec_shoot_interval_hundredths(w2) <= 160,
        0 <= spec_z_offset_tenths(w2) <= 40,
{
}

/// Each successive wave starts the aliens closer, moves them faster and
/// fires more often, as long as the table still grows: the offset grows up
/// to wave 9, the speed up to wave 13, the fire rate up to wave 11.
pub proof fn lemma_next_wave_harder(w: u32)
    requires
        1 <= w,
    ensures
        w < 9 ==> spec_z_offset_tenths(w) < spec_z_offset_tenths((w + 1) as u32),
        w < 13 ==> spec_base_speed_hundredths(w) < spec_base_speed_hundredths((w + 1) as u32),
        w < 11 ==> spec_shoot_interval_hundredths((w + 1) as u32) < spec_shoot_interval_hundredths(
            w,
        ),
{
}

/// The arcade point table by formation row: row 0 (squid) is worth 30,
/// rows 1 and 2 (crab) are worth 20, every other row (octopus) is worth 10.
/// A bullet's hit is scored by `game::enemy_kill_points`, which runs the
/// other way round.
pub open spec fn spec_points_for_row(row: int) -> u32 {
    if row == 0 {
        30
    } else if row == 1 || row == 2 {
        20
    } else {
        10
    }
}

/// Points per formation row, matching the original arcade table:
/// row 0 = 30 pts (squid), rows 1–2 = 20 pts (crab), rows 3–4 = 10 pts
/// (octopus).
pub fn points_for_row(row: usize) -> (points: u32)
    ensures
        points == spec_points_for_row(row as int),
{
    match row {
        0 => 30,
        1 | 2 => 20,
        _ => 10,
    }
}

/// Maximum number of enemy bullets on screen at once (original had 3).
pub const MAX_ENEMY_BULLETS: usize = 3;

} // verus!
