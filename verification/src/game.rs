use vstd::prelude::*;

use crate::components::{CurrentWave, GameState, HighScore, Lives, Score, STARTING_LIVES};

verus! {

/// Points a player bullet earns for the alien it hits, by formation row:
/// row 0 is worth 10, rows 1 and 2 are worth 20, every other row is worth 30.
pub open spec fn spec_enemy_kill_points(row: int) -> u32 {
    if row == 0 {
        10
    } else if row == 1 || row == 2 {
        20
    } else {
        30
    }
}

/// Points a player bullet earns for an alien of formation row `row`.
pub fn enemy_kill_points(row: usize) -> (points: u32)
    ensures
        points == spec_enemy_kill_points(row as int),
{
    match row {
        0 => 10,
        1 | 2 => 20,
        _ => 30,
    }
}

/// What became of a hit on the player.
#[derive(Clone, Copy, Debug, PartialEq, Eq, Structural)]
pub enum PlayerHit {
    /// The hit did not count: the game is not being played, or the player
    /// is in the invincibility window after losing a life.
    Ignored,
    /// A life was lost and lives remain; the player is now invincible for
    /// a while and the other enemy bullets are to be cleared.
    LifeLost,
    /// The last life was lost and the game is over.
    GameOver,
}

/// The rules state of one game session: the phase, the counters shown on
/// the scoreboard, and whether the player is in the invincibility window
/// that follows a lost life.
#[derive(Clone, Copy, Debug, PartialEq, Eq, Structural)]
pub struct Game {
    pub state: GameState,
    pub score: Score,
    pub high_score: HighScore,
    pub lives: Lives,
    pub wave: CurrentWave,
    pub invincible: bool,
}

/// The game at launch: playing wave 1 with three lives and no score.
pub open spec fn spec_new_game() -> Game {
    Game {
        state: GameState::Playing,
        score: Score { value: 0 },
        high_score: HighScore { value: 0 },
        lives: Lives { count: STARTING_LIVES },
        wave: CurrentWave { wave: 1 },
        invincible: false,
    }
}

impl Game {
    /// Well-formed: lives never exceed the starting count, the wave counts
    /// from 1, running out of lives means the game is over, and a finished
    /// game's score is on record in the high score.
    pub open spec fn wf(self) -> bool {
        &&& self.lives.count <= STARTING_LIVES
        &&& self.wave.wave >= 1
        &&& self.lives.count == 0 ==> self.state == GameState::GameOver
        &&& self.state == GameState::GameOver ==> self.high_score.value >= self.score.value
    }

    /// The high score once the current score is on record: the larger of the
    /// two.
    pub open spec fn best_score(self) -> HighScore {
        if self.score.value > self.high_score.value {
            HighScore { value: self.score.value }
        } else {
            self.high_score
        }
    }

    pub open spec fn playing(self) -> bool {
        self.state == GameState::Playing
    }

    /// A player bullet destroyed an alien of row `row`.
    pub open spec fn after_enemy_shot_down(self, row: int) -> Game {
        if self.playing() {
            Game {
                score: Score { value: (self.score.value + spec_enemy_kill_points(row)) as u32 },
                ..self
            }
        } else {
            self
        }
    }

    /// A player bullet destroyed the mystery ship worth `points`.
    pub open spec fn after_mystery_ship_shot_down(self, points: u32) -> Game {
        if self.playing() {
            Game { score: Score { value: (self.score.value + points) as u32 }, ..self }
        } else {
            self
        }
    }

    /// What a hit on the player results in.
    pub open spec fn player_hit_outcome(self) -> PlayerHit {
        if !self.playing() || self.invincible {
            PlayerHit::Ignored
        } else if self.lives.count <= 1 {
            PlayerHit::GameOver
        } else {
            PlayerHit::LifeLost
        }
    }

    /// An enemy bullet reached the player.
    pub open spec fn after_player_hit(self) -> Game {
        match self.player_hit_outcome() {
            PlayerHit::Ignored => self,
            PlayerHit::GameOver => Game {
                state: GameState::GameOver,
                lives: Lives { count: 0 },
                high_score: self.best_score(),
                ..self
            },
            PlayerHit::LifeLost => Game {
                lives: Lives { count: (self.lives.count - 1) as u32 },
                invincible: true,
                ..self
            },
        }
    }

    /// The invincibility window ran out.
    pub open spec fn after_invincibility_ended(self) -> Game {
        Game { invincible: false, ..self }
    }

    /// An alien reached the player's line.
    pub open spec fn after_enemy_reached_bottom(self) -> Game {
        if self.playing() {
            Game { state: GameState::GameOver, high_score: self.best_score(), ..self }
        } else {
            self
        }
    }

    /// The formation was counted and `remaining` aliens are left.
    pub open spec fn after_enemies_counted(self, remaining: nat) -> Game {
        if self.playing() && remaining == 0 {
            Game { state: GameState::WaveTransition, ..self }
        } else {
            self
        }
    }

    /// The pause between waves is over.
    pub open spec fn after_wave_transition(self) -> Game {
        if self.state == GameState::WaveTransition {
            Game {
                state: GameState::Playing,
                wave: CurrentWave { wave: (self.wave.wave + 1) as u32 },
                ..self
            }
        } else {
            self
        }
    }

    /// The player asked for a new game.
    pub open spec fn after_restart(self) -> Game {
        if self.state == GameState::GameOver {
            Game {
                state: GameState::Playing,
                score: Score { value: 0 },
                lives: Lives { count: STARTING_LIVES },
                wave: CurrentWave { wave: 1 },
                high_score: self.best_score(),
                ..self
            }
        } else {
            self
        }
    }

    /// Puts the current score on record: the high score becomes the larger
    /// of the two.
    fn record_score(&mut self)
        ensures
            *final(self) == (Game { high_score: old(self).best_score(), ..*old(self) }),
    {
        if self.score.value > self.high_score.value {
            self.high_score = HighScore { value: self.score.value };
        }
    }

    /// A new game: playing wave 1 with three lives and no score.
    pub fn new() -> (game: Game)
        ensures
            game == spec_new_game(),
            game.wf(),
    {
        Game {
            state: GameState::Playing,
            score: Score { value: 0 },
            high_score: HighScore { value: 0 },
            lives: Lives { count: STARTING_LIVES },
            wave: CurrentWave { wave: 1 },
            invincible: false,
        }
    }

    /// A player bullet hit an alien of formation row `row`: while playing,
    /// the score grows by that row's points.
    pub fn enemy_shot_down(&mut self, row: usize)
        requires
            old(self).playing() ==> old(self).score.value + spec_enemy_kill_points(row as int)
                <= u32::MAX,
        ensures
            *final(self) == old(self).after_enemy_shot_down(row as int),
            old(self).playing() ==> final(self).score.value == old(self).score.value
                + spec_enemy_kill_points(row as int),
            old(self).playing() ==> (Game { score: old(self).score, ..*final(self) }) == *old(self),
            !old(self).playing() ==> *final(self) == *old(self),
            old(self).wf() ==> final(self).wf(),
    {
        if self.state == GameState::Playing {
            let points = enemy_kill_points(row);
            self.score = Score { value: self.score.value + points };
        }
    }

    /// A player bullet hit the mystery ship worth `points`: while playing,
    /// the score grows by that bonus.
    pub fn mystery_ship_shot_down(&mut self, points: u32)
        requires
            old(self).playing() ==> old(self).score.value + points <= u32::MAX,
        ensures
            *final(self) == old(self).after_mystery_ship_shot_down(points),
            old(self).playing() ==> final(self).score.value == old(self).score.value + points,
            old(self).playing() ==> (Game { score: old(self).score, ..*final(self) }) == *old(self),
            !old(self).playing() ==> *final(self) == *old(self),
            old(self).wf() ==> final(self).wf(),
    {
        if self.state == GameState::Playing {
            self.score = Score { value: self.score.value + points };
        }
    }

    /// An enemy bullet reached the player. Outside play, or within the
    /// invincibility window, nothing happens. Otherwise a life is lost
    /// (never going below zero); with none left the game is over and its
    /// score goes on record in the high score, else the invincibility window
    /// starts.
    pub fn player_hit(&mut self) -> (outcome: PlayerHit)
        ensures
            outcome == old(self).player_hit_outcome(),
            *final(self) == old(self).after_player_hit(),
            outcome != PlayerHit::Ignored ==> final(self).lives.count == (if old(
                self,
            ).lives.count == 0 {
                0
            } else {
                old(self).lives.count - 1
            }),
            outcome == PlayerHit::GameOver ==> final(self).high_score.value == (if old(
                self,
            ).score.value > old(self).high_score.value {
                old(self).score.value
            } else {
                old(self).high_score.value
            }),
            outcome != PlayerHit::GameOver ==> final(self).high_score == old(self).high_score,
            outcome == PlayerHit::Ignored <==> (!old(self).playing() || old(self).invincible),
            outcome == PlayerHit::Ignored ==> *final(self) == *old(self),
            outcome == PlayerHit::GameOver <==> (old(self).playing() && !old(self).invincible
                && old(self).lives.count <= 1),
            outcome == PlayerHit::GameOver ==> final(self).state == GameState::GameOver
                && final(self).lives.count == 0,
            outcome == PlayerHit::LifeLost ==> final(self).state == GameState::Playing
                && final(self).invincible && final(self).lives.count == old(self).lives.count - 1,
            final(self).score == old(self).score,
            final(self).wave == old(self).wave,
            old(self).wf() ==> final(self).wf(),
    {
        if self.state != GameState::Playing || self.invincible {
            return PlayerHit::Ignored;
        }
        let left = self.lives.count.saturating_sub(1);
        self.lives = Lives { count: left };
        if left == 0 {
            self.state = GameState::GameOver;
            self.record_score();
            PlayerHit::GameOver
        } else {
            self.invincible = true;
            PlayerHit::LifeLost
        }
    }

    /// The invincibility window that follows a lost life ran out.
    pub fn end_invincibility(&mut self)
        ensures
            *final(self) == old(self).after_invincibility_ended(),
            old(self).wf() ==> final(self).wf(),
    {
        self.invincible = false;
    }

    /// An alien reached the player's line: while playing, the game is over
    /// and its score goes on record in the high score.
    pub fn enemy_reached_bottom(&mut self)
        ensures
            *final(self) == old(self).after_enemy_reached_bottom(),
            old(self).playing() ==> final(self).state == GameState::GameOver
                && final(self).high_score == old(self).best_score(),
            old(self).playing() ==> (Game {
                state: GameState::Playing,
                high_score: old(self).high_score,
                ..*final(self)
            }) == *old(self),
            !old(self).playing() ==> *final(self) == *old(self),
            old(self).wf() ==> final(self).wf(),
    {
        if self.state == GameState::Playing {
            self.state = GameState::GameOver;
            self.record_score();
        }
    }

    /// Checks whether the wave is cleared: while playing with no alien
    /// left, the game moves to the pause between waves. Returns whether it
    /// did (the moment to play the wave-cleared fanfare).
    pub fn check_wave_cleared(&mut self, remaining: usize) -> (cleared: bool)
        ensures
            *final(self) == old(self).after_enemies_counted(remaining as nat),
            cleared == (old(self).playing() && remaining == 0),
            cleared ==> (Game { state: GameState::WaveTransition, ..*old(self) }) == *final(self),
            !cleared ==> *final(self) == *old(self),
            old(self).wf() ==> final(self).wf(),
    {
        if self.state == GameState::Playing && remaining == 0 {
            self.state = GameState::WaveTransition;
            true
        } else {
            false
        }
    }

    /// The pause between waves is over: the next wave starts.
    pub fn finish_wave_transition(&mut self)
        requires
            old(self).state == GameState::WaveTransition ==> old(self).wave.wave < u32::MAX,
        ensures
            *final(self) == old(self).after_wave_transition(),
            old(self).state == GameState::WaveTransition ==> (Game {
                state: GameState::Playing,
                wave: CurrentWave { wave: (old(self).wave.wave + 1) as u32 },
                ..*old(self)
            }) == *final(self),
            old(self).state != GameState::WaveTransition ==> *final(self) == *old(self),
            old(self).wf() ==> final(self).wf(),
    {
        if self.state == GameState::WaveTransition {
            self.wave = CurrentWave { wave: self.wave.wave + 1 };
            self.state = GameState::Playing;
        }
    }

    /// Restarts after a game over: score 0, wave 1, three lives, playing.
    /// The high score persists across games: it becomes the larger of the
    /// high score and the finished game's score. Outside the game-over screen
    /// nothing happens.
    pub fn restart(&mut self)
        ensures
            *final(self) == old(self).after_restart(),
            old(self).state == GameState::GameOver ==> {
                &&& final(self).state == GameState::Playing
                &&& final(self).score.value == 0
                &&& final(self).wave.wave == 1
                &&& final(self).lives.count == STARTING_LIVES
                &&& final(self).high_score.value == (if old(self).score.value > old(
                    self,
                ).high_score.value {
                    old(self).score.value
                } else {
                    old(self).high_score.value
                })
                &&& final(self).invincible == old(self).invincible
            },
            old(self).state != GameState::GameOver ==> *final(self) == *old(self),
            old(self).wf() ==> final(self).wf(),
    {
        if self.state == GameState::GameOver {
            self.record_score();
            self.score = Score { value: 0 };
            self.wave = CurrentWave { wave: 1 };
            self.lives = Lives { count: STARTING_LIVES };
            self.state = GameState::Playing;
        }
    }
}

/// One lost life and the invincibility window that follows it.
pub open spec fn hit_and_recover(g: Game) -> Game {
    g.after_player_hit().after_invincibility_ended()
}

/// `k` rounds of `hit_and_recover`.
pub open spec fn hits_and_recoveries(g: Game, k: nat) -> Game
    decreases k,
{
    if k == 0 {
        g
    } else {
        hit_and_recover(hits_and_recoveries(g, (k - 1) as nat))
    }
}

/// A player in play with `n` lives survives `n - 1` hits (each followed
/// by the end of the invincibility window) and the `n`-th ends the game;
/// score, wave and high score are untouched throughout.
pub proof fn lemma_lives_run_out(g: Game, k: nat)
    requires
        g.playing(),
        !g.invincible,
        1 <= k <= g.lives.count,
    ensures
        k < g.lives.count ==> hits_and_recoveries(g, k).playing(),
        k == g.lives.count ==> hits_and_recoveries(g, k).state == GameState::GameOver,
        hits_and_recoveries(g, k).lives.count == g.lives.count - k,
        !hits_and_recoveries(g, k).invincible,
        hits_and_recoveries(g, k).score == g.score,
        hits_and_recoveries(g, k).wave == g.wave,
        k < g.lives.count ==> hits_and_recoveries(g, k).high_score == g.high_score,
        k == g.lives.count ==> hits_and_recoveries(g, k).high_score == g.best_score(),
    decreases k,
{
    let prev = hits_and_recoveries(g, (k - 1) as nat);
    assert(hits_and_recoveries(g, k) == hit_and_recover(prev));
    if k > 1 {
        lemma_lives_run_out(g, (k - 1) as nat);
    } else {
        assert(prev == g);
    }
}

/// A fresh game ends after exactly three hits on the player.
pub proof fn lemma_new_game_three_lives()
    ensures
        hits_and_recoveries(spec_new_game(), 1).playing(),
        hits_and_recoveries(spec_new_game(), 2).playing(),
        hits_and_recoveries(spec_new_game(), 3).state == GameState::GameOver,
{
    lemma_lives_run_out(spec_new_game(), 1);
    lemma_lives_run_out(spec_new_game(), 2);
    lemma_lives_run_out(spec_new_game(), 3);
}

/// Clearing a wave and sitting out the pause leads to the next wave, with
/// score, lives and high score unchanged.
pub proof fn lemma_wave_cycle(g: Game)
    requires
        g.playing(),
    ensures
        g.after_enemies_counted(0).after_wave_transition().playing(),
        g.after_enemies_counted(0).after_wave_transition().wave.wave == (g.wave.wave + 1) as u32,
        g.after_enemies_counted(0).after_wave_transition().score == g.score,
        g.after_enemies_counted(0).after_wave_transition().lives == g.lives,
        g.after_enemies_counted(0).after_wave_transition().high_score == g.high_score,
{
}

/// While aliens remain, the wave goes on.
pub proof fn lemma_wave_goes_on_while_enemies_remain(g: Game, remaining: nat)
    requires
        remaining > 0,
    ensures
        g.after_enemies_counted(remaining) == g,
{
}

/// The score never goes down except through a restart.
pub proof fn lemma_score_only_grows(g: Game, row: int, points: u32, remaining: nat)
    requires
        g.playing() ==> g.score.value + spec_enemy_kill_points(row) <= u32::MAX,
        g.playing() ==> g.score.value + points <= u32::MAX,
    ensures
        g.after_enemy_shot_down(row).score.value >= g.score.value,
        g.after_mystery_ship_shot_down(points).score.value >= g.score.value,
        g.after_player_hit().score == g.score,
        g.after_invincibility_ended().score == g.score,
        g.after_enemy_reached_bottom().score == g.score,
        g.after_enemies_counted(remaining).score == g.score,
        g.after_wave_transition().score == g.score,
{
}

/// The high score persists across games and records the best score: it
/// never goes down, changes only when a game ends (or at a restart), and
/// then becomes the larger of itself and the finished game's score. During
/// play the events that score leave it alone.
pub proof fn lemma_high_score_keeps_best(g: Game, row: int, points: u32, remaining: nat)
    ensures
        g.after_enemy_shot_down(row).high_score == g.high_score,
        g.after_mystery_ship_shot_down(points).high_score == g.high_score,
        g.after_invincibility_ended().high_score == g.high_score,
        g.after_enemies_counted(remaining).high_score == g.high_score,
        g.after_wave_transition().high_score == g.high_score,
        g.after_player_hit().high_score.value >= g.high_score.value,
        g.after_enemy_reached_bottom().high_score.value >= g.high_score.value,
        g.after_restart().high_score.value >= g.high_score.value,
        g.player_hit_outcome() == PlayerHit::GameOver ==> g.after_player_hit().high_score
            == g.best_score(),
        g.player_hit_outcome() != PlayerHit::GameOver ==> g.after_player_hit().high_score
            == g.high_score,
        g.playing() ==> g.after_enemy_reached_bottom().high_score == g.best_score(),
        g.state == GameState::GameOver ==> g.after_restart().high_score == g.best_score(),
        g.best_score().value >= g.score.value,
        g.best_score().value >= g.high_score.value,
{
}

/// Whatever way a game in play ends, the next game starts with a high score
/// at least the finished game's score, and at least the old high score.
pub proof fn lemma_next_game_keeps_best(g: Game)
    requires
        g.playing(),
    ensures
        g.after_enemy_reached_bottom().after_restart().high_score.value >= g.score.value,
        g.after_enemy_reached_bottom().after_restart().high_score.value >= g.high_score.value,
        g.after_enemy_reached_bottom().after_restart().score.value == 0,
        g.player_hit_outcome() == PlayerHit::GameOver ==> g.after_player_hit().after_restart().high_score.value
            >= g.score.value,
        g.player_hit_outcome() == PlayerHit::GameOver ==> g.after_player_hit().after_restart().high_score.value
            >= g.high_score.value,
{
}

/// The game-over screen is left only through a restart: every other event
/// leaves a finished game exactly as it is (the invincibility window aside).
pub proof fn lemma_game_over_is_final(g: Game, row: int, points: u32, remaining: nat)
    requires
        g.state == GameState::GameOver,
    ensures
        g.after_enemy_shot_down(row) == g,
        g.after_mystery_ship_shot_down(points) == g,
        g.after_player_hit() == g,
        g.after_enemy_reached_bottom() == g,
        g.after_enemies_counted(remaining) == g,
        g.after_wave_transition() == g,
        g.after_restart().playing(),
{
}

/// Outside play a hit on the player does not count: it is ignored and
/// leaves the game exactly as it was, in the pause between waves as on the
/// game-over screen. The same holds within the invincibility window.
pub proof fn lemma_hits_count_only_in_play(g: Game)
    requires
        g.state != GameState::Playing || g.invincible,
    ensures
        g.player_hit_outcome() == PlayerHit::Ignored,
        g.after_player_hit() == g,
{
}

/// In play and outside the invincibility window every hit costs a life:
/// the last one ends the game, any other leaves the player invincible.
pub proof fn lemma_hits_in_play_cost_a_life(g: Game)
    requires
        g.playing(),
        !g.invincible,
        g.lives.count >= 1,
    ensures
        g.after_player_hit().lives.count == g.lives.count - 1,
        g.lives.count == 1 ==> g.player_hit_outcome() == PlayerHit::GameOver
            && g.after_player_hit().state == GameState::GameOver,
        g.lives.count > 1 ==> g.player_hit_outcome() == PlayerHit::LifeLost
            && g.after_player_hit().playing() && g.after_player_hit().invincible,
        g.after_player_hit().score == g.score,
        g.after_player_hit().wave == g.wave,
{
}

/// A restart only ever happens from the game-over screen: during play or in
/// the pause between waves it leaves the game exactly as it was.
pub proof fn lemma_restart_only_after_game_over(g: Game)
    requires
        g.state != GameState::GameOver,
    ensures
        g.after_restart() == g,
{
}

/// The pause between waves is frozen: scoring, hits, the bottom line, the
/// alien count and a restart all leave it as it is; only its end moves on,
/// to the next wave.
pub proof fn lemma_pause_is_frozen(g: Game, row: int, points: u32, remaining: nat)
    requires
        g.state == GameState::WaveTransition,
        g.wave.wave < u32::MAX,
    ensures
        g.after_enemy_shot_down(row) == g,
        g.after_mystery_ship_shot_down(points) == g,
        g.player_hit_outcome() == PlayerHit::Ignored,
        g.after_player_hit() == g,
        g.after_enemy_reached_bottom() == g,
        g.after_enemies_counted(remaining) == g,
        g.after_restart() == g,
        g.after_wave_transition().playing(),
        g.after_wave_transition().wave.wave == g.wave.wave + 1,
{
}

/// Lives never grow during a game; only a restart refills them.
pub proof fn lemma_lives_never_grow(g: Game, row: int, points: u32, remaining: nat)
    ensures
        g.after_enemy_shot_down(row).lives == g.lives,
        g.after_mystery_ship_shot_down(points).lives == g.lives,
        g.after_player_hit().lives.count <= g.lives.count,
        g.after_invincibility_ended().lives == g.lives,
        g.after_enemy_reached_bottom().lives == g.lives,
        g.after_enemies_counted(remaining).lives == g.lives,
        g.after_wave_transition().lives == g.lives,
{
}

} // verus!
