use invaders3d::barrier::{
    barrier_shade, bunker_blocks, bunker_cell, Barrier, BarrierHit, BarrierShade, BARRIER_HEALTH,
};
use invaders3d::components::{
    points_for_row, wave_config, CurrentWave, GameState, HighScore, InitialEnemyCount, Lives,
    Score, FORMATION_COLS, FORMATION_ROWS, MAX_ENEMY_BULLETS,
};
use invaders3d::enemy::{
    alien_type_for_row, alien_voxels, bottom_shooters, column_count, enemy_shoot, formation,
    setup_wave, shooter_for_draw, AlienKind, EnemyCell,
};
use invaders3d::game::{enemy_kill_points, Game, PlayerHit};
use invaders3d::music::MarchState;
use invaders3d::mystery::{launch_mystery_ship, mystery_bonus, mystery_launch, BONUS_TABLE_LEN};
use invaders3d::sound::{lcg_step, NoiseGenerator, NOISE_SEED};

#[test]
fn defaults_match_a_fresh_game() {
    assert_eq!(GameState::default(), GameState::Playing);
    assert_eq!(Score::default().value, 0);
    assert_eq!(HighScore::default().value, 0);
    assert_eq!(Lives::default().count, 3);
    assert_eq!(CurrentWave::default().wave, 1);
    assert_eq!(InitialEnemyCount::default().count, 55);
}

#[test]
fn points_for_row_table() {
    assert_eq!(points_for_row(0), 30);
    assert_eq!(points_for_row(1), 20);
    assert_eq!(points_for_row(2), 20);
    assert_eq!(points_for_row(3), 10);
    assert_eq!(points_for_row(4), 10);
    assert_eq!(points_for_row(99), 10);
}

#[test]
fn enemy_kill_points_table() {
    assert_eq!(enemy_kill_points(0), 10);
    assert_eq!(enemy_kill_points(1), 20);
    assert_eq!(enemy_kill_points(2), 20);
    assert_eq!(enemy_kill_points(3), 30);
    assert_eq!(enemy_kill_points(4), 30);
}

#[test]
fn wave_one_config() {
    let c = wave_config(1);
    assert_eq!(c.base_speed_hundredths, 150);
    assert_eq!(c.shoot_interval_hundredths, 160);
    assert_eq!(c.z_offset_tenths, 0);
    assert_eq!(c.rows, 5);
    assert_eq!(c.cols, 11);
    // wave 0 is treated like wave 1
    assert_eq!(wave_config(0), c);
}

#[test]
fn wave_config_caps() {
    let c = wave_config(3);
    assert_eq!(c.base_speed_hundredths, 200);
    assert_eq!(c.shoot_interval_hundredths, 144);
    assert_eq!(c.z_offset_tenths, 10);
    let late = wave_config(100);
    assert_eq!(late.base_speed_hundredths, 450);
    assert_eq!(late.shoot_interval_hundredths, 80);
    assert_eq!(late.z_offset_tenths, 40);
    assert_eq!(wave_config(u32::MAX), late);
}

#[test]
fn wave_config_monotone_on_values() {
    let mut prev = wave_config(1);
    for w in 2..30u32 {
        let c = wave_config(w);
        assert!(c.base_speed_hundredths >= prev.base_speed_hundredths);
        assert!(c.shoot_interval_hundredths <= prev.shoot_interval_hundredths);
        assert!(c.z_offset_tenths >= prev.z_offset_tenths);
        prev = c;
    }
}

#[test]
fn new_game_loses_after_three_hits() {
    let mut g = Game::new();
    assert_eq!(g.player_hit(), PlayerHit::LifeLost);
    assert_eq!(g.lives.count, 2);
    // invincible: the next hit does not count
    assert_eq!(g.player_hit(), PlayerHit::Ignored);
    assert_eq!(g.lives.count, 2);
    g.end_invincibility();
    assert_eq!(g.player_hit(), PlayerHit::LifeLost);
    g.end_invincibility();
    assert_eq!(g.player_hit(), PlayerHit::GameOver);
    assert_eq!(g.lives.count, 0);
    assert_eq!(g.state, GameState::GameOver);
    // nothing counts any more
    g.end_invincibility();
    assert_eq!(g.player_hit(), PlayerHit::Ignored);
}

#[test]
fn scoring_and_restart() {
    let mut g = Game::new();
    g.enemy_shot_down(0);
    g.enemy_shot_down(2);
    g.enemy_shot_down(4);
    g.mystery_ship_shot_down(300);
    assert_eq!(g.score.value, 10 + 20 + 30 + 300);
    g.enemy_reached_bottom();
    assert_eq!(g.state, GameState::GameOver);
    // no scoring after the game is over
    g.enemy_shot_down(4);
    assert_eq!(g.score.value, 360);
    g.high_score = HighScore { value: 999 };
    g.restart();
    assert_eq!(g.state, GameState::Playing);
    assert_eq!(g.score.value, 0);
    assert_eq!(g.lives.count, 3);
    assert_eq!(g.wave.wave, 1);
    assert_eq!(g.high_score.value, 999);
}

#[test]
fn restart_only_from_game_over() {
    let mut g = Game::new();
    g.enemy_shot_down(1);
    g.restart();
    assert_eq!(g.score.value, 20);
    assert_eq!(g.state, GameState::Playing);
}

#[test]
fn wave_cycle() {
    let mut g = Game::new();
    g.enemy_shot_down(3);
    assert!(!g.check_wave_cleared(5));
    assert_eq!(g.state, GameState::Playing);
    assert!(g.check_wave_cleared(0));
    assert_eq!(g.state, GameState::WaveTransition);
    // a second check in the pause does nothing
    assert!(!g.check_wave_cleared(0));
    g.finish_wave_transition();
    assert_eq!(g.state, GameState::Playing);
    assert_eq!(g.wave.wave, 2);
    assert_eq!(g.score.value, 30);
    assert_eq!(g.lives.count, 3);
    // finishing a pause while playing changes nothing
    g.finish_wave_transition();
    assert_eq!(g.wave.wave, 2);
}

#[test]
fn barrier_takes_two_hits() {
    let mut b = Barrier::new();
    assert_eq!(b.health, BARRIER_HEALTH);
    assert_eq!(barrier_shade(b.health), BarrierShade::Intact);
    assert_eq!(b.take_hit(), BarrierHit::Damaged);
    assert_eq!(b.health, 1);
    assert_eq!(barrier_shade(b.health), BarrierShade::Damaged);
    assert_eq!(b.take_hit(), BarrierHit::Destroyed);
    assert_eq!(barrier_shade(0), BarrierShade::Spent);
    let mut broken = Barrier { health: 0 };
    assert_eq!(broken.take_hit(), BarrierHit::Destroyed);
    assert_eq!(broken.health, 0);
}

#[test]
fn bunker_shape_and_blocks() {
    assert!(!bunker_cell(0, 0));
    assert!(bunker_cell(0, 1));
    assert!(!bunker_cell(0, 5));
    assert!(bunker_cell(2, 0));
    assert!(!bunker_cell(4, 2));
    assert!(!bunker_cell(4, 3));
    assert!(bunker_cell(4, 4));
    assert!(!bunker_cell(5, 0));
    assert!(!bunker_cell(0, 6));
    let blocks = bunker_blocks();
    // 26 cells per bunker, 2 layers, 4 bunkers
    assert_eq!(blocks.len(), 208);
    assert_eq!((blocks[0].bunker, blocks[0].row, blocks[0].col, blocks[0].layer), (0, 0, 1, 0));
    assert_eq!((blocks[1].bunker, blocks[1].row, blocks[1].col, blocks[1].layer), (0, 0, 1, 1));
    let last = blocks[207];
    assert_eq!((last.bunker, last.row, last.col, last.layer), (3, 4, 5, 1));
}

#[test]
fn alien_designs() {
    assert_eq!(alien_type_for_row(0), AlienKind::Squid);
    assert_eq!(alien_type_for_row(1), AlienKind::Crab);
    assert_eq!(alien_type_for_row(2), AlienKind::Crab);
    assert_eq!(alien_type_for_row(3), AlienKind::Octopus);
    assert_eq!(alien_type_for_row(4), AlienKind::Octopus);
    let squid = alien_voxels(AlienKind::Squid);
    assert_eq!((squid.body.len(), squid.detail.len()), (9, 4));
    let crab = alien_voxels(AlienKind::Crab);
    assert_eq!((crab.body.len(), crab.detail.len()), (13, 3));
    assert_eq!(crab.body[11], (-3, 0, 0));
    let octopus = alien_voxels(AlienKind::Octopus);
    assert_eq!((octopus.body.len(), octopus.detail.len()), (19, 4));
}

#[test]
fn formation_of_a_wave() {
    let setup = setup_wave(1);
    assert_eq!(setup.initial_count.count, 55);
    let slots = formation(&setup.config);
    assert_eq!(slots.len(), FORMATION_ROWS * FORMATION_COLS);
    assert_eq!((slots[0].row, slots[0].col, slots[0].kind), (0, 0, AlienKind::Squid));
    assert_eq!((slots[12].row, slots[12].col, slots[12].kind), (1, 1, AlienKind::Crab));
    assert_eq!((slots[54].row, slots[54].col, slots[54].kind), (4, 10, AlienKind::Octopus));
}

fn cell(row: usize, col: usize) -> EnemyCell {
    EnemyCell { row, col }
}

#[test]
fn bottom_shooters_pick_lowest_row_per_column() {
    let enemies = vec![cell(3, 0), cell(0, 0), cell(1, 1), cell(0, 0), cell(2, 2), cell(4, 1)];
    let mut shooters = bottom_shooters(&enemies);
    shooters.sort();
    assert_eq!(shooters, vec![1, 2, 4]);
    // rows 0 and 4 left in a column: row 0, nearest the player, fires
    assert_eq!(bottom_shooters(&vec![cell(4, 7), cell(0, 7)]), vec![1]);
    assert!(bottom_shooters(&Vec::new()).is_empty());
}

#[test]
fn enemy_fire_rules() {
    let enemies = vec![cell(0, 0), cell(2, 0), cell(1, 3)];
    for _ in 0..50 {
        let shot = enemy_shoot(&enemies, 0);
        assert!(shot == Some(0) || shot == Some(2));
    }
    assert_eq!(enemy_shoot(&enemies, MAX_ENEMY_BULLETS), None);
    assert_eq!(enemy_shoot(&enemies, 7), None);
    assert_eq!(enemy_shoot(&Vec::new(), 0), None);
    let single = vec![cell(4, 9)];
    assert_eq!(enemy_shoot(&single, 2), Some(0));
}

#[test]
fn mystery_ship_launch() {
    let table = [50u32, 100, 150, 100, 200, 100, 300, 100];
    for (i, v) in table.iter().enumerate() {
        assert_eq!(mystery_bonus(i), *v);
    }
    assert_eq!(BONUS_TABLE_LEN, 8);
    let l = mystery_launch(true, 6);
    assert!(l.from_left);
    assert_eq!(l.bonus, 300);
    let r = mystery_launch(false, 2);
    assert!(!r.from_left);
    assert_eq!(r.bonus, 150);
    assert_eq!(launch_mystery_ship(false, false), None);
    assert_eq!(launch_mystery_ship(true, true), None);
    assert_eq!(launch_mystery_ship(false, true), None);
    for _ in 0..50 {
        let launch = launch_mystery_ship(true, false).unwrap();
        assert!(table.contains(&launch.bonus));
    }
}

#[test]
fn march_cycles_through_four_notes() {
    let mut m = MarchState::new();
    assert_eq!(m.step(), 0);
    let notes: Vec<usize> = (0..9).map(|_| m.beat()).collect();
    assert_eq!(notes, vec![0, 1, 2, 3, 0, 1, 2, 3, 0]);
    assert_eq!(m.step(), 1);
    m.reset();
    assert_eq!(m.step(), 0);
}

#[test]
fn noise_generator_steps() {
    let expected = NOISE_SEED
        .wrapping_mul(6_364_136_223_846_793_005)
        .wrapping_add(1_442_695_040_888_963_407);
    assert_eq!(lcg_step(NOISE_SEED), expected);
    assert_eq!(lcg_step(0), 1_442_695_040_888_963_407);
    let mut gen = NoiseGenerator::new();
    assert_eq!(gen.state, NOISE_SEED);
    let bits = gen.next_bits();
    assert_eq!(gen.state, expected);
    assert_eq!(bits, (expected >> 32) as i32);
}

#[test]
fn high_score_keeps_the_best_game() {
    let mut g = Game::new();
    g.enemy_shot_down(4);
    g.enemy_shot_down(4);
    assert_eq!(g.high_score.value, 0);
    g.enemy_reached_bottom();
    assert_eq!(g.high_score.value, 60);
    g.restart();
    assert_eq!(g.score.value, 0);
    assert_eq!(g.high_score.value, 60);
    // a weaker game does not lower it
    g.enemy_shot_down(0);
    for _ in 0..3 {
        g.player_hit();
        g.end_invincibility();
    }
    assert_eq!(g.state, GameState::GameOver);
    assert_eq!(g.high_score.value, 60);
    g.restart();
    // a better game raises it when it ends
    g.mystery_ship_shot_down(300);
    assert_eq!(g.high_score.value, 60);
    for _ in 0..3 {
        g.player_hit();
        g.end_invincibility();
    }
    assert_eq!(g.high_score.value, 300);
    g.restart();
    assert_eq!(g.high_score.value, 300);
}

#[test]
fn shooters_come_in_column_order() {
    let enemies = vec![cell(3, 0), cell(0, 0), cell(4, 1), cell(0, 0), cell(2, 2), cell(1, 1)];
    assert_eq!(bottom_shooters(&enemies), vec![1, 5, 4]);
    assert_eq!(column_count(&enemies), 3);
    assert_eq!(shooter_for_draw(&enemies, 0, 0), Some(1));
    assert_eq!(shooter_for_draw(&enemies, 2, 1), Some(5));
    assert_eq!(shooter_for_draw(&enemies, 1, 2), Some(4));
    assert_eq!(shooter_for_draw(&enemies, 0, 3), None);
    assert_eq!(shooter_for_draw(&enemies, MAX_ENEMY_BULLETS, 0), None);
    assert_eq!(shooter_for_draw(&Vec::new(), 0, 0), None);
    assert_eq!(column_count(&Vec::new()), 0);
}
