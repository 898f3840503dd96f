use sforce::boss::{
    boss_health_tracker, boss_step, fire_boss_pattern, trigger_boss_spawn, BossControl, BossPhase,
    BossState,
};
use sforce::difficulty::Difficulty;
use sforce::enemies::{
    cleanup_offscreen_enemies, default_weapon, enemy_fire, enemy_volley, new_enemy_shot,
    step_motion, EnemyKind, EnemyMotion, FirePattern, MovementPattern,
};
use sforce::events::AudioCue;
use sforce::fixed::{aimed_velocity, cosine, isqrt, sine, Vec2};
use sforce::storyboard::{
    lane_wave, Level, MovementConfig, Storyboard, WaveDefinition, WavePattern, BASE_INTERVAL, TOP_Y,
};
use sforce::waves::{advance_level, drive_waves, reset_waves, WaveDirector};

fn fresh_director(storyboard: &Storyboard, difficulty: Difficulty) -> WaveDirector {
    let mut director = WaveDirector::default();
    reset_waves(&mut director, storyboard, difficulty);
    director
}

#[test]
fn first_wave_is_three_grunts_on_the_core_lanes() {
    let storyboard = Storyboard::default();
    let mut director = fresh_director(&storyboard, Difficulty::Normal);
    assert_eq!(director.timer_duration, 3600);
    assert!(drive_waves(&mut director, &storyboard, Difficulty::Normal, 3599).is_empty());
    let events = drive_waves(&mut director, &storyboard, Difficulty::Normal, 1);
    assert_eq!(events.len(), 3);
    let lanes = [-360_000, 0, 360_000];
    for (i, event) in events.iter().enumerate() {
        assert_eq!(event.kind, EnemyKind::Grunt);
        assert_eq!(event.position, Vec2::new(lanes[i], TOP_Y));
        assert_eq!(event.movement, MovementPattern::Straight { speed: 160 });
    }
    assert_eq!(events[1].powerup, Some(sforce::powerups::PowerUpKind::Rapid));
    assert_eq!(events[0].powerup, None);
    assert_eq!(director.wave_index, 1);
    assert_eq!(director.difficulty, 1050);
}

#[test]
fn first_wave_speed_follows_difficulty_scale() {
    let storyboard = Storyboard::default();
    let mut director = fresh_director(&storyboard, Difficulty::Hard);
    assert_eq!(director.timer_duration, 2880);
    let events = drive_waves(&mut director, &storyboard, Difficulty::Hard, 2880);
    assert_eq!(events.len(), 3);
    // accumulator 1150 times health factor 1150 gives a scale of 1322 per-mille
    assert_eq!(events[0].movement, MovementPattern::Straight { speed: 211 });
}

#[test]
fn wrapping_the_level_marks_the_next_level() {
    let storyboard = Storyboard::default();
    let mut director = fresh_director(&storyboard, Difficulty::Normal);
    for _ in 0..6 {
        let events = drive_waves(&mut director, &storyboard, Difficulty::Normal, 3600);
        assert!(!events.is_empty());
    }
    assert_eq!(director.wave_index, 0);
    assert_eq!(director.pending_level, Some(0));
    assert_eq!(director.difficulty, 1300);
}

#[test]
fn waves_wait_while_the_boss_is_active() {
    let storyboard = Storyboard::default();
    let mut director = fresh_director(&storyboard, Difficulty::Normal);
    director.boss_active = true;
    assert!(drive_waves(&mut director, &storyboard, Difficulty::Normal, 10_000).is_empty());
    assert_eq!(director.timer_remaining, 3600);
}

#[test]
fn tank_wave_is_two_fixed_tanks() {
    let storyboard = Storyboard::default();
    let mut director = fresh_director(&storyboard, Difficulty::Normal);
    director.wave_index = 3;
    let events = drive_waves(&mut director, &storyboard, Difficulty::Normal, 3600);
    assert_eq!(events.len(), 2);
    assert_eq!(events[0].kind, EnemyKind::Tank);
    assert_eq!(events[0].position, Vec2::new(-200_000, 520_000));
    // 90 * (800 + 1000 * 100 / 1000) / 1000
    assert_eq!(events[0].movement, MovementPattern::Tank { speed: 81 });
    assert_eq!(events[1].powerup, None);
}

#[test]
fn movement_defaults_resolve_against_the_lane() {
    let sine = MovementConfig::Sine {
        speed: None,
        amplitude: None,
        frequency: None,
        frequency_gain: None,
        base_x_offset: Some(5_000),
    };
    assert_eq!(
        sine.to_pattern(2000, Some(-360_000)),
        MovementPattern::Sine { speed: 130, amplitude: 140_000, frequency: 97_402, base_x: -355_000 }
    );
    let zig = MovementConfig::ZigZag { speed: None, horizontal_speed: None, direction: None };
    assert_eq!(
        zig.to_pattern(1000, Some(-1)),
        MovementPattern::ZigZag { speed: 150, horizontal_speed: 180, direction: 1000 }
    );
    assert_eq!(
        zig.to_pattern(1000, Some(0)),
        MovementPattern::ZigZag { speed: 150, horizontal_speed: 180, direction: -1000 }
    );
    let chaser = MovementConfig::Chaser { speed: None, turn_rate: None, turn_rate_scale: None };
    assert_eq!(
        chaser.to_pattern(1500, None),
        MovementPattern::Chaser { speed: 180, turn_rate: 150_000 }
    );
    let straight = MovementConfig::Straight { speed: Some(100), scale_with_difficulty: Some(false) };
    assert_eq!(straight.to_pattern(3000, None), MovementPattern::Straight { speed: 100 });
}

#[test]
fn storyboard_rejects_out_of_range_values() {
    let bad = lane_wave(
        BASE_INTERVAL,
        EnemyKind::Grunt,
        vec![0],
        0,
        MovementConfig::Straight { speed: Some(1_000_000), scale_with_difficulty: None },
        None,
        None,
    );
    let level = Level { name: "Bad".to_string(), waves: vec![bad] };
    assert!(Storyboard::from_levels(vec![level]).is_none());
    let good = WaveDefinition {
        delay: 1000,
        pattern: WavePattern::Fixed { enemies: vec![] },
    };
    let level = Level { name: "Good".to_string(), waves: vec![good] };
    let storyboard = Storyboard::from_levels(vec![level]).unwrap();
    assert_eq!(storyboard.level_count(), 1);
    assert_eq!(storyboard.first_delay(0), Some(1000));
    assert_eq!(storyboard.first_delay(1), None);
    assert!(storyboard.level(2).is_none());
}

#[test]
fn advancing_takes_the_pending_level_or_the_next() {
    let one = Level { name: "One".to_string(), waves: Storyboard::default().levels[0].waves.clone() };
    let two = Level { name: "Two".to_string(), waves: Storyboard::default().levels[0].waves.clone() };
    let storyboard = Storyboard::from_levels(vec![one, two]).unwrap();
    let mut director = fresh_director(&storyboard, Difficulty::Easy);
    director.wave_index = 4;
    director.difficulty = 2000;
    advance_level(&mut director, &storyboard, Difficulty::Easy);
    assert_eq!(director.level_index, 1);
    assert_eq!(director.wave_index, 0);
    assert_eq!(director.difficulty, 900);
    assert_eq!(director.timer_duration, 4500);
    advance_level(&mut director, &storyboard, Difficulty::Easy);
    assert_eq!(director.level_index, 0);
    director.pending_level = Some(1);
    advance_level(&mut director, &storyboard, Difficulty::Easy);
    assert_eq!(director.level_index, 1);
    assert_eq!(director.pending_level, None);
}

#[test]
fn boss_arrives_at_the_score_threshold() {
    let mut state = BossState::default();
    let mut director = WaveDirector::default();
    assert!(trigger_boss_spawn(2599, &mut state, &mut director, 9).is_none());
    assert!(!state.active);
    let boss = trigger_boss_spawn(2600, &mut state, &mut director, 9).unwrap();
    assert_eq!(boss.kind, EnemyKind::Boss);
    assert_eq!(boss.health, 200);
    assert_eq!(boss.boss.unwrap().phase, BossPhase::Entry);
    assert!(state.active);
    assert_eq!(state.max_health, 200);
    assert_eq!(state.health, 200);
    assert_eq!(state.entity, Some(9));
    assert!(director.boss_active);
    assert!(trigger_boss_spawn(9000, &mut state, &mut director, 10).is_none());
    let storyboard = Storyboard::default();
    assert!(drive_waves(&mut director, &storyboard, Difficulty::Normal, 100_000).is_empty());
}

#[test]
fn low_health_boss_fires_the_radial_burst() {
    let mut state = BossState::default();
    let mut director = WaveDirector::default();
    let mut boss = trigger_boss_spawn(3000, &mut state, &mut director, 1).unwrap();
    boss.health = 60;
    let shots = boss_step(&mut boss, 200, 0, 1000, 1000);
    assert_eq!(boss.boss.unwrap().phase, BossPhase::Final);
    assert_eq!(shots.len(), 6);
    assert_eq!(boss.boss.unwrap().fire_timer, 700);
    assert_eq!(shots[0].velocity, Vec2::new(300, 0));
    assert_eq!(shots[0].origin, boss.position);
    assert_eq!(fire_boss_pattern(BossPhase::Entry, Vec2::new(0, 0), 1000).len(), 3);
    assert_eq!(fire_boss_pattern(BossPhase::Second, Vec2::new(0, 0), 1000).len(), 3);
    assert_eq!(fire_boss_pattern(BossPhase::Final, Vec2::new(0, 0), 1000).len(), 6);
}

#[test]
fn boss_waits_for_its_fire_timer() {
    let mut state = BossState::default();
    let mut director = WaveDirector::default();
    let mut boss = trigger_boss_spawn(3000, &mut state, &mut director, 1).unwrap();
    let shots = boss_step(&mut boss, 200, 0, 1000, 500);
    assert!(shots.is_empty());
    let control: BossControl = boss.boss.unwrap();
    assert_eq!(control.fire_timer, 500);
    assert_eq!(control.elapsed, 500);
    assert_eq!(boss.position.x, 80_000);
    let shots = boss_step(&mut boss, 200, 0, 1000, 500);
    assert_eq!(shots.len(), 3);
    assert_eq!(boss.boss.unwrap().fire_timer, 1350);
}

#[test]
fn beaten_boss_releases_the_waves() {
    let storyboard = Storyboard::default();
    let mut state = BossState::default();
    let mut director = fresh_director(&storyboard, Difficulty::Normal);
    let boss = trigger_boss_spawn(2600, &mut state, &mut director, 4).unwrap();
    let mut enemies = vec![boss];
    enemies[0].health = 150;
    assert_eq!(boss_health_tracker(&mut state, &enemies, &mut director, &storyboard, Difficulty::Normal), None);
    assert_eq!(state.health, 150);
    enemies.clear();
    let cue = boss_health_tracker(&mut state, &enemies, &mut director, &storyboard, Difficulty::Normal);
    assert_eq!(cue, Some(AudioCue::UiSelect));
    assert!(!state.active);
    assert_eq!(state.spawn_score, 5200);
    assert!(!director.boss_active);
    assert_eq!(director.level_index, 0);
    assert_eq!(boss_health_tracker(&mut state, &enemies, &mut director, &storyboard, Difficulty::Normal), None);
}

#[test]
fn enemy_guns_fire_on_their_period() {
    assert_eq!(default_weapon(EnemyKind::Grunt), None);
    assert_eq!(default_weapon(EnemyKind::Boss), None);
    let event = sforce::enemies::SpawnEnemyEvent {
        kind: EnemyKind::Tank,
        position: Vec2::new(0, 100_000),
        movement: MovementPattern::Tank { speed: 90 },
        powerup: None,
    };
    let mut tank = sforce::enemies::spawn_enemy(&event, Difficulty::Normal, 1);
    let player = Vec2::new(0, -260_000);
    assert!(enemy_fire(&mut tank, player, 1000, 1599).is_empty());
    let shots = enemy_fire(&mut tank, player, 1000, 1);
    assert_eq!(shots.len(), 3);
    assert_eq!(shots[1].velocity, Vec2::new(0, -220));
    assert_eq!(shots[0].velocity.y, shots[2].velocity.y);
    assert_eq!(shots[0].velocity.x, -shots[2].velocity.x);
    assert!(shots[0].velocity.x < 0);
    assert_eq!(shots[0].lifetime, 3000);
    assert_eq!(shots[0].size, Vec2::new(12_000, 28_000));
    assert_eq!(tank.weapon.unwrap().elapsed, 0);
}

#[test]
fn aimed_shot_points_at_the_player() {
    let shots = enemy_volley(FirePattern::TargetPlayer, Vec2::new(0, 0), Vec2::new(3_000, 4_000), 500, 1);
    assert_eq!(shots.len(), 1);
    assert_eq!(shots[0].velocity, Vec2::new(300, 400));
    let same = enemy_volley(FirePattern::TargetPlayer, Vec2::new(7, 7), Vec2::new(7, 7), 260, 1);
    assert_eq!(same[0].velocity, Vec2::new(0, -260));
    let down = enemy_volley(FirePattern::StraightDown, Vec2::new(0, 0), Vec2::new(0, 0), 200, 2);
    assert_eq!(down[0], new_enemy_shot(Vec2::new(0, 0), Vec2::new(0, -200), 2));
    let single = enemy_volley(FirePattern::Spread { count: 0, arc: 30_000 }, Vec2::new(0, 0), Vec2::new(0, 0), 100, 1);
    assert_eq!(single.len(), 1);
    assert_eq!(single[0].velocity, Vec2::new(0, -100));
}

#[test]
fn fixed_point_trigonometry() {
    assert_eq!(sine(0), 0);
    assert_eq!(sine(30_000), 500);
    assert_eq!(sine(90_000), 1000);
    assert_eq!(sine(-90_000), -1000);
    assert_eq!(sine(450_000), 1000);
    assert_eq!(cosine(0), 1000);
    assert_eq!(cosine(180_000), -1000);
    assert_eq!(isqrt(0), 0);
    assert_eq!(isqrt(15), 3);
    assert_eq!(isqrt(16), 4);
    assert_eq!(isqrt(1_000_000_000_000), 1_000_000);
    assert_eq!(aimed_velocity(Vec2::new(0, 0), Vec2::new(-6, 8), 1000), Vec2::new(-600, 800));
}

#[test]
fn movement_patterns_step() {
    let p = Vec2::new(100_000, 400_000);
    let straight = EnemyMotion { pattern: MovementPattern::Straight { speed: 160 }, elapsed: 0 };
    let (q, m) = step_motion(p, straight, 0, 10);
    assert_eq!(q, Vec2::new(100_000, 398_400));
    assert_eq!(m.elapsed, 10);
    let zig = EnemyMotion {
        pattern: MovementPattern::ZigZag { speed: 150, horizontal_speed: 180, direction: 1000 },
        elapsed: 0,
    };
    let (q, m) = step_motion(Vec2::new(599_000, 0), zig, 0, 10);
    assert_eq!(q, Vec2::new(600_800, -1_500));
    assert_eq!(m.pattern, MovementPattern::ZigZag { speed: 150, horizontal_speed: 180, direction: -1000 });
    let chaser = EnemyMotion { pattern: MovementPattern::Chaser { speed: 180, turn_rate: 120_000 }, elapsed: 0 };
    let (q, _) = step_motion(Vec2::new(0, 0), chaser, 50_000, 10);
    // steps a fifth of the gap (10 px) at 60 frames per second for 10 ms
    assert_eq!(q, Vec2::new(6_000, -1_080));
    let sine_motion = EnemyMotion {
        pattern: MovementPattern::Sine { speed: 0, amplitude: 140_000, frequency: 90_000, base_x: -360_000 },
        elapsed: 0,
    };
    let (q, _) = step_motion(Vec2::new(-360_000, 0), sine_motion, 0, 1000);
    assert_eq!(q, Vec2::new(-220_000, 0));
}

#[test]
fn enemies_below_the_playfield_leave() {
    let event = sforce::enemies::SpawnEnemyEvent {
        kind: EnemyKind::Grunt,
        position: Vec2::new(0, -480_001),
        movement: MovementPattern::Straight { speed: 160 },
        powerup: None,
    };
    let low = sforce::enemies::spawn_enemy(&event, Difficulty::Normal, 1);
    let edge = sforce::enemies::spawn_enemy(
        &sforce::enemies::SpawnEnemyEvent { position: Vec2::new(0, -480_000), ..event },
        Difficulty::Normal,
        2,
    );
    let mut enemies = vec![low, edge];
    cleanup_offscreen_enemies(&mut enemies);
    assert_eq!(enemies.len(), 1);
    assert_eq!(enemies[0].id, 2);
}

#[test]
fn zero_delay_wave_fires_on_the_next_tick() {
    let wave = WaveDefinition {
        delay: 0,
        pattern: WavePattern::Fixed {
            enemies: vec![sforce::storyboard::FixedEnemyConfig {
                enemy: EnemyKind::Grunt,
                position: Vec2::new(0, 400_000),
                movement: MovementConfig::Straight { speed: None, scale_with_difficulty: None },
                powerup: None,
            }],
        },
    };
    let level = Level { name: "Rush".to_string(), waves: vec![wave] };
    let storyboard = Storyboard::from_levels(vec![level]).unwrap();
    let mut director = fresh_director(&storyboard, Difficulty::Normal);
    assert_eq!(director.timer_remaining, 0);
    assert_eq!(drive_waves(&mut director, &storyboard, Difficulty::Normal, 8).len(), 1);
    assert_eq!(drive_waves(&mut director, &storyboard, Difficulty::Normal, 8).len(), 1);
}

#[test]
fn accumulator_keeps_growing_past_eight() {
    let storyboard = Storyboard::default();
    let mut director = fresh_director(&storyboard, Difficulty::Normal);
    director.difficulty = 8000;
    drive_waves(&mut director, &storyboard, Difficulty::Normal, 3600);
    assert_eq!(director.difficulty, 8050);
    director.difficulty = 20_000;
    let events = drive_waves(&mut director, &storyboard, Difficulty::Normal, 3600);
    assert_eq!(director.difficulty, 20_050);
    // the wave is spawned at the capped scale of ten times
    assert_eq!(events[0].kind, EnemyKind::Sine);
    assert_eq!(
        events[0].movement,
        MovementPattern::Sine { speed: 130, amplitude: 140_000, frequency: 80_214 + 85_940, base_x: -360_000 }
    );
}

#[test]
fn beaten_boss_resets_the_wave_progress() {
    let storyboard = Storyboard::default();
    let mut state = BossState::default();
    let mut director = fresh_director(&storyboard, Difficulty::Normal);
    director.wave_index = 4;
    director.difficulty = 1200;
    director.pending_level = Some(0);
    trigger_boss_spawn(2600, &mut state, &mut director, 1).unwrap();
    let cue = boss_health_tracker(&mut state, &vec![], &mut director, &storyboard, Difficulty::Normal);
    assert_eq!(cue, Some(AudioCue::UiSelect));
    assert_eq!(director.wave_index, 0);
    assert_eq!(director.pending_level, None);
    assert_eq!(director.difficulty, 1000);
    assert_eq!(director.timer_remaining, 3600);
}
