use sforce::boss::{update_phase, BossPhase};
use sforce::collisions::projectile_enemy_collisions;
use sforce::difficulty::{step_volume, Difficulty, GameSettings};
use sforce::enemies::{spawn_enemy, EnemyKind, MovementPattern, SpawnEnemyEvent};
use sforce::fixed::Vec2;
use sforce::player::{
    handle_player_hit, HitOutcome, PlayerDefense, PlayerSettings, PlayerStats, PlayerWeaponState,
    WeaponMode, PLAYER_HIT_INVULNERABILITY,
};
use sforce::powerups::{apply_powerup, PowerUpKind, INVINCIBLE_POWERUP_DURATION, SHIELD_DURATION};
use sforce::projectiles::Projectile;

fn chaser_at(x: i64, y: i64) -> sforce::enemies::Enemy {
    let event = SpawnEnemyEvent {
        kind: EnemyKind::Chaser,
        position: Vec2::new(x, y),
        movement: MovementPattern::Straight { speed: 0 },
        powerup: None,
    };
    spawn_enemy(&event, Difficulty::Normal, 7)
}

fn bullet_at(x: i64, y: i64) -> Projectile {
    Projectile {
        position: Vec2::new(x, y),
        velocity: Vec2::new(0, 520),
        size: Vec2::new(19_200, 38_400),
        lifetime: 1600,
    }
}

#[test]
fn difficulty_factors_are_ordered() {
    let (e, n, h) = (Difficulty::Easy, Difficulty::Normal, Difficulty::Hard);
    assert!(e.spawn_interval_factor() > n.spawn_interval_factor());
    assert!(n.spawn_interval_factor() > h.spawn_interval_factor());
    assert!(h.enemy_health_factor() > n.enemy_health_factor());
    assert!(n.enemy_health_factor() > e.enemy_health_factor());
    assert!(h.enemy_bullet_factor() > n.enemy_bullet_factor());
    assert!(n.enemy_bullet_factor() > e.enemy_bullet_factor());
    assert_eq!(e.spawn_interval_factor(), 1250);
    assert_eq!(h.spawn_interval_factor(), 800);
    assert_eq!(h.enemy_health_factor(), 1150);
    assert_eq!(e.enemy_bullet_factor(), 900);
    assert_eq!(3600 * e.spawn_interval_factor() / 1000, 4500);
}

#[test]
fn enemy_health_scales_with_difficulty() {
    let event = SpawnEnemyEvent {
        kind: EnemyKind::Tank,
        position: Vec2::new(0, 0),
        movement: MovementPattern::Tank { speed: 90 },
        powerup: Some(PowerUpKind::Health),
    };
    assert_eq!(spawn_enemy(&event, Difficulty::Normal, 1).health, 6);
    assert_eq!(spawn_enemy(&event, Difficulty::Hard, 1).health, 7);
    assert_eq!(spawn_enemy(&event, Difficulty::Easy, 1).health, 6);
    let grunt = SpawnEnemyEvent { kind: EnemyKind::Grunt, ..event };
    assert_eq!(spawn_enemy(&grunt, Difficulty::Easy, 1).health, 1);
    assert_eq!(spawn_enemy(&event, Difficulty::Normal, 1).score, 350);
    assert_eq!(spawn_enemy(&event, Difficulty::Normal, 1).drop, Some(PowerUpKind::Health));
}

#[test]
fn bullets_short_of_health_leave_enemy_in_play() {
    let mut enemies = vec![chaser_at(0, 100_000)];
    let mut bullets = vec![bullet_at(0, 100_000), bullet_at(5_000, 100_000)];
    let mut score: u32 = 40;
    let destroyed = projectile_enemy_collisions(&mut bullets, &mut enemies, &mut score);
    assert!(destroyed.is_empty());
    assert_eq!(enemies.len(), 1);
    assert_eq!(enemies[0].health, 1);
    assert!(bullets.is_empty());
    assert_eq!(score, 40);
}

#[test]
fn enough_bullets_destroy_enemy_and_score_once() {
    for n in 3..7 {
        let mut enemies = vec![chaser_at(0, 100_000)];
        let mut bullets: Vec<Projectile> = (0..n).map(|_| bullet_at(0, 100_000)).collect();
        let mut score: u32 = 0;
        let destroyed = projectile_enemy_collisions(&mut bullets, &mut enemies, &mut score);
        assert!(enemies.is_empty());
        assert_eq!(destroyed.len(), 1);
        assert_eq!(destroyed[0].kind, EnemyKind::Chaser);
        assert_eq!(score, 250);
        assert!(bullets.is_empty());
    }
}

#[test]
fn bullet_strikes_only_first_overlapping_enemy() {
    let mut enemies = vec![chaser_at(0, 100_000), chaser_at(10_000, 100_000)];
    let mut bullets = vec![bullet_at(5_000, 100_000), bullet_at(0, -300_000)];
    let mut score: u32 = 0;
    projectile_enemy_collisions(&mut bullets, &mut enemies, &mut score);
    assert_eq!(enemies[0].health, 2);
    assert_eq!(enemies[1].health, 3);
    assert_eq!(bullets.len(), 1);
    assert_eq!(bullets[0].position.y, -300_000);
}

#[test]
fn score_saturates_at_the_top() {
    let mut enemies = vec![chaser_at(0, 0)];
    enemies[0].health = 1;
    let mut bullets = vec![bullet_at(0, 0)];
    let mut score: u32 = u32::MAX - 10;
    projectile_enemy_collisions(&mut bullets, &mut enemies, &mut score);
    assert_eq!(score, u32::MAX);
}

#[test]
fn boss_phase_follows_health_ratio() {
    assert_eq!(update_phase(BossPhase::Entry, 140, 200), BossPhase::Entry);
    assert_eq!(update_phase(BossPhase::Entry, 120, 200), BossPhase::Second);
    assert_eq!(update_phase(BossPhase::Second, 60, 200), BossPhase::Final);
    assert_eq!(update_phase(BossPhase::Entry, 60, 200), BossPhase::Final);
    assert_eq!(update_phase(BossPhase::Entry, 130, 200), BossPhase::Entry);
    assert_eq!(update_phase(BossPhase::Entry, 129, 200), BossPhase::Second);
    assert_eq!(update_phase(BossPhase::Second, 70, 200), BossPhase::Second);
    assert_eq!(update_phase(BossPhase::Second, 69, 200), BossPhase::Final);
    assert_eq!(update_phase(BossPhase::Entry, -5, 200), BossPhase::Final);
    assert_eq!(update_phase(BossPhase::Second, 0, 0), BossPhase::Second);
    let mut phase = BossPhase::Entry;
    let mut last_rank = 0;
    for health in (0..=200).rev() {
        phase = update_phase(phase, health, 200);
        let rank = match phase {
            BossPhase::Entry => 0,
            BossPhase::Second => 1,
            BossPhase::Final => 2,
        };
        assert!(rank >= last_rank);
        last_rank = rank;
    }
    assert_eq!(phase, BossPhase::Final);
}

#[test]
fn hit_while_invulnerable_changes_nothing() {
    let mut stats = PlayerStats::default();
    let mut defense = PlayerDefense { invulnerability: 1 };
    assert_eq!(handle_player_hit(&mut stats, &mut defense, 3), HitOutcome::Ignored);
    assert_eq!(stats, PlayerStats::default());
    assert_eq!(defense.invulnerability, 1);
    defense.tick(1);
    assert_eq!(defense.invulnerability, 0);
    assert_eq!(handle_player_hit(&mut stats, &mut defense, 3), HitOutcome::Damaged);
    assert_eq!(stats.health, 2);
    assert_eq!(defense.invulnerability, PLAYER_HIT_INVULNERABILITY);
}

#[test]
fn invulnerability_counts_down_to_zero() {
    let mut defense = PlayerDefense { invulnerability: 1600 };
    defense.tick(1000);
    assert_eq!(defense.invulnerability, 600);
    defense.tick(1000);
    assert_eq!(defense.invulnerability, 0);
}

#[test]
fn hit_for_two_from_full_health() {
    let mut stats = PlayerStats { health: 5, max_health: 5, lives: 3, max_lives: 3 };
    let mut defense = PlayerDefense { invulnerability: 0 };
    assert_eq!(handle_player_hit(&mut stats, &mut defense, 2), HitOutcome::Damaged);
    assert_eq!(stats.health, 3);
    assert_eq!(stats.lives, 3);
    assert_eq!(defense.invulnerability, 1600);
}

#[test]
fn zero_damage_still_costs_one_point() {
    let mut stats = PlayerStats::default();
    let mut defense = PlayerDefense { invulnerability: 0 };
    handle_player_hit(&mut stats, &mut defense, 0);
    assert_eq!(stats.health, 4);
}

#[test]
fn last_life_ends_the_run() {
    let mut stats = PlayerStats { health: 1, max_health: 5, lives: 1, max_lives: 3 };
    let mut defense = PlayerDefense { invulnerability: 0 };
    assert_eq!(handle_player_hit(&mut stats, &mut defense, 1), HitOutcome::GameOver);
    assert_eq!(stats.lives, 0);
    assert_eq!(stats.health, 0);
    assert_eq!(defense.invulnerability, 0);
}

#[test]
fn spare_life_refills_health() {
    let mut stats = PlayerStats { health: 1, max_health: 5, lives: 2, max_lives: 3 };
    let mut defense = PlayerDefense { invulnerability: 0 };
    assert_eq!(handle_player_hit(&mut stats, &mut defense, 4), HitOutcome::LifeLost);
    assert_eq!(stats.lives, 1);
    assert_eq!(stats.health, 5);
    assert_eq!(defense.invulnerability, PLAYER_HIT_INVULNERABILITY);
    assert!(HitOutcome::LifeLost.accepted());
    assert!(!HitOutcome::Ignored.accepted());
}

#[test]
fn spread_pickups_walk_the_modes_and_stop_at_laser() {
    let mut weapon = PlayerWeaponState::default();
    let mut defense = PlayerDefense { invulnerability: 0 };
    let mut stats = PlayerStats::default();
    let expected = [
        WeaponMode::Double,
        WeaponMode::Spread3,
        WeaponMode::Spread5,
        WeaponMode::Laser,
        WeaponMode::Laser,
        WeaponMode::Laser,
    ];
    for mode in expected {
        apply_powerup(PowerUpKind::Spread, &mut weapon, &mut defense, &mut stats);
        assert_eq!(weapon.mode, mode);
    }
    apply_powerup(PowerUpKind::Rapid, &mut weapon, &mut defense, &mut stats);
    assert_eq!(weapon.mode, WeaponMode::Laser);
    assert_eq!(weapon.fire_rate_level, 1);
    apply_powerup(PowerUpKind::Spread, &mut weapon, &mut defense, &mut stats);
    apply_powerup(PowerUpKind::Shield, &mut weapon, &mut defense, &mut stats);
    assert_eq!(weapon.mode, WeaponMode::Laser);
    assert_eq!(defense.invulnerability, SHIELD_DURATION);
}

#[test]
fn fire_rate_never_exceeds_five() {
    let mut weapon = PlayerWeaponState::default();
    let mut defense = PlayerDefense { invulnerability: 0 };
    let mut stats = PlayerStats::default();
    let mut last = 0;
    for _ in 0..20 {
        apply_powerup(PowerUpKind::Rapid, &mut weapon, &mut defense, &mut stats);
        assert!(weapon.fire_rate_level >= last);
        assert!(weapon.fire_rate_level <= 5);
        last = weapon.fire_rate_level;
    }
    assert_eq!(weapon.fire_rate_level, 5);
}

#[test]
fn defensive_pickups_extend_but_never_shorten() {
    let mut weapon = PlayerWeaponState::default();
    let mut defense = PlayerDefense { invulnerability: 5000 };
    let mut stats = PlayerStats { health: 4, max_health: 5, lives: 3, max_lives: 3 };
    apply_powerup(PowerUpKind::Shield, &mut weapon, &mut defense, &mut stats);
    assert_eq!(defense.invulnerability, 5000);
    apply_powerup(PowerUpKind::Invincibility, &mut weapon, &mut defense, &mut stats);
    assert_eq!(defense.invulnerability, INVINCIBLE_POWERUP_DURATION);
    apply_powerup(PowerUpKind::Health, &mut weapon, &mut defense, &mut stats);
    assert_eq!(stats.health, 5);
    apply_powerup(PowerUpKind::Health, &mut weapon, &mut defense, &mut stats);
    assert_eq!(stats.health, 5);
}

#[test]
fn cooldown_shrinks_with_fire_rate_and_laser() {
    let settings = PlayerSettings::default();
    let mut weapon = PlayerWeaponState::default();
    assert_eq!(weapon.current_cooldown(&settings), 250);
    weapon.fire_rate_level = 1;
    assert_eq!(weapon.current_cooldown(&settings), 212);
    weapon.fire_rate_level = 5;
    assert_eq!(weapon.current_cooldown(&settings), 110);
    weapon.mode = WeaponMode::Laser;
    assert_eq!(weapon.current_cooldown(&settings), 60);
    weapon.fire_rate_level = 0;
    assert_eq!(weapon.current_cooldown(&settings), 100);
    let slow = PlayerSettings { speed: 340, fire_cooldown: 2000 };
    weapon.mode = WeaponMode::Single;
    assert_eq!(weapon.current_cooldown(&slow), 400);
}

#[test]
fn stats_reset_and_health_fraction() {
    let mut stats = PlayerStats { health: 2, max_health: 4, lives: 1, max_lives: 1 };
    assert_eq!(stats.health_fraction(), 500);
    stats.reset();
    assert_eq!(stats, PlayerStats { health: 5, max_health: 5, lives: 3, max_lives: 3 });
    let empty = PlayerStats { health: 0, max_health: 0, lives: 0, max_lives: 0 };
    assert_eq!(empty.health_fraction(), 0);
}

#[test]
fn volume_steps_stay_in_range() {
    let settings = GameSettings::default();
    assert_eq!(settings.music_volume, 600);
    assert_eq!(step_volume(600, true), 650);
    assert_eq!(step_volume(980, true), 1000);
    assert_eq!(step_volume(30, false), 0);
    assert_eq!(step_volume(700, false), 650);
    assert_eq!(Difficulty::Hard.next(), Difficulty::Easy);
}
