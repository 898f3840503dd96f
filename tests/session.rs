use sforce::collisions::{enemy_projectile_player_collisions, player_enemy_collisions};
use sforce::difficulty::Difficulty;
use sforce::enemies::{spawn_enemy, EnemyKind, MovementPattern, SpawnEnemyEvent};
use sforce::events::AudioCue;
use sforce::fixed::Vec2;
use sforce::names::normalize_name;
use sforce::player::{
    fire_weapon_pattern, move_player, HitOutcome, MoveInput, PlayerDefense, PlayerGun,
    PlayerSettings, PlayerStats, PlayerWeaponState, WeaponMode,
};
use sforce::powerups::{collect_powerups, move_powerups, PowerUp, PowerUpKind};
use sforce::projectiles::{
    advance_enemy_projectiles, advance_player_projectiles, EnemyProjectile, Projectile,
};
use sforce::storyboard::Storyboard;
use sforce::events::ExplosionEvent;
use sforce::world::{ram_effects, shot_hit_effects, AppState, Simulation, TickInput};

fn idle() -> TickInput {
    TickInput {
        movement: MoveInput { up: false, down: false, left: false, right: false },
        shooting: false,
    }
}

#[test]
fn enemy_names_ignore_case_and_separators() {
    assert_eq!(EnemyKind::from_name("grunt"), Ok(EnemyKind::Grunt));
    assert_eq!(EnemyKind::from_name("Zig-Zag"), Ok(EnemyKind::ZigZag));
    assert_eq!(EnemyKind::from_name("zig_zag"), Ok(EnemyKind::ZigZag));
    assert_eq!(EnemyKind::from_name("CHASER"), Ok(EnemyKind::Chaser));
    assert_eq!(EnemyKind::from_name(" Bo ss"), Ok(EnemyKind::Boss));
    let err = EnemyKind::from_name("Dragon").unwrap_err();
    assert_eq!(err.value, "Dragon");
    assert!(EnemyKind::from_name("").is_err());
}

#[test]
fn powerup_names_ignore_case_and_separators() {
    assert_eq!(PowerUpKind::from_name("Spread"), Ok(PowerUpKind::Spread));
    assert_eq!(PowerUpKind::from_name("RAPID"), Ok(PowerUpKind::Rapid));
    assert_eq!(PowerUpKind::from_name("invincible"), Ok(PowerUpKind::Invincibility));
    assert_eq!(PowerUpKind::from_name("Invin-cibility"), Ok(PowerUpKind::Invincibility));
    assert_eq!(PowerUpKind::from_name("health"), Ok(PowerUpKind::Health));
    assert_eq!(PowerUpKind::from_name("shield_"), Ok(PowerUpKind::Shield));
    assert_eq!(PowerUpKind::from_name("bomb").unwrap_err().value, "bomb");
    assert_eq!(normalize_name("Zig Zag-_"), "zigzag");
}

#[test]
fn player_volleys_per_mode() {
    let origin = Vec2::new(0, -260_000);
    let mut weapon = PlayerWeaponState::default();
    let single = fire_weapon_pattern(&weapon, origin);
    assert_eq!(single.len(), 1);
    assert_eq!(single[0].origin, Vec2::new(0, -228_000));
    assert_eq!(single[0].velocity, Vec2::new(0, 520));
    assert_eq!(single[0].lifetime, 1600);
    weapon.mode = WeaponMode::Double;
    let double = fire_weapon_pattern(&weapon, origin);
    assert_eq!(double[0].origin, Vec2::new(-18_000, -228_000));
    assert_eq!(double[1].origin, Vec2::new(18_000, -228_000));
    weapon.mode = WeaponMode::Spread3;
    let spread = fire_weapon_pattern(&weapon, origin);
    assert_eq!(spread.len(), 3);
    assert_eq!(spread[1].velocity, Vec2::new(0, 540));
    assert_eq!(spread[0].velocity.x, -spread[2].velocity.x);
    weapon.mode = WeaponMode::Spread5;
    assert_eq!(fire_weapon_pattern(&weapon, origin).len(), 5);
    weapon.mode = WeaponMode::Laser;
    let laser = fire_weapon_pattern(&weapon, origin);
    assert_eq!(laser.len(), 2);
    assert_eq!(laser[0].velocity, Vec2::new(0, 700));
    assert_eq!(laser[0].size, Vec2::new(8_000, 42_000));
}

#[test]
fn gun_respects_its_cooldown() {
    let mut gun = PlayerGun { since_fire: 0 };
    let weapon = PlayerWeaponState::default();
    let settings = PlayerSettings::default();
    let origin = Vec2::new(0, 0);
    assert!(gun.update(true, &weapon, &settings, origin, 100).is_none());
    assert!(gun.update(false, &weapon, &settings, origin, 200).is_none());
    assert_eq!(gun.since_fire, 300);
    assert_eq!(gun.update(true, &weapon, &settings, origin, 0).unwrap().len(), 1);
    assert_eq!(gun.since_fire, 0);
}

#[test]
fn player_moves_and_stays_in_bounds() {
    let settings = PlayerSettings::default();
    let right = MoveInput { up: false, down: false, left: false, right: true };
    let (p, v) = move_player(Vec2::new(0, 0), right, &settings, 100);
    assert_eq!(v, Vec2::new(340, 0));
    assert_eq!(p, Vec2::new(34_000, 0));
    let diagonal = MoveInput { up: true, down: false, left: true, right: false };
    let (_, v) = move_player(Vec2::new(0, 0), diagonal, &settings, 10);
    assert_eq!(v, Vec2::new(-240, 240));
    let (p, _) = move_player(Vec2::new(600_000, 0), right, &settings, 1000);
    assert_eq!(p.x, 616_000);
    let still = MoveInput { up: true, down: true, left: true, right: true };
    let (p, v) = move_player(Vec2::new(5, 5), still, &settings, 1000);
    assert_eq!(v, Vec2::new(0, 0));
    assert_eq!(p, Vec2::new(5, 5));
}

#[test]
fn powerups_drift_and_leave_the_bottom() {
    let mut powerups = vec![
        PowerUp { kind: PowerUpKind::Rapid, position: Vec2::new(0, 0) },
        PowerUp { kind: PowerUpKind::Shield, position: Vec2::new(0, -419_000) },
    ];
    move_powerups(&mut powerups, 10);
    assert_eq!(powerups.len(), 1);
    assert_eq!(powerups[0].position, Vec2::new(0, -1_200));
}

#[test]
fn touching_a_powerup_collects_only_the_first() {
    let mut powerups = vec![
        PowerUp { kind: PowerUpKind::Health, position: Vec2::new(500_000, 0) },
        PowerUp { kind: PowerUpKind::Rapid, position: Vec2::new(10_000, 0) },
        PowerUp { kind: PowerUpKind::Spread, position: Vec2::new(-10_000, 0) },
    ];
    let mut weapon = PlayerWeaponState::default();
    let mut defense = PlayerDefense { invulnerability: 0 };
    let mut stats = PlayerStats::default();
    let half = Vec2::new(24_000, 32_000);
    let got = collect_powerups(&mut powerups, Vec2::new(0, 0), half, &mut weapon, &mut defense, &mut stats);
    assert_eq!(got, Some(PowerUpKind::Rapid));
    assert_eq!(weapon.fire_rate_level, 1);
    assert_eq!(weapon.mode, WeaponMode::Single);
    assert_eq!(powerups.len(), 2);
    assert_eq!(powerups[1].kind, PowerUpKind::Spread);
    let none = collect_powerups(&mut powerups, Vec2::new(0, 300_000), half, &mut weapon, &mut defense, &mut stats);
    assert_eq!(none, None);
}

#[test]
fn shots_expire_by_lifetime_and_bounds() {
    let mut bullets = vec![
        Projectile { position: Vec2::new(0, 0), velocity: Vec2::new(0, 520), size: Vec2::new(19_200, 38_400), lifetime: 10 },
        Projectile { position: Vec2::new(0, 455_000), velocity: Vec2::new(0, 520), size: Vec2::new(19_200, 38_400), lifetime: 1000 },
        Projectile { position: Vec2::new(0, 0), velocity: Vec2::new(100, 520), size: Vec2::new(19_200, 38_400), lifetime: 1000 },
    ];
    advance_player_projectiles(&mut bullets, 10);
    assert_eq!(bullets.len(), 1);
    assert_eq!(bullets[0].position, Vec2::new(1_000, 5_200));
    assert_eq!(bullets[0].lifetime, 990);
    let mut shots = vec![
        EnemyProjectile { position: Vec2::new(0, -475_000), velocity: Vec2::new(0, -600), size: Vec2::new(19_200, 44_800), lifetime: 3000, damage: 1 },
        EnemyProjectile { position: Vec2::new(0, 0), velocity: Vec2::new(0, -200), size: Vec2::new(19_200, 44_800), lifetime: 3000, damage: 1 },
    ];
    advance_enemy_projectiles(&mut shots, 10);
    assert_eq!(shots.len(), 1);
    assert_eq!(shots[0].position, Vec2::new(0, -2_000));
}

#[test]
fn ramming_enemy_hurts_and_leaves() {
    let event = SpawnEnemyEvent {
        kind: EnemyKind::Tank,
        position: Vec2::new(0, -250_000),
        movement: MovementPattern::Tank { speed: 90 },
        powerup: Some(PowerUpKind::Health),
    };
    let mut enemies = vec![spawn_enemy(&event, Difficulty::Normal, 3)];
    let mut stats = PlayerStats::default();
    let mut defense = PlayerDefense { invulnerability: 200 };
    let half = Vec2::new(24_000, 32_000);
    let player = Vec2::new(0, -260_000);
    assert!(player_enemy_collisions(player, half, &mut enemies, &mut stats, &mut defense).is_none());
    assert_eq!(enemies.len(), 1);
    defense.invulnerability = 0;
    let (e, outcome) = player_enemy_collisions(player, half, &mut enemies, &mut stats, &mut defense).unwrap();
    assert_eq!(outcome, HitOutcome::Damaged);
    assert_eq!(e.id, 3);
    assert!(enemies.is_empty());
    assert_eq!(stats.health, 4);
}

#[test]
fn enemy_shot_hits_player_once() {
    let shot = EnemyProjectile { position: Vec2::new(0, 0), velocity: Vec2::new(0, -200), size: Vec2::new(19_200, 44_800), lifetime: 3000, damage: 2 };
    let mut shots = vec![shot, shot];
    let mut stats = PlayerStats::default();
    let mut defense = PlayerDefense { invulnerability: 0 };
    let half = Vec2::new(24_000, 32_000);
    let (_, outcome) = enemy_projectile_player_collisions(Vec2::new(0, 0), half, &mut shots, &mut stats, &mut defense).unwrap();
    assert_eq!(outcome, HitOutcome::Damaged);
    assert_eq!(stats.health, 3);
    assert_eq!(shots.len(), 1);
    assert!(enemy_projectile_player_collisions(Vec2::new(0, 0), half, &mut shots, &mut stats, &mut defense).is_none());
    assert_eq!(shots.len(), 1);
}

#[test]
fn paused_run_does_not_move() {
    let mut sim = Simulation::new(Storyboard::default(), Difficulty::Normal);
    assert_eq!(sim.tick(idle(), 1000).cues.len(), 0);
    assert_eq!(sim.start_run(), Some(AudioCue::UiSelect));
    assert_eq!(sim.app_state, AppState::Playing);
    sim.tick(idle(), 3600);
    assert_eq!(sim.enemies.len(), 3);
    assert_eq!(sim.pause(), Some(AudioCue::UiSelect));
    let before = sim.clone();
    let out = sim.tick(idle(), 5000);
    assert!(out.cues.is_empty());
    assert_eq!(sim, before);
    assert_eq!(sim.resume(), Some(AudioCue::UiSelect));
    assert_eq!(sim.app_state, AppState::Playing);
    assert_eq!(sim.enemies.len(), 3);
}

#[test]
fn score_threshold_brings_the_boss_and_stops_waves() {
    let mut sim = Simulation::new(Storyboard::default(), Difficulty::Normal);
    sim.start_run();
    sim.scoreboard.score = 2600;
    sim.tick(idle(), 10);
    assert!(sim.boss.active);
    assert!(sim.director.boss_active);
    assert_eq!(sim.enemies.len(), 1);
    assert_eq!(sim.enemies[0].kind, EnemyKind::Boss);
    assert_eq!(sim.enemies[0].health, 200);
    for _ in 0..10 {
        sim.tick(idle(), 1000);
    }
    assert!(sim.enemies.iter().all(|e| e.kind == EnemyKind::Boss));
}

#[test]
fn losing_the_last_life_ends_the_run() {
    let mut sim = Simulation::new(Storyboard::default(), Difficulty::Normal);
    sim.start_run();
    sim.stats = PlayerStats { health: 1, max_health: 5, lives: 1, max_lives: 3 };
    let shot = EnemyProjectile { position: sim.player, velocity: Vec2::new(0, 0), size: Vec2::new(19_200, 44_800), lifetime: 3000, damage: 1 };
    sim.enemy_shots.push(shot);
    let out = sim.tick(idle(), 10);
    assert!(out.cues.contains(&AudioCue::Hit));
    assert_eq!(sim.stats.lives, 0);
    assert_eq!(sim.app_state, AppState::GameOver);
    assert!(sim.enemy_shots.is_empty());
    assert_eq!(sim.return_to_title(), Some(AudioCue::UiSelect));
    assert_eq!(sim.scoreboard.score, 0);
}

#[test]
fn losing_a_spare_life_respawns_the_player() {
    let mut sim = Simulation::new(Storyboard::default(), Difficulty::Normal);
    sim.start_run();
    sim.player = Vec2::new(100_000, 0);
    sim.stats = PlayerStats { health: 1, max_health: 5, lives: 2, max_lives: 3 };
    let shot = EnemyProjectile { position: sim.player, velocity: Vec2::new(0, 0), size: Vec2::new(19_200, 44_800), lifetime: 3000, damage: 1 };
    sim.enemy_shots.push(shot);
    let out = sim.tick(idle(), 10);
    assert!(out.life_lost);
    assert_eq!(sim.stats.lives, 1);
    assert_eq!(sim.stats.health, 5);
    assert_eq!(sim.player, Vec2::new(0, -260_000));
    assert_eq!(sim.app_state, AppState::Playing);
}

#[test]
fn ram_and_shot_effects() {
    let event = SpawnEnemyEvent {
        kind: EnemyKind::Tank,
        position: Vec2::new(5, 6),
        movement: MovementPattern::Tank { speed: 90 },
        powerup: Some(PowerUpKind::Shield),
    };
    let tank = spawn_enemy(&event, Difficulty::Normal, 1);
    let (mut cues, mut explosions, mut drops) = (Vec::new(), Vec::new(), Vec::new());
    ram_effects(&tank, Vec2::new(1, 2), &mut cues, &mut explosions, &mut drops);
    assert_eq!(cues, vec![AudioCue::Hit]);
    assert_eq!(
        explosions,
        vec![
            ExplosionEvent { position: Vec2::new(5, 6), large: true },
            ExplosionEvent { position: Vec2::new(1, 2), large: true }
        ]
    );
    assert_eq!(drops.len(), 1);
    assert_eq!(drops[0].kind, PowerUpKind::Shield);
    shot_hit_effects(Vec2::new(1, 2), &mut cues, &mut explosions);
    assert_eq!(cues, vec![AudioCue::Hit, AudioCue::Hit]);
    assert_eq!(explosions[2], ExplosionEvent { position: Vec2::new(1, 2), large: false });
}

#[test]
fn tick_reports_a_shot_hit() {
    let mut sim = Simulation::new(Storyboard::default(), Difficulty::Normal);
    sim.start_run();
    let shot = EnemyProjectile { position: sim.player, velocity: Vec2::new(0, 0), size: Vec2::new(19_200, 44_800), lifetime: 3000, damage: 2 };
    sim.enemy_shots.push(shot);
    let out = sim.tick(idle(), 10);
    assert_eq!(out.cues, vec![AudioCue::Hit]);
    assert_eq!(out.shot_hit.unwrap().1, HitOutcome::Damaged);
    assert!(out.ram.is_none());
    assert_eq!(out.explosions.len(), 1);
    assert!(!out.explosions[0].large);
    assert_eq!(sim.stats.health, 3);
}
