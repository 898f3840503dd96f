use vstd::prelude::*;
use crate::difficulty::Difficulty;
use crate::enemies::{Enemy, EnemyKind, enemy_shot, new_enemy_shot, kind_score, kind_size, ELAPSED_LIMIT};
use crate::events::AudioCue;
use crate::fixed::{Vec2, COORD_LIMIT, STEP_LIMIT, clamp_i64, clamp_int, abs_int,
    div_toward_zero, div_toward_zero_i128, lemma_div_toward_zero_scaled, shift_coord,
    shift_coord_spec, sine, sine_spec, cosine, cosine_spec, aimed_velocity, aimed_velocity_spec,
    polar_velocity, polar_velocity_spec, displacement};
use crate::projectiles::EnemyFireEvent;
use crate::storyboard::Storyboard;
use crate::waves::{WaveDirector, advance_level};

verus! {

/// Health of a freshly spawned boss.
pub const BOSS_MAX_HEALTH: i32 = 200;

/// Score needed for the first boss, and added to the threshold after each victory.
pub const BOSS_SCORE_STEP: u32 = 2600;

/// The three stages of the boss fight, in the order they are reached.
#[derive(Debug, Clone, Copy, PartialEq, Eq, Structural)]
pub enum BossPhase {
    Entry,
    Second,
    Final,
}

pub open spec fn phase_rank(p: BossPhase) -> int {
    match p {
        BossPhase::Entry => 0,
        BossPhase::Second => 1,
        BossPhase::Final => 2,
    }
}

/// Per-boss steering and firing state.
#[derive(Debug, Clone, Copy, PartialEq, Eq, Structural)]
pub struct BossControl {
    pub phase: BossPhase,
    /// Horizontal patrol direction: 1 or -1.
    pub direction: i64,
    /// Time since the boss appeared, in milliseconds.
    pub elapsed: u64,
    /// Time until the next volley, in milliseconds; at or below zero the boss fires.
    pub fire_timer: i64,
}

impl BossControl {
    pub open spec fn wf(self) -> bool {
        &&& self.direction == 1 || self.direction == -1
        &&& self.elapsed <= ELAPSED_LIMIT
        &&& -(STEP_LIMIT as int) <= self.fire_timer <= STEP_LIMIT
    }
}

/// The boss encounter as seen by the rest of the game.
#[derive(Debug, Clone, Copy, PartialEq, Eq, Structural)]
pub struct BossState {
    pub active: bool,
    /// Identity of the boss ship while it is in play.
    pub entity: Option<u64>,
    pub max_health: i32,
    /// Mirrors the boss ship's health, never below zero.
    pub health: i32,
    /// Score at which the next boss appears.
    pub spawn_score: u32,
}

impl Default for BossState {
    fn default() -> (r: BossState)
        ensures
            r == (BossState {
                active: false,
                entity: None,
                max_health: 0,
                health: 0,
                spawn_score: BOSS_SCORE_STEP,
            }),
    {
        BossState { active: false, entity: None, max_health: 0, health: 0, spawn_score: BOSS_SCORE_STEP }
    }
}

impl BossState {
    /// Clears the encounter at the start of a run; the score threshold is kept.
    pub fn reset(&mut self)
        ensures
            *final(self) == (BossState {
                active: false,
                entity: None,
                max_health: 0,
                health: 0,
                ..*old(self)
            }),
    {
        self.active = false;
        self.entity = None;
        self.max_health = 0;
        self.health = 0;
    }
}

impl BossState {
    /// Fill of the boss health bar in per-mille (health below zero counts as zero), or
    /// `None` while the bar is hidden (no active boss, or no maximum).
    pub fn bar_fill(&self) -> (r: Option<u32>)
        ensures
            !(self.active && self.max_health > 0) ==> r is None,
            self.active && self.max_health > 0 ==> r == Some(
                clamp_int(
                    (if self.health < 0 {
                        0
                    } else {
                        self.health as int
                    }) * 1000 / (self.max_health as int),
                    0,
                    1000,
                ) as u32,
            ),
    {
        if !(self.active && self.max_health > 0) {
            return None;
        }
        let h: i64 = if self.health < 0 {
            0
        } else {
            self.health as i64
        };
        let fill: i64 = h * 1000 / (self.max_health as i64);
        Some(clamp_i64(fill, 0, 1000) as u32)
    }
}

/// The phase a health ratio calls for: Final below 35%, Second below 65%, Entry above.
pub open spec fn phase_for_ratio(health: int, max_health: int) -> BossPhase {
    let h = if health < 0 {
        0
    } else {
        health
    };
    if 100 * h < 35 * max_health {
        BossPhase::Final
    } else if 100 * h < 65 * max_health {
        BossPhase::Second
    } else {
        BossPhase::Entry
    }
}

/// The phase after a health update: the boss drops to Final or Second when the ratio calls
/// for it and otherwise keeps its phase. Without a maximum the ratio counts as full.
pub open spec fn phase_update(phase: BossPhase, health: int, max_health: int) -> BossPhase {
    if max_health <= 0 {
        phase
    } else {
        let target = phase_for_ratio(health, max_health);
        if target == BossPhase::Entry {
            phase
        } else {
            target
        }
    }
}

/// The phase after a health update.
pub fn update_phase(phase: BossPhase, health: i32, max_health: i32) -> (r: BossPhase)
    ensures
        r == phase_update(phase, health as int, max_health as int),
{
    if max_health <= 0 {
        return phase;
    }
    let h: i64 = if health < 0 {
        0
    } else {
        health as i64
    };
    let m = max_health as i64;
    if 100 * h < 35 * m {
        BossPhase::Final
    } else if 100 * h < 65 * m {
        BossPhase::Second
    } else {
        phase
    }
}

/// As health only decreases, the phase never goes back to an earlier stage.
pub proof fn lemma_phase_never_reverts(phase: BossPhase, old_health: int, health: int, max_health: int)
    requires
        health <= old_health,
        max_health > 0 ==> phase == phase_for_ratio(old_health, max_health),
    ensures
        phase_rank(phase_update(phase, health, max_health)) >= phase_rank(phase),
{
}

/// The boss phase is a function of the health ratio alone: a boss that enters in Entry
/// and whose health only ever decreases is always in the phase its current ratio calls for.
pub proof fn lemma_phase_follows_ratio(phase: BossPhase, old_health: int, health: int, max_health: int)
    requires
        max_health > 0,
        health <= old_health,
        phase == phase_for_ratio(old_health, max_health),
    ensures
        phase_update(phase, health, max_health) == phase_for_ratio(health, max_health),
{
}

/// A fresh boss is in Entry.
pub proof fn lemma_full_health_is_entry(max_health: int)
    requires
        max_health > 0,
    ensures
        phase_for_ratio(max_health, max_health) == BossPhase::Entry,
{
}

/// Height at which the boss appears, in milli-pixels.
pub const BOSS_SPAWN_Y: i64 = 216_000;

/// The boss ship that `trigger_boss_spawn` brings into play.
pub open spec fn boss_enemy(id: u64) -> Enemy {
    Enemy {
        id,
        kind: EnemyKind::Boss,
        health: BOSS_MAX_HEALTH,
        score: kind_score(EnemyKind::Boss),
        damage: 1,
        position: Vec2 { x: 0, y: BOSS_SPAWN_Y },
        size: kind_size(EnemyKind::Boss),
        motion: None,
        weapon: None,
        drop: None,
        boss: Some(BossControl { phase: BossPhase::Entry, direction: 1, elapsed: 0, fire_timer: 1000 }),
    }
}

/// Brings in a boss once the score reaches the threshold while no boss is active: the
/// encounter becomes active with full health and the waves are suspended.
pub fn trigger_boss_spawn(score: u32, state: &mut BossState, director: &mut WaveDirector, id: u64) -> (r: Option<Enemy>)
    ensures
        (old(state).active || score < old(state).spawn_score) ==> r is None && *final(state) == *old(state)
            && *final(director) == *old(director),
        !(old(state).active || score < old(state).spawn_score) ==> {
            &&& r == Some(boss_enemy(id))
            &&& *final(state) == (BossState {
                active: true,
                entity: Some(id),
                max_health: BOSS_MAX_HEALTH,
                health: BOSS_MAX_HEALTH,
                spawn_score: old(state).spawn_score,
            })
            &&& *final(director) == (WaveDirector { boss_active: true, ..*old(director) })
        },
{
    if state.active || score < state.spawn_score {
        return None;
    }
    let boss = Enemy {
        id,
        kind: EnemyKind::Boss,
        health: BOSS_MAX_HEALTH,
        score: EnemyKind::Boss.score_value(),
        damage: 1,
        position: Vec2 { x: 0, y: BOSS_SPAWN_Y },
        size: EnemyKind::Boss.body_size(),
        motion: None,
        weapon: None,
        drop: None,
        boss: Some(BossControl { phase: BossPhase::Entry, direction: 1, elapsed: 0, fire_timer: 1000 }),
    };
    state.active = true;
    state.entity = Some(id);
    state.max_health = BOSS_MAX_HEALTH;
    state.health = BOSS_MAX_HEALTH;
    director.boss_active = true;
    Some(boss)
}

/// Entry fan: three shots spread a little either side of straight down.
pub open spec fn boss_entry_shot(origin: Vec2, offset: int, speed: int) -> EnemyFireEvent {
    enemy_shot(origin, aimed_velocity_spec(offset * 180, -1000, speed), 1)
}

/// Second-phase burst: three shots close together, from just below the boss.
pub open spec fn boss_second_shot(origin: Vec2, i: int, speed: int) -> EnemyFireEvent {
    enemy_shot(
        Vec2 { x: origin.x, y: (origin.y - 20_000) as i64 },
        polar_velocity_spec(-90_000 + (i - 1) * 6_875, speed),
        1,
    )
}

/// Final radial burst: six shots evenly round the full circle.
pub open spec fn boss_final_shot(origin: Vec2, i: int, speed: int) -> EnemyFireEvent {
    enemy_shot(origin, polar_velocity_spec(i * 60_000, speed), 1)
}

/// The volley of each phase, at bullet factor `factor` (per-mille). Each phase is more
/// intense than the one before: a 3-way fan at 220, a 3-way burst at 260, then a 6-ray
/// radial burst at 300, on cooldowns of 1350, 950 and 700 milliseconds.
pub open spec fn boss_volley_spec(phase: BossPhase, origin: Vec2, factor: int) -> Seq<EnemyFireEvent> {
    match phase {
        BossPhase::Entry => Seq::new(3, |i: int| boss_entry_shot(origin, i - 1, 220 * factor / 1000)),
        BossPhase::Second => Seq::new(3, |i: int| boss_second_shot(origin, i, 260 * factor / 1000)),
        BossPhase::Final => Seq::new(6, |i: int| boss_final_shot(origin, i, 300 * factor / 1000)),
    }
}

/// The volley the boss fires in `phase` from `origin`.
pub fn fire_boss_pattern(phase: BossPhase, origin: Vec2, factor: u64) -> (r: Vec<EnemyFireEvent>)
    requires
        origin.in_field(),
        factor <= 1200,
    ensures
        r@ == boss_volley_spec(phase, origin, factor as int),
{
    let mut shots: Vec<EnemyFireEvent> = Vec::new();
    let f = factor as i64;
    match phase {
        BossPhase::Entry => {
            let speed = 220 * f / 1000;
            let mut i: i64 = 0;
            while i < 3
                invariant
                    0 <= i <= 3,
                    speed == 220 * factor / 1000,
                    0 <= speed <= 264,
                    shots@ == Seq::new(i as nat, |k: int| boss_entry_shot(origin, k - 1, 220 * factor / 1000)),
                decreases 3 - i,
            {
                let v = aimed_velocity(Vec2 { x: 0, y: 0 }, Vec2 { x: (i - 1) * 180, y: -1000 }, speed);
                shots.push(new_enemy_shot(origin, v, 1));
                i = i + 1;
                assert(shots@ =~= Seq::new(i as nat, |k: int| boss_entry_shot(origin, k - 1, 220 * factor / 1000)));
            }
        },
        BossPhase::Second => {
            let speed = 260 * f / 1000;
            let mut i: i64 = 0;
            while i < 3
                invariant
                    0 <= i <= 3,
                    origin.in_field(),
                    speed == 260 * factor / 1000,
                    0 <= speed <= 312,
                    shots@ == Seq::new(i as nat, |k: int| boss_second_shot(origin, k, 260 * factor / 1000)),
                decreases 3 - i,
            {
                let v = polar_velocity(-90_000 + (i - 1) * 6_875, speed);
                let from = Vec2 { x: origin.x, y: origin.y - 20_000 };
                shots.push(new_enemy_shot(from, v, 1));
                i = i + 1;
                assert(shots@ =~= Seq::new(i as nat, |k: int| boss_second_shot(origin, k, 260 * factor / 1000)));
            }
        },
        BossPhase::Final => {
            let speed = 300 * f / 1000;
            let mut i: i64 = 0;
            while i < 6
                invariant
                    0 <= i <= 6,
                    speed == 300 * factor / 1000,
                    0 <= speed <= 360,
                    shots@ == Seq::new(i as nat, |k: int| boss_final_shot(origin, k, 300 * factor / 1000)),
                decreases 6 - i,
            {
                let v = polar_velocity(i * 60_000, speed);
                shots.push(new_enemy_shot(origin, v, 1));
                i = i + 1;
                assert(shots@ =~= Seq::new(i as nat, |k: int| boss_final_shot(origin, k, 300 * factor / 1000)));
            }
        },
    }
    shots
}

/// Half width of the Entry patrol, in milli-pixels.
pub const PATROL_LIMIT: i64 = 512_000;

/// Delay before the next volley after firing in each phase, in milliseconds.
pub open spec fn phase_cooldown(phase: BossPhase) -> i64 {
    match phase {
        BossPhase::Entry => 1350,
        BossPhase::Second => 950,
        BossPhase::Final => 700,
    }
}

/// Where the boss stands after one step of its phase's motion, and its new direction.
///
/// Entry patrols sideways between the patrol limits with a slow vertical bob; Second
/// weaves on both axes; Final closes on the player's x at a bounded pace and holds a
/// vertical band.
pub open spec fn boss_motion_spec(phase: BossPhase, p: Vec2, direction: i64, elapsed: int, player_x: int, dt: int) -> (Vec2, i64) {
    match phase {
        BossPhase::Entry => {
            let x = shift_coord_spec(p.x as int, direction * 160 * dt);
            let y = 180_000 + div_toward_zero(sine_spec(div_toward_zero(elapsed * 68_755, 1000)) * 20_000, 1000);
            if abs_int(x) > PATROL_LIMIT {
                (Vec2 { x: clamp_int(x, -PATROL_LIMIT as int, PATROL_LIMIT as int) as i64, y: y as i64 }, (-direction) as i64)
            } else {
                (Vec2 { x: x as i64, y: y as i64 }, direction)
            }
        },
        BossPhase::Second => {
            let x = div_toward_zero(320_000 * sine_spec(div_toward_zero(elapsed * 45_837, 1000)), 1000);
            let y = 144_000 + div_toward_zero(cosine_spec(div_toward_zero(elapsed * 91_673, 1000)) * 40_000, 1000);
            (Vec2 { x: x as i64, y: y as i64 }, direction)
        },
        BossPhase::Final => {
            let pull = clamp_int(player_x - p.x, -220_000, 220_000);
            let x = shift_coord_spec(p.x as int, div_toward_zero(pull * dt * 4, 5000));
            (Vec2 { x: x as i64, y: clamp_int(p.y as int, 50_000, 180_000) as i64 }, direction)
        },
    }
}

/// Moves the boss by one step of its phase's motion.
pub fn boss_motion(phase: BossPhase, p: Vec2, direction: i64, elapsed: u64, player_x: i64, dt: u64) -> (r: (Vec2, i64))
    requires
        p.in_field(),
        direction == 1 || direction == -1,
        elapsed <= ELAPSED_LIMIT,
        -COORD_LIMIT <= player_x <= COORD_LIMIT,
        dt <= STEP_LIMIT,
    ensures
        r == boss_motion_spec(phase, p, direction, elapsed as int, player_x as int, dt as int),
        r.0.in_field(),
        r.1 == 1 || r.1 == -1,
{
    match phase {
        BossPhase::Entry => {
            let d = displacement(direction * 160, dt);
            assert(direction * 160 * dt == (direction * 160) * dt);
            let x = shift_coord(p.x, d);
            let phase_angle = (elapsed as i64) * 68_755 / 1000;
            let s = sine(phase_angle);
            let bob = div_toward_zero_i128((s as i128) * 20_000, 1000);
            proof {
                lemma_div_toward_zero_scaled((s as int) * 20_000, 1000, 20_000);
            }
            let y = 180_000 + bob as i64;
            if x > PATROL_LIMIT || x < -PATROL_LIMIT {
                (Vec2 { x: clamp_i64(x, -PATROL_LIMIT, PATROL_LIMIT), y }, -direction)
            } else {
                (Vec2 { x, y }, direction)
            }
        },
        BossPhase::Second => {
            let s = sine((elapsed as i64) * 45_837 / 1000);
            let c = cosine((elapsed as i64) * 91_673 / 1000);
            let sx = div_toward_zero_i128(320_000 * (s as i128), 1000);
            proof {
                lemma_div_toward_zero_scaled(320_000 * (s as int), 1000, 320_000);
            }
            let cy = div_toward_zero_i128((c as i128) * 40_000, 1000);
            proof {
                lemma_div_toward_zero_scaled((c as int) * 40_000, 1000, 40_000);
            }
            (Vec2 { x: sx as i64, y: 144_000 + cy as i64 }, direction)
        },
        BossPhase::Final => {
            let pull = clamp_i64(player_x - p.x, -220_000, 220_000);
            let d = displacement(pull, dt);
            let step = div_toward_zero_i128((d as i128) * 4, 5000);
            proof {
                lemma_div_toward_zero_scaled((d as int) * 4, 5000, COORD_LIMIT as int);
                assert((pull * dt) * 4 == pull * dt * 4);
            }
            let x = shift_coord(p.x, step as i64);
            (Vec2 { x, y: clamp_i64(p.y, 50_000, 180_000) }, direction)
        },
    }
}

/// A boss ship after one step of the fight, and the shots it fires.
pub open spec fn boss_step_spec(e: Enemy, max_health: int, player_x: int, factor: int, dt: int) -> (Enemy, Seq<EnemyFireEvent>) {
    let c = e.boss->0;
    let elapsed: int = if c.elapsed + dt > ELAPSED_LIMIT {
        ELAPSED_LIMIT as int
    } else {
        c.elapsed + dt
    };
    let timer = c.fire_timer - dt;
    let phase = phase_update(c.phase, e.health as int, max_health);
    let (p, direction) = boss_motion_spec(phase, e.position, c.direction, elapsed, player_x, dt);
    let fires = timer <= 0;
    let control = BossControl {
        phase,
        direction,
        elapsed: elapsed as u64,
        fire_timer: if fires {
            phase_cooldown(phase)
        } else {
            timer as i64
        },
    };
    (
        Enemy { position: p, boss: Some(control), ..e },
        if fires {
            boss_volley_spec(phase, p, factor)
        } else {
            Seq::empty()
        },
    )
}

/// One step of the boss fight for the boss ship: its phase follows the health ratio, it
/// moves as its phase dictates, and when its fire timer runs out it fires the phase's
/// volley and re-arms the timer with the phase's cooldown.
pub fn boss_step(boss: &mut Enemy, max_health: i32, player_x: i64, factor: u64, dt: u64) -> (r: Vec<EnemyFireEvent>)
    requires
        old(boss).boss is Some,
        old(boss).wf(),
        -COORD_LIMIT <= player_x <= COORD_LIMIT,
        factor <= 1200,
        dt <= STEP_LIMIT,
    ensures
        (*final(boss), r@) == boss_step_spec(*old(boss), max_health as int, player_x as int, factor as int, dt as int),
        final(boss).wf(),
        final(boss).boss is Some,
{
    let c = boss.boss.unwrap();
    let elapsed: u64 = if c.elapsed + dt > ELAPSED_LIMIT {
        ELAPSED_LIMIT
    } else {
        c.elapsed + dt
    };
    let timer: i64 = c.fire_timer - dt as i64;
    let phase = update_phase(c.phase, boss.health, max_health);
    let (p, direction) = boss_motion(phase, boss.position, c.direction, elapsed, player_x, dt);
    boss.position = p;
    if timer <= 0 {
        let cooldown: i64 = match phase {
            BossPhase::Entry => 1350,
            BossPhase::Second => 950,
            BossPhase::Final => 700,
        };
        boss.boss = Some(BossControl { phase, direction, elapsed, fire_timer: cooldown });
        fire_boss_pattern(phase, p, factor)
    } else {
        boss.boss = Some(BossControl { phase, direction, elapsed, fire_timer: timer });
        Vec::new()
    }
}

/// Whether an enemy is a boss ship.
pub open spec fn is_boss(e: Enemy) -> bool {
    e.boss is Some
}

/// The index of the only boss ship among `enemies`, if there is exactly one.
pub fn find_boss(enemies: &Vec<Enemy>) -> (r: Option<usize>)
    ensures
        r matches Some(i) ==> i < enemies@.len() && is_boss(enemies@[i as int]) && forall|j: int|
            0 <= j < enemies@.len() && j != i ==> !is_boss(#[trigger] enemies@[j]),
        r is None ==> forall|i: int|
            0 <= i < enemies@.len() && is_boss(#[trigger] enemies@[i]) ==> exists|j: int|
                0 <= j < enemies@.len() && j != i && is_boss(#[trigger] enemies@[j]),
{
    let mut found: Option<usize> = None;
    let mut i: usize = 0;
    while i < enemies.len()
        invariant
            i <= enemies@.len(),
            found matches Some(k) ==> k < i && is_boss(enemies@[k as int]) && forall|j: int|
                0 <= j < i && j != k ==> !is_boss(#[trigger] enemies@[j]),
            found is None ==> forall|j: int| 0 <= j < i ==> !is_boss(#[trigger] enemies@[j]),
        decreases enemies@.len() - i,
    {
        if enemies[i].boss.is_some() {
            match found {
                Some(k) => {
                    assert(is_boss(enemies@[k as int]));
                    assert(is_boss(enemies@[i as int]));
                    return None;
                },
                None => {
                    found = Some(i);
                },
            }
        }
        i = i + 1;
    }
    found
}

/// Runs one step of the boss fight for the boss ship, if exactly one is in play; returns
/// the shots it fires.
pub fn boss_movement_and_attacks(
    enemies: &mut Vec<Enemy>,
    state: &BossState,
    player_x: i64,
    difficulty: Difficulty,
    dt: u64,
) -> (r: Vec<EnemyFireEvent>)
    requires
        forall|i: int| 0 <= i < old(enemies)@.len() ==> (#[trigger] old(enemies)@[i]).wf(),
        -COORD_LIMIT <= player_x <= COORD_LIMIT,
        dt <= STEP_LIMIT,
    ensures
        final(enemies)@.len() == old(enemies)@.len(),
        forall|i: int| 0 <= i < final(enemies)@.len() ==> (#[trigger] final(enemies)@[i]).wf(),
        forall|i: int| 0 <= i < final(enemies)@.len() ==> (#[trigger] final(enemies)@[i]).id == old(enemies)@[i].id
            && final(enemies)@[i].health == old(enemies)@[i].health && is_boss(final(enemies)@[i]) == is_boss(old(enemies)@[i]),
        (exists|k: int| 0 <= k < old(enemies)@.len() && is_boss(old(enemies)@[k]) && forall|j: int|
            0 <= j < old(enemies)@.len() && j != k ==> !is_boss(#[trigger] old(enemies)@[j])) ==> exists|k: int| {
            &&& 0 <= k < old(enemies)@.len()
            &&& is_boss(old(enemies)@[k])
            &&& (final(enemies)@[k], r@) == boss_step_spec(
                old(enemies)@[k],
                state.max_health as int,
                player_x as int,
                crate::difficulty::enemy_bullet_permille(difficulty) as int,
                dt as int,
            )
            &&& final(enemies)@ == old(enemies)@.update(k, final(enemies)@[k])
        },
        !(exists|k: int| 0 <= k < old(enemies)@.len() && is_boss(old(enemies)@[k]) && forall|j: int|
            0 <= j < old(enemies)@.len() && j != k ==> !is_boss(#[trigger] old(enemies)@[j])) ==> r@.len() == 0
            && final(enemies)@ == old(enemies)@,
{
    match find_boss(enemies) {
        None => {
            proof {
                if exists|k: int| 0 <= k < enemies@.len() && is_boss(enemies@[k]) && forall|j: int|
                    0 <= j < enemies@.len() && j != k ==> !is_boss(#[trigger] enemies@[j]) {
                    let k = choose|k: int| 0 <= k < enemies@.len() && is_boss(enemies@[k]) && forall|j: int|
                        0 <= j < enemies@.len() && j != k ==> !is_boss(#[trigger] enemies@[j]);
                    assert(is_boss(enemies@[k]));
                }
            }
            Vec::new()
        },
        Some(i) => {
            let mut boss = enemies[i];
            assert(is_boss(enemies@[i as int]));
            let shots = boss_step(&mut boss, state.max_health, player_x, difficulty.enemy_bullet_factor(), dt);
            enemies.set(i, boss);
            shots
        },
    }
}

/// Follows the boss ship's health while it is in play. When the active boss has gone,
/// the encounter is cleared, the waves resume on the next level, the threshold for the
/// next boss goes up by one step, and a UI-select cue is returned.
pub fn boss_health_tracker(
    state: &mut BossState,
    enemies: &Vec<Enemy>,
    director: &mut WaveDirector,
    storyboard: &Storyboard,
    difficulty: Difficulty,
) -> (r: Option<AudioCue>)
    requires
        storyboard.wf(),
        old(director).wf(),
    ensures
        final(director).wf(),
        final(director).boss_active == old(director).boss_active || (!final(director).boss_active && !final(state).active),
        final(state).active == old(state).active || !final(state).active,
        (exists|k: int| 0 <= k < enemies@.len() && is_boss(enemies@[k]) && forall|j: int|
            0 <= j < enemies@.len() && j != k ==> !is_boss(#[trigger] enemies@[j])) ==> exists|k: int| {
            &&& 0 <= k < enemies@.len()
            &&& is_boss(enemies@[k])
            &&& r is None
            &&& *final(director) == *old(director)
            &&& *final(state) == (BossState {
                entity: Some(enemies@[k].id),
                health: if enemies@[k].health < 0 {
                    0
                } else {
                    enemies@[k].health
                },
                ..*old(state)
            })
        },
        !(exists|k: int| 0 <= k < enemies@.len() && is_boss(enemies@[k]) && forall|j: int|
            0 <= j < enemies@.len() && j != k ==> !is_boss(#[trigger] enemies@[j])) ==> {
            &&& !old(state).active ==> r is None && *final(state) == *old(state) && *final(director) == *old(director)
            &&& old(state).active ==> {
                &&& r == Some(AudioCue::UiSelect)
                &&& *final(state) == (BossState {
                    active: false,
                    entity: None,
                    health: 0,
                    max_health: 0,
                    spawn_score: (if old(state).spawn_score + BOSS_SCORE_STEP > u32::MAX {
                        u32::MAX as int
                    } else {
                        old(state).spawn_score + BOSS_SCORE_STEP
                    }) as u32,
                })
                &&& *final(director) == crate::waves::level_advanced(
                    *storyboard,
                    WaveDirector { boss_active: false, ..*old(director) },
                    difficulty,
                )
                &&& !final(director).boss_active
                &&& final(director).level_index == (if storyboard.levels@.len() == 0 {
                    old(director).level_index as int
                } else {
                    match old(director).pending_level {
                        Some(l) => l as int,
                        None => (old(director).level_index + 1) % (storyboard.levels@.len() as int),
                    }
                })
            }
        },
{
    match find_boss(enemies) {
        Some(i) => {
            let e = enemies[i];
            assert(exists|k: int| 0 <= k < enemies@.len() && is_boss(enemies@[k]) && forall|j: int|
                0 <= j < enemies@.len() && j != k ==> !is_boss(#[trigger] enemies@[j])) by {
                assert(is_boss(enemies@[i as int]));
            }
            state.entity = Some(e.id);
            state.health = if e.health < 0 {
                0
            } else {
                e.health
            };
            None
        },
        None => {
            proof {
                if exists|k: int| 0 <= k < enemies@.len() && is_boss(enemies@[k]) && forall|j: int|
                    0 <= j < enemies@.len() && j != k ==> !is_boss(#[trigger] enemies@[j]) {
                    let k = choose|k: int| 0 <= k < enemies@.len() && is_boss(enemies@[k]) && forall|j: int|
                        0 <= j < enemies@.len() && j != k ==> !is_boss(#[trigger] enemies@[j]);
                    assert(is_boss(enemies@[k]));
                }
            }
            if state.active {
                state.active = false;
                state.entity = None;
                state.health = 0;
                state.max_health = 0;
                director.boss_active = false;
                state.spawn_score = state.spawn_score.saturating_add(BOSS_SCORE_STEP);
                advance_level(director, storyboard, difficulty);
                Some(AudioCue::UiSelect)
            } else {
                None
            }
        },
    }
}

} // verus!
