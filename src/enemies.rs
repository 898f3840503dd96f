use vstd::prelude::*;
use crate::boss::BossControl;
use crate::difficulty::{Difficulty, enemy_health_permille, enemy_bullet_permille};
use crate::fixed::{Vec2, COORD_LIMIT, SPEED_LIMIT, STEP_LIMIT, FULL_TURN, clamp_i64, clamp_int,
    div_toward_zero, div_toward_zero_i128, lemma_div_toward_zero_scaled, shift_coord,
    shift_coord_spec, sine, sine_spec, aimed_velocity, aimed_velocity_spec, polar_velocity,
    polar_velocity_spec, displacement, abs_int};
use crate::names::{normalize_name, normalized_name, same_word, UnknownName};
use crate::powerups::PowerUpKind;
use crate::projectiles::EnemyFireEvent;

verus! {

/// Enemies further than this from the centre line turn round (zig-zag), in milli-pixels.
pub const HORIZONTAL_BOUND: i64 = 600_000;

/// Below this height an enemy has left the playfield, in milli-pixels.
pub const ENEMY_BOTTOM: i64 = -480_000;

/// Largest magnitude of a sine frequency, in milli-degrees per second.
pub const FREQUENCY_LIMIT: i64 = 1_000_000_000;

/// Elapsed motion time stops growing here, in milliseconds.
pub const ELAPSED_LIMIT: u64 = 1_000_000_000;

/// The kinds of enemy ship.
#[derive(Debug, Clone, Copy, PartialEq, Eq, Structural)]
pub enum EnemyKind {
    Grunt,
    Sine,
    ZigZag,
    Tank,
    Chaser,
    Boss,
}

pub open spec fn kind_health(k: EnemyKind) -> i32 {
    match k {
        EnemyKind::Grunt => 1,
        EnemyKind::Sine => 2,
        EnemyKind::ZigZag => 2,
        EnemyKind::Tank => 6,
        EnemyKind::Chaser => 3,
        EnemyKind::Boss => 200,
    }
}

pub open spec fn kind_score(k: EnemyKind) -> u32 {
    match k {
        EnemyKind::Grunt => 100,
        EnemyKind::Sine => 150,
        EnemyKind::ZigZag => 200,
        EnemyKind::Tank => 350,
        EnemyKind::Chaser => 250,
        EnemyKind::Boss => 2000,
    }
}

pub open spec fn kind_size(k: EnemyKind) -> Vec2 {
    match k {
        EnemyKind::Grunt => Vec2 { x: 48_000, y: 48_000 },
        EnemyKind::Sine => Vec2 { x: 44_000, y: 44_000 },
        EnemyKind::ZigZag => Vec2 { x: 40_000, y: 40_000 },
        EnemyKind::Tank => Vec2 { x: 64_000, y: 72_000 },
        EnemyKind::Chaser => Vec2 { x: 40_000, y: 56_000 },
        EnemyKind::Boss => Vec2 { x: 220_000, y: 120_000 },
    }
}

/// The enemy kind a normalised name stands for.
pub open spec fn enemy_kind_for_word(w: Seq<char>) -> Option<EnemyKind> {
    if w == "grunt"@ {
        Some(EnemyKind::Grunt)
    } else if w == "sine"@ {
        Some(EnemyKind::Sine)
    } else if w == "zigzag"@ {
        Some(EnemyKind::ZigZag)
    } else if w == "tank"@ {
        Some(EnemyKind::Tank)
    } else if w == "chaser"@ {
        Some(EnemyKind::Chaser)
    } else if w == "boss"@ {
        Some(EnemyKind::Boss)
    } else {
        None
    }
}

impl EnemyKind {
    /// Base health of a freshly spawned enemy of this kind.
    pub fn health(self) -> (r: i32)
        ensures
            r == kind_health(self),
    {
        match self {
            EnemyKind::Grunt => 1,
            EnemyKind::Sine => 2,
            EnemyKind::ZigZag => 2,
            EnemyKind::Tank => 6,
            EnemyKind::Chaser => 3,
            EnemyKind::Boss => 200,
        }
    }

    /// Score credited for destroying an enemy of this kind.
    pub fn score_value(self) -> (r: u32)
        ensures
            r == kind_score(self),
    {
        match self {
            EnemyKind::Grunt => 100,
            EnemyKind::Sine => 150,
            EnemyKind::ZigZag => 200,
            EnemyKind::Tank => 350,
            EnemyKind::Chaser => 250,
            EnemyKind::Boss => 2000,
        }
    }

    /// Width and height of the hull, in milli-pixels.
    pub fn body_size(self) -> (r: Vec2)
        ensures
            r == kind_size(self),
    {
        match self {
            EnemyKind::Grunt => Vec2 { x: 48_000, y: 48_000 },
            EnemyKind::Sine => Vec2 { x: 44_000, y: 44_000 },
            EnemyKind::ZigZag => Vec2 { x: 40_000, y: 40_000 },
            EnemyKind::Tank => Vec2 { x: 64_000, y: 72_000 },
            EnemyKind::Chaser => Vec2 { x: 40_000, y: 56_000 },
            EnemyKind::Boss => Vec2 { x: 220_000, y: 120_000 },
        }
    }

    /// Whether the destruction of this kind calls for a large explosion.
    pub fn is_large(self) -> (r: bool)
        ensures
            r == (self == EnemyKind::Tank || self == EnemyKind::Boss),
    {
        matches!(self, EnemyKind::Tank | EnemyKind::Boss)
    }

    /// The enemy kind named by an already normalised word, if any.
    pub fn from_normalized(word: &String) -> (r: Option<EnemyKind>)
        ensures
            r == enemy_kind_for_word(word@),
    {
        if same_word(word, "grunt") {
            Some(EnemyKind::Grunt)
        } else if same_word(word, "sine") {
            Some(EnemyKind::Sine)
        } else if same_word(word, "zigzag") {
            Some(EnemyKind::ZigZag)
        } else if same_word(word, "tank") {
            Some(EnemyKind::Tank)
        } else if same_word(word, "chaser") {
            Some(EnemyKind::Chaser)
        } else if same_word(word, "boss") {
            Some(EnemyKind::Boss)
        } else {
            None
        }
    }

    /// Parses an enemy name, ignoring case, `-`, `_` and spaces.
    pub fn from_name(name: &str) -> (r: Result<EnemyKind, UnknownName>)
        ensures
            match enemy_kind_for_word(normalized_name(name@)) {
                Some(k) => r == Ok::<EnemyKind, UnknownName>(k),
                None => r is Err && r->Err_0.value@ == name@,
            },
    {
        let word = normalize_name(name);
        match EnemyKind::from_normalized(&word) {
            Some(k) => Ok(k),
            None => Err(UnknownName { value: String::from_str(name) }),
        }
    }
}

/// How an enemy moves. Speeds are in milli-pixels per millisecond.
#[derive(Debug, Clone, Copy, PartialEq, Eq, Structural)]
pub enum MovementPattern {
    /// Straight down.
    Straight { speed: i64 },
    /// Down, swinging sideways around `base_x`; `frequency` in milli-degrees per second.
    Sine { speed: i64, amplitude: i64, frequency: i64, base_x: i64 },
    /// Down, moving sideways and turning round at the horizontal bound; `direction` is a
    /// per-mille multiplier of the horizontal speed.
    ZigZag { speed: i64, horizontal_speed: i64, direction: i64 },
    /// Straight down, for heavy ships.
    Tank { speed: i64 },
    /// Down at reduced rate, steering toward the player by at most `turn_rate`
    /// milli-pixels per frame.
    Chaser { speed: i64, turn_rate: i64 },
}

impl MovementPattern {
    pub open spec fn wf(self) -> bool {
        match self {
            MovementPattern::Straight { speed } => -SPEED_LIMIT <= speed <= SPEED_LIMIT,
            MovementPattern::Sine { speed, amplitude, frequency, base_x } => {
                &&& -SPEED_LIMIT <= speed <= SPEED_LIMIT
                &&& -COORD_LIMIT <= amplitude <= COORD_LIMIT
                &&& -FREQUENCY_LIMIT <= frequency <= FREQUENCY_LIMIT
                &&& -COORD_LIMIT <= base_x <= COORD_LIMIT
            },
            MovementPattern::ZigZag { speed, horizontal_speed, direction } => {
                &&& -SPEED_LIMIT <= speed <= SPEED_LIMIT
                &&& -SPEED_LIMIT <= horizontal_speed <= SPEED_LIMIT
                &&& -1000 <= direction <= 1000
            },
            MovementPattern::Tank { speed } => -SPEED_LIMIT <= speed <= SPEED_LIMIT,
            MovementPattern::Chaser { speed, turn_rate } => {
                &&& -SPEED_LIMIT <= speed <= SPEED_LIMIT
                &&& 0 <= turn_rate <= SPEED_LIMIT
            },
        }
    }
}

/// A movement pattern together with the time it has been running.
#[derive(Debug, Clone, Copy, PartialEq, Eq, Structural)]
pub struct EnemyMotion {
    pub pattern: MovementPattern,
    /// Milliseconds since spawn.
    pub elapsed: u64,
}

/// How an armed enemy aims.
#[derive(Debug, Clone, Copy, PartialEq, Eq, Structural)]
pub enum FirePattern {
    StraightDown,
    TargetPlayer,
    /// `count` shots fanned symmetrically about straight down; the outermost are
    /// `arc` milli-degrees off it.
    Spread { count: u8, arc: i64 },
}

/// A repeating gun carried by an enemy.
#[derive(Debug, Clone, Copy, PartialEq, Eq, Structural)]
pub struct EnemyWeapon {
    /// Time between volleys, in milliseconds.
    pub period: u64,
    /// Time since the last volley, in milliseconds.
    pub elapsed: u64,
    /// Base bullet speed, in milli-pixels per millisecond.
    pub bullet_speed: i64,
    pub pattern: FirePattern,
    pub damage: u8,
}

impl EnemyWeapon {
    pub open spec fn wf(self) -> bool {
        &&& 0 < self.period <= STEP_LIMIT
        &&& self.elapsed < self.period
        &&& 0 <= self.bullet_speed <= 100_000
        &&& match self.pattern {
            FirePattern::Spread { arc, .. } => -FULL_TURN <= arc <= FULL_TURN,
            _ => true,
        }
    }
}

/// An enemy ship in play.
#[derive(Debug, Clone, Copy, PartialEq, Eq, Structural)]
pub struct Enemy {
    /// Identity of the ship, unique within a run.
    pub id: u64,
    pub kind: EnemyKind,
    pub health: i32,
    pub score: u32,
    /// Damage dealt by ramming the player.
    pub damage: u8,
    pub position: Vec2,
    /// Width and height of the hull, in milli-pixels.
    pub size: Vec2,
    pub motion: Option<EnemyMotion>,
    pub weapon: Option<EnemyWeapon>,
    /// Power-up released when the ship is destroyed.
    pub drop: Option<PowerUpKind>,
    /// Steering of a boss; other ships have none.
    pub boss: Option<BossControl>,
}

impl Enemy {
    pub open spec fn wf(self) -> bool {
        &&& self.position.in_field()
        &&& self.health > i32::MIN
        &&& 0 <= self.size.x <= 1_000_000_000
        &&& 0 <= self.size.y <= 1_000_000_000
        &&& match self.motion {
            Some(m) => m.pattern.wf() && m.elapsed <= ELAPSED_LIMIT,
            None => true,
        }
        &&& match self.weapon {
            Some(w) => w.wf(),
            None => true,
        }
        &&& match self.boss {
            Some(c) => c.wf(),
            None => true,
        }
    }

    /// Half extents of the hull box.
    pub open spec fn half_extents(self) -> Vec2 {
        Vec2 { x: (self.size.x / 2) as i64, y: (self.size.y / 2) as i64 }
    }

    pub fn half(&self) -> (r: Vec2)
        requires
            self.wf(),
        ensures
            r == self.half_extents(),
            r.in_field(),
    {
        Vec2 { x: self.size.x / 2, y: self.size.y / 2 }
    }
}

/// A request to bring an enemy into play.
#[derive(Debug, Clone, Copy, PartialEq, Eq, Structural)]
pub struct SpawnEnemyEvent {
    pub kind: EnemyKind,
    pub position: Vec2,
    pub movement: MovementPattern,
    pub powerup: Option<PowerUpKind>,
}

/// The gun each kind carries, if any.
pub open spec fn default_weapon_spec(kind: EnemyKind) -> Option<EnemyWeapon> {
    match kind {
        EnemyKind::Tank => Some(
            EnemyWeapon {
                period: 1600,
                elapsed: 0,
                bullet_speed: 220,
                pattern: FirePattern::Spread { count: 3, arc: 30_000 },
                damage: 1,
            },
        ),
        EnemyKind::Chaser => Some(
            EnemyWeapon {
                period: 1000,
                elapsed: 0,
                bullet_speed: 260,
                pattern: FirePattern::TargetPlayer,
                damage: 1,
            },
        ),
        EnemyKind::Sine => Some(
            EnemyWeapon {
                period: 2000,
                elapsed: 0,
                bullet_speed: 200,
                pattern: FirePattern::StraightDown,
                damage: 1,
            },
        ),
        _ => None,
    }
}

/// The gun an enemy of `kind` carries: tanks fan three shots, chasers aim at the
/// player, sine ships drop straight shots; the others are unarmed.
pub fn default_weapon(kind: EnemyKind) -> (r: Option<EnemyWeapon>)
    ensures
        r == default_weapon_spec(kind),
{
    match kind {
        EnemyKind::Tank => Some(
            EnemyWeapon {
                period: 1600,
                elapsed: 0,
                bullet_speed: 220,
                pattern: FirePattern::Spread { count: 3, arc: 30_000 },
                damage: 1,
            },
        ),
        EnemyKind::Chaser => Some(
            EnemyWeapon {
                period: 1000,
                elapsed: 0,
                bullet_speed: 260,
                pattern: FirePattern::TargetPlayer,
                damage: 1,
            },
        ),
        EnemyKind::Sine => Some(
            EnemyWeapon {
                period: 2000,
                elapsed: 0,
                bullet_speed: 200,
                pattern: FirePattern::StraightDown,
                damage: 1,
            },
        ),
        _ => None,
    }
}

/// Base health scaled by a per-mille factor, rounded up.
pub open spec fn scaled_health(base: int, factor: int) -> int {
    (base * factor + 999) / 1000
}

/// The enemy a spawn request brings into play.
pub open spec fn spawned_enemy(event: SpawnEnemyEvent, difficulty: Difficulty, id: u64) -> Enemy {
    Enemy {
        id,
        kind: event.kind,
        health: scaled_health(kind_health(event.kind) as int, enemy_health_permille(difficulty) as int) as i32,
        score: kind_score(event.kind),
        damage: 1,
        position: event.position,
        size: kind_size(event.kind),
        motion: Some(EnemyMotion { pattern: event.movement, elapsed: 0 }),
        weapon: default_weapon_spec(event.kind),
        drop: event.powerup,
        boss: None,
    }
}

/// Brings the enemy of a spawn request into play, its health scaled (rounding up) by
/// the difficulty's health factor.
pub fn spawn_enemy(event: &SpawnEnemyEvent, difficulty: Difficulty, id: u64) -> (r: Enemy)
    requires
        event.position.in_field(),
        event.movement.wf(),
    ensures
        r == spawned_enemy(*event, difficulty, id),
        r.wf(),
{
    let base = event.kind.health() as u64;
    let factor = difficulty.enemy_health_factor();
    let health = ((base * factor + 999) / 1000) as i32;
    Enemy {
        id,
        kind: event.kind,
        health,
        score: event.kind.score_value(),
        damage: 1,
        position: event.position,
        size: event.kind.body_size(),
        motion: Some(EnemyMotion { pattern: event.movement, elapsed: 0 }),
        weapon: default_weapon(event.kind),
        drop: event.powerup,
        boss: None,
    }
}

/// Position and motion of an enemy after one step of `dt` milliseconds, with the player
/// at horizontal position `player_x`.
pub open spec fn motion_step(p: Vec2, m: EnemyMotion, player_x: int, dt: int) -> (Vec2, EnemyMotion) {
    let elapsed: int = if m.elapsed + dt > ELAPSED_LIMIT {
        ELAPSED_LIMIT as int
    } else {
        m.elapsed + dt
    };
    let moved = EnemyMotion { elapsed: elapsed as u64, ..m };
    match m.pattern {
        MovementPattern::Straight { speed } => (
            Vec2 { y: shift_coord_spec(p.y as int, -speed * dt) as i64, ..p },
            moved,
        ),
        MovementPattern::Tank { speed } => (
            Vec2 { y: shift_coord_spec(p.y as int, -speed * dt) as i64, ..p },
            moved,
        ),
        MovementPattern::Sine { speed, amplitude, frequency, base_x } => (
            Vec2 {
                x: shift_coord_spec(
                    base_x as int,
                    div_toward_zero(
                        amplitude * sine_spec(div_toward_zero(elapsed * frequency, 1000)),
                        1000,
                    ),
                ) as i64,
                y: shift_coord_spec(p.y as int, -speed * dt) as i64,
            },
            moved,
        ),
        MovementPattern::ZigZag { speed, horizontal_speed, direction } => {
            let x = shift_coord_spec(
                p.x as int,
                div_toward_zero(horizontal_speed * dt * direction, 1000),
            );
            let turned = if abs_int(x) > HORIZONTAL_BOUND {
                MovementPattern::ZigZag { speed, horizontal_speed, direction: (-direction) as i64 }
            } else {
                m.pattern
            };
            (
                Vec2 { x: x as i64, y: shift_coord_spec(p.y as int, -speed * dt) as i64 },
                EnemyMotion { pattern: turned, elapsed: elapsed as u64 },
            )
        },
        MovementPattern::Chaser { speed, turn_rate } => {
            let desired = div_toward_zero(player_x - p.x, 5);
            let step = clamp_int(desired, -turn_rate, turn_rate as int);
            (
                Vec2 {
                    x: shift_coord_spec(p.x as int, div_toward_zero(step * dt * 3, 50)) as i64,
                    y: shift_coord_spec(p.y as int, -div_toward_zero(speed * dt * 3, 5)) as i64,
                },
                moved,
            )
        },
    }
}

/// Moves a point or enemy by one step of its movement pattern.
pub fn step_motion(p: Vec2, m: EnemyMotion, player_x: i64, dt: u64) -> (r: (Vec2, EnemyMotion))
    requires
        p.in_field(),
        m.pattern.wf(),
        m.elapsed <= ELAPSED_LIMIT,
        -COORD_LIMIT <= player_x <= COORD_LIMIT,
        dt <= STEP_LIMIT,
    ensures
        r == motion_step(p, m, player_x as int, dt as int),
        r.0.in_field(),
        r.1.pattern.wf(),
        r.1.elapsed <= ELAPSED_LIMIT,
{
    let elapsed: u64 = if m.elapsed + dt > ELAPSED_LIMIT {
        ELAPSED_LIMIT
    } else {
        m.elapsed + dt
    };
    let moved = EnemyMotion { elapsed, ..m };
    match m.pattern {
        MovementPattern::Straight { speed } => {
            let d = displacement(-speed, dt);
            (Vec2 { y: shift_coord(p.y, d), ..p }, moved)
        },
        MovementPattern::Tank { speed } => {
            let d = displacement(-speed, dt);
            (Vec2 { y: shift_coord(p.y, d), ..p }, moved)
        },
        MovementPattern::Sine { speed, amplitude, frequency, base_x } => {
            let d = displacement(-speed, dt);
            assert(-1_000_000_000_000_000_000 <= (elapsed as int) * (frequency as int)
                <= 1_000_000_000_000_000_000) by (nonlinear_arith)
                requires
                    0 <= elapsed <= ELAPSED_LIMIT,
                    -FREQUENCY_LIMIT <= frequency <= FREQUENCY_LIMIT,
            ;
            let phase = div_toward_zero_i128((elapsed as i128) * (frequency as i128), 1000);
            proof {
                lemma_div_toward_zero_scaled((elapsed as int) * (frequency as int), 1000, 1_000_000_000_000_000);
            }
            let s = sine(phase as i64);
            assert(-1000 * COORD_LIMIT <= (amplitude as int) * (s as int) <= 1000 * COORD_LIMIT)
                by (nonlinear_arith)
                requires
                    -COORD_LIMIT <= amplitude <= COORD_LIMIT,
                    -1000 <= s <= 1000,
            ;
            let swing = div_toward_zero_i128((amplitude as i128) * (s as i128), 1000);
            proof {
                lemma_div_toward_zero_scaled((amplitude as int) * (s as int), 1000, COORD_LIMIT as int);
            }
            (Vec2 { x: shift_coord(base_x, swing as i64), y: shift_coord(p.y, d) }, moved)
        },
        MovementPattern::ZigZag { speed, horizontal_speed, direction } => {
            let d = displacement(-speed, dt);
            let h = displacement(horizontal_speed, dt);
            assert(-1000 * COORD_LIMIT <= (h as int) * (direction as int) <= 1000 * COORD_LIMIT)
                by (nonlinear_arith)
                requires
                    -COORD_LIMIT <= h <= COORD_LIMIT,
                    -1000 <= direction <= 1000,
            ;
            let sx = div_toward_zero_i128((h as i128) * (direction as i128), 1000);
            proof {
                lemma_div_toward_zero_scaled((h as int) * (direction as int), 1000, COORD_LIMIT as int);
                assert((horizontal_speed * dt) * direction == horizontal_speed * dt * direction);
            }
            let x = shift_coord(p.x, sx as i64);
            let pattern = if x > HORIZONTAL_BOUND || x < -HORIZONTAL_BOUND {
                MovementPattern::ZigZag { speed, horizontal_speed, direction: -direction }
            } else {
                m.pattern
            };
            (Vec2 { x, y: shift_coord(p.y, d) }, EnemyMotion { pattern, elapsed })
        },
        MovementPattern::Chaser { speed, turn_rate } => {
            let d = displacement(speed, dt);
            assert(-3 * COORD_LIMIT <= (d as int) * 3 <= 3 * COORD_LIMIT);
            let dy = div_toward_zero_i128((d as i128) * 3, 5);
            proof {
                lemma_div_toward_zero_scaled((d as int) * 3, 5, COORD_LIMIT as int);
            }
            let gap = div_toward_zero_i128((player_x as i128) - (p.x as i128), 5);
            proof {
                lemma_div_toward_zero_scaled((player_x as int) - (p.x as int), 5, COORD_LIMIT as int);
            }
            let step = clamp_i64(gap as i64, -turn_rate, turn_rate);
            let sd = displacement(step, dt);
            let sx = div_toward_zero_i128((sd as i128) * 3, 50);
            proof {
                lemma_div_toward_zero_scaled((sd as int) * 3, 50, COORD_LIMIT as int);
                assert((step * dt) * 3 == step * dt * 3);
                assert((speed * dt) * 3 == speed * dt * 3);
            }
            (
                Vec2 { x: shift_coord(p.x, sx as i64), y: shift_coord(p.y, -(dy as i64)) },
                moved,
            )
        },
    }
}

/// An enemy shot: 12 by 28 pixels, living three seconds.
pub open spec fn enemy_shot(origin: Vec2, velocity: Vec2, damage: u8) -> EnemyFireEvent {
    EnemyFireEvent {
        origin,
        velocity,
        size: Vec2 { x: 12_000, y: 28_000 },
        lifetime: 3000,
        damage,
    }
}

/// An enemy shot from `origin` with the given velocity.
pub fn new_enemy_shot(origin: Vec2, velocity: Vec2, damage: u8) -> (r: EnemyFireEvent)
    ensures
        r == enemy_shot(origin, velocity, damage),
{
    EnemyFireEvent { origin, velocity, size: Vec2 { x: 12_000, y: 28_000 }, lifetime: 3000, damage }
}

/// Number of shots in a spread of `count`: at least one.
pub open spec fn spread_shots(count: u8) -> int {
    if count == 0 {
        1
    } else {
        count as int
    }
}

/// Angle of shot `i` of `n` in a spread whose outermost shots are `arc` off straight
/// down (spacing never wider than `arc` per shot).
pub open spec fn spread_angle(i: int, n: int, arc: int) -> int {
    -90_000 + div_toward_zero((2 * i - (n - 1)) * arc, if n - 1 > 2 {
        n - 1
    } else {
        2
    })
}

/// The shots one volley of an enemy gun releases.
pub open spec fn volley_spec(
    pattern: FirePattern,
    origin: Vec2,
    player: Vec2,
    speed: int,
    damage: u8,
) -> Seq<EnemyFireEvent> {
    match pattern {
        FirePattern::StraightDown => seq![
            enemy_shot(origin, Vec2 { x: 0, y: (-speed) as i64 }, damage),
        ],
        FirePattern::TargetPlayer => seq![
            enemy_shot(
                origin,
                aimed_velocity_spec(player.x - origin.x, player.y - origin.y, speed),
                damage,
            ),
        ],
        FirePattern::Spread { count, arc } => Seq::new(
            spread_shots(count) as nat,
            |i: int|
                enemy_shot(
                    origin,
                    polar_velocity_spec(spread_angle(i, spread_shots(count), arc as int), speed),
                    damage,
                ),
        ),
    }
}

/// The shots of one volley from `origin`, at `speed`.
pub fn enemy_volley(pattern: FirePattern, origin: Vec2, player: Vec2, speed: i64, damage: u8) -> (r:
    Vec<EnemyFireEvent>)
    requires
        origin.in_field(),
        player.in_field(),
        0 <= speed <= SPEED_LIMIT,
        match pattern {
            FirePattern::Spread { arc, .. } => -FULL_TURN <= arc <= FULL_TURN,
            _ => true,
        },
    ensures
        r@ == volley_spec(pattern, origin, player, speed as int, damage),
{
    let mut shots: Vec<EnemyFireEvent> = Vec::new();
    match pattern {
        FirePattern::StraightDown => {
            shots.push(new_enemy_shot(origin, Vec2 { x: 0, y: -speed }, damage));
            assert(shots@ =~= volley_spec(pattern, origin, player, speed as int, damage));
        },
        FirePattern::TargetPlayer => {
            let v = aimed_velocity(origin, player, speed);
            shots.push(new_enemy_shot(origin, v, damage));
            assert(shots@ =~= volley_spec(pattern, origin, player, speed as int, damage));
        },
        FirePattern::Spread { count, arc } => {
            let n: i64 = if count == 0 {
                1
            } else {
                count as i64
            };
            let span: i64 = if n - 1 > 2 {
                n - 1
            } else {
                2
            };
            let mut i: i64 = 0;
            while i < n
                invariant
                    n == spread_shots(count),
                    span == (if n - 1 > 2 {
                        n - 1
                    } else {
                        2
                    }),
                    0 <= i <= n,
                    -FULL_TURN <= arc <= FULL_TURN,
                    origin.in_field(),
                    0 <= speed <= SPEED_LIMIT,
                    shots@ == volley_spec(pattern, origin, player, speed as int, damage).subrange(0, i as int),
                    pattern == (FirePattern::Spread { count, arc }),
                decreases n - i,
            {
                let k: i64 = 2 * i - (n - 1);
                assert(-span <= k <= span);
                assert(-span * FULL_TURN <= (k as int) * (arc as int) <= span * FULL_TURN)
                    by (nonlinear_arith)
                    requires
                        -span <= k <= span,
                        -FULL_TURN <= arc <= FULL_TURN,
                        span > 0,
                ;
                let off = div_toward_zero_i128((k as i128) * (arc as i128), span as i128);
                proof {
                    lemma_div_toward_zero_scaled((k as int) * (arc as int), span as int, FULL_TURN as int);
                }
                let v = polar_velocity(-90_000 + off as i64, speed);
                shots.push(new_enemy_shot(origin, v, damage));
                proof {
                    assert(shots@ =~= volley_spec(pattern, origin, player, speed as int, damage).subrange(0, i + 1));
                }
                i = i + 1;
            }
            assert(shots@ =~= volley_spec(pattern, origin, player, speed as int, damage));
        },
    }
    shots
}

/// A gun after a step of `dt` milliseconds, and whether it fired during the step.
pub open spec fn weapon_tick_spec(w: EnemyWeapon, dt: int) -> (EnemyWeapon, bool) {
    let e = w.elapsed + dt;
    if e >= w.period {
        (EnemyWeapon { elapsed: (e % (w.period as int)) as u64, ..w }, true)
    } else {
        (EnemyWeapon { elapsed: e as u64, ..w }, false)
    }
}

/// Bullet speed of an enemy gun under the difficulty's bullet factor.
pub open spec fn bullet_speed_spec(w: EnemyWeapon, bullet_factor: int) -> int {
    w.bullet_speed * bullet_factor / 1000
}

/// An enemy after one step of its gun, with the shots fired in that step.
pub open spec fn enemy_fire_spec(e: Enemy, player: Vec2, bullet_factor: int, dt: int) -> (Enemy, Seq<EnemyFireEvent>) {
    match e.weapon {
        None => (e, Seq::empty()),
        Some(w) => {
            let (w2, fired) = weapon_tick_spec(w, dt);
            (
                Enemy { weapon: Some(w2), ..e },
                if fired {
                    volley_spec(w.pattern, e.position, player, bullet_speed_spec(w, bullet_factor), w.damage)
                } else {
                    Seq::empty()
                },
            )
        },
    }
}

/// Advances the gun of an enemy and returns the volley it fires, if its period ran out.
pub fn enemy_fire(enemy: &mut Enemy, player: Vec2, bullet_factor: u64, dt: u64) -> (r: Vec<EnemyFireEvent>)
    requires
        old(enemy).wf(),
        player.in_field(),
        bullet_factor <= 1200,
        dt <= STEP_LIMIT,
    ensures
        (*final(enemy), r@) == enemy_fire_spec(*old(enemy), player, bullet_factor as int, dt as int),
        final(enemy).wf(),
{
    match enemy.weapon {
        None => Vec::new(),
        Some(w) => {
            let e = w.elapsed + dt;
            if e >= w.period {
                enemy.weapon = Some(EnemyWeapon { elapsed: e % w.period, ..w });
                assert(0 <= (w.bullet_speed as int) * (bullet_factor as int) <= 100_000 * 1200) by (nonlinear_arith)
                    requires
                        0 <= w.bullet_speed <= 100_000,
                        bullet_factor <= 1200,
                ;
                let speed = (w.bullet_speed * (bullet_factor as i64)) / 1000;
                enemy_volley(w.pattern, enemy.position, player, speed, w.damage)
            } else {
                enemy.weapon = Some(EnemyWeapon { elapsed: e, ..w });
                Vec::new()
            }
        },
    }
}

/// An enemy after one step of its movement pattern.
pub open spec fn enemy_move_spec(e: Enemy, player_x: int, dt: int) -> Enemy {
    match e.motion {
        None => e,
        Some(m) => {
            let (p, m2) = motion_step(e.position, m, player_x, dt);
            Enemy { position: p, motion: Some(m2), ..e }
        },
    }
}

/// Moves every enemy that has a movement pattern by one step.
pub fn move_enemies(enemies: &mut Vec<Enemy>, player_x: i64, dt: u64)
    requires
        forall|i: int| 0 <= i < old(enemies)@.len() ==> old(enemies)@[i].wf(),
        -COORD_LIMIT <= player_x <= COORD_LIMIT,
        dt <= STEP_LIMIT,
    ensures
        final(enemies)@.len() == old(enemies)@.len(),
        forall|i: int|
            0 <= i < final(enemies)@.len() ==> final(enemies)@[i] == enemy_move_spec(
                old(enemies)@[i],
                player_x as int,
                dt as int,
            ),
        forall|i: int| 0 <= i < final(enemies)@.len() ==> final(enemies)@[i].wf(),
{
    let ghost start = enemies@;
    let mut i: usize = 0;
    while i < enemies.len()
        invariant
            enemies@.len() == start.len(),
            i <= start.len(),
            -COORD_LIMIT <= player_x <= COORD_LIMIT,
            dt <= STEP_LIMIT,
            forall|j: int| 0 <= j < start.len() ==> start[j].wf(),
            forall|j: int| 0 <= j < i ==> enemies@[j] == enemy_move_spec(start[j], player_x as int, dt as int),
            forall|j: int| i <= j < start.len() ==> enemies@[j] == start[j],
            forall|j: int| 0 <= j < i ==> enemies@[j].wf(),
        decreases start.len() - i,
    {
        let e = enemies[i];
        assert(e == start[i as int]);
        match e.motion {
            None => {},
            Some(m) => {
                let (p, m2) = step_motion(e.position, m, player_x, dt);
                enemies.set(i, Enemy { position: p, motion: Some(m2), ..e });
            },
        }
        i = i + 1;
    }
}

/// The shots fired by a sequence of enemies in one step, in order.
pub open spec fn volleys_of(enemies: Seq<Enemy>, player: Vec2, bullet_factor: int, dt: int) -> Seq<EnemyFireEvent>
    decreases enemies.len(),
{
    if enemies.len() == 0 {
        Seq::empty()
    } else {
        volleys_of(enemies.drop_last(), player, bullet_factor, dt) + enemy_fire_spec(
            enemies.last(),
            player,
            bullet_factor,
            dt,
        ).1
    }
}

/// Advances every enemy gun by one step and collects the shots fired, in enemy order.
pub fn enemy_fire_system(enemies: &mut Vec<Enemy>, player: Vec2, difficulty: Difficulty, dt: u64) -> (r:
    Vec<EnemyFireEvent>)
    requires
        forall|i: int| 0 <= i < old(enemies)@.len() ==> old(enemies)@[i].wf(),
        player.in_field(),
        dt <= STEP_LIMIT,
    ensures
        final(enemies)@.len() == old(enemies)@.len(),
        forall|i: int|
            0 <= i < final(enemies)@.len() ==> final(enemies)@[i] == enemy_fire_spec(
                old(enemies)@[i],
                player,
                enemy_bullet_permille(difficulty) as int,
                dt as int,
            ).0,
        r@ == volleys_of(old(enemies)@, player, enemy_bullet_permille(difficulty) as int, dt as int),
        forall|i: int| 0 <= i < final(enemies)@.len() ==> final(enemies)@[i].wf(),
{
    let ghost start = enemies@;
    let factor = difficulty.enemy_bullet_factor();
    let mut shots: Vec<EnemyFireEvent> = Vec::new();
    let mut i: usize = 0;
    while i < enemies.len()
        invariant
            enemies@.len() == start.len(),
            i <= start.len(),
            player.in_field(),
            dt <= STEP_LIMIT,
            factor == enemy_bullet_permille(difficulty),
            forall|j: int| 0 <= j < start.len() ==> start[j].wf(),
            forall|j: int| 0 <= j < i ==> enemies@[j] == enemy_fire_spec(start[j], player, factor as int, dt as int).0,
            forall|j: int| i <= j < start.len() ==> enemies@[j] == start[j],
            forall|j: int| 0 <= j < i ==> enemies@[j].wf(),
            shots@ == volleys_of(start.subrange(0, i as int), player, factor as int, dt as int),
        decreases start.len() - i,
    {
        let mut e = enemies[i];
        assert(e == start[i as int]);
        let mut fired = enemy_fire(&mut e, player, factor, dt);
        enemies.set(i, e);
        proof {
            assert(start.subrange(0, i + 1).drop_last() =~= start.subrange(0, i as int));
        }
        shots.append(&mut fired);
        i = i + 1;
    }
    assert(start.subrange(0, start.len() as int) =~= start);
    shots
}

/// Removes the enemies that have dropped below the playfield, keeping the order of the
/// others; no score or effect comes of it.
pub fn cleanup_offscreen_enemies(enemies: &mut Vec<Enemy>)
    ensures
        final(enemies)@ == old(enemies)@.filter(|e: Enemy| e.position.y >= ENEMY_BOTTOM),
        (forall|i: int| 0 <= i < old(enemies)@.len() ==> (#[trigger] old(enemies)@[i]).wf()) ==> forall|i: int|
            0 <= i < final(enemies)@.len() ==> (#[trigger] final(enemies)@[i]).wf(),
{
    let ghost all_wf = forall|i: int| 0 <= i < enemies@.len() ==> (#[trigger] enemies@[i]).wf();
    let ghost start = enemies@;
    let mut kept: Vec<Enemy> = Vec::new();
    let mut i: usize = 0;
    while i < enemies.len()
        invariant
            enemies@ == start,
            i <= start.len(),
            kept@ == start.subrange(0, i as int).filter(|e: Enemy| e.position.y >= ENEMY_BOTTOM),
            all_wf == forall|k: int| 0 <= k < start.len() ==> (#[trigger] start[k]).wf(),
            all_wf ==> forall|k: int| 0 <= k < kept@.len() ==> (#[trigger] kept@[k]).wf(),
        decreases start.len() - i,
    {
        let e = enemies[i];
        assert(e == start[i as int]);
        proof {
            assert(start.subrange(0, i + 1).drop_last() =~= start.subrange(0, i as int));
            reveal(Seq::filter);
        }
        if e.position.y >= ENEMY_BOTTOM {
            kept.push(e);
        }
        i = i + 1;
    }
    assert(start.subrange(0, start.len() as int) =~= start);
    *enemies = kept;
}

/// Brings the enemies of the spawn requests into play after those already there, in
/// order, numbering them from `next_id` on.
pub fn spawn_enemies_from_events(
    enemies: &mut Vec<Enemy>,
    events: &Vec<SpawnEnemyEvent>,
    difficulty: Difficulty,
    next_id: &mut u64,
)
    requires
        *old(next_id) + events@.len() <= u64::MAX,
        forall|i: int| 0 <= i < events@.len() ==> (#[trigger] events@[i]).position.in_field() && events@[i].movement.wf(),
        forall|i: int| 0 <= i < old(enemies)@.len() ==> (#[trigger] old(enemies)@[i]).wf(),
    ensures
        final(enemies)@ == old(enemies)@ + Seq::new(
            events@.len(),
            |i: int| spawned_enemy(events@[i], difficulty, (*old(next_id) + i) as u64),
        ),
        *final(next_id) == *old(next_id) + events@.len(),
        forall|i: int| 0 <= i < final(enemies)@.len() ==> (#[trigger] final(enemies)@[i]).wf(),
{
    let ghost start = enemies@;
    let ghost first = *next_id;
    let mut i: usize = 0;
    while i < events.len()
        invariant
            i <= events@.len(),
            first + events@.len() <= u64::MAX,
            *next_id == first + i,
            forall|k: int| 0 <= k < events@.len() ==> (#[trigger] events@[k]).position.in_field() && events@[k].movement.wf(),
            enemies@ == start + Seq::new(i as nat, |k: int| spawned_enemy(events@[k], difficulty, (first + k) as u64)),
            forall|k: int| 0 <= k < enemies@.len() ==> (#[trigger] enemies@[k]).wf(),
        decreases events@.len() - i,
    {
        let ev = events[i];
        assert(ev == events@[i as int]);
        let e = spawn_enemy(&ev, difficulty, *next_id);
        enemies.push(e);
        *next_id = *next_id + 1;
        i = i + 1;
        assert(enemies@ =~= start + Seq::new(i as nat, |k: int| spawned_enemy(events@[k], difficulty, (first + k) as u64)));
    }
}

} // verus!
