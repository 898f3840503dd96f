use vstd::prelude::*;
use crate::fixed::{Vec2, aimed_velocity, aimed_velocity_spec, clamp_i64, clamp_int, advance, advance_spec, polar_velocity, polar_velocity_spec, SPEED_LIMIT, STEP_LIMIT};

verus! {

/// Invulnerability window granted after an accepted hit, in milliseconds.
pub const PLAYER_HIT_INVULNERABILITY: u64 = 1600;

/// Highest fire-rate level reachable through pickups.
pub const MAX_FIRE_RATE_LEVEL: u8 = 5;

/// Where the player (re)appears, in milli-pixels.
pub const PLAYER_SPAWN_Y: i64 = -260_000;

/// Health and lives of the player for the current run.
#[derive(Debug, Clone, Copy, PartialEq, Eq, Structural)]
pub struct PlayerStats {
    pub health: u8,
    pub max_health: u8,
    pub lives: u8,
    pub max_lives: u8,
}

impl Default for PlayerStats {
    fn default() -> (r: PlayerStats)
        ensures
            r == (PlayerStats { health: 5, max_health: 5, lives: 3, max_lives: 3 }),
    {
        PlayerStats { health: 5, max_health: 5, lives: 3, max_lives: 3 }
    }
}

impl PlayerStats {
    /// Restores the defaults used at the start of every run.
    pub fn reset(&mut self)
        ensures
            *final(self) == (PlayerStats { health: 5, max_health: 5, lives: 3, max_lives: 3 }),
    {
        self.max_health = 5;
        self.health = self.max_health;
        self.max_lives = 3;
        self.lives = self.max_lives;
    }

    /// Remaining health as a fraction of the maximum, in per-mille (0 when the maximum is 0).
    pub fn health_fraction(&self) -> (r: u64)
        ensures
            self.max_health == 0 ==> r == 0,
            self.max_health > 0 ==> r == (self.health as int) * 1000 / (self.max_health as int),
    {
        if self.max_health == 0 {
            0
        } else {
            (self.health as u64) * 1000 / (self.max_health as u64)
        }
    }
}

/// Remaining invulnerability of the player, in milliseconds.
#[derive(Debug, Clone, Copy, PartialEq, Eq, Structural)]
pub struct PlayerDefense {
    pub invulnerability: u64,
}

impl PlayerDefense {
    /// Counts the invulnerability window down by one step, stopping at zero.
    pub fn tick(&mut self, dt: u64)
        ensures
            final(self).invulnerability == (if old(self).invulnerability > dt {
                old(self).invulnerability - dt
            } else {
                0
            }),
    {
        self.invulnerability = self.invulnerability.saturating_sub(dt);
    }
}

/// Fire mode of the player's weapon, in the order pickups advance it.
#[derive(Debug, Clone, Copy, PartialEq, Eq, Structural)]
pub enum WeaponMode {
    Single,
    Double,
    Spread3,
    Spread5,
    Laser,
}

/// Position of a mode in the upgrade order.
pub open spec fn mode_rank(m: WeaponMode) -> int {
    match m {
        WeaponMode::Single => 0,
        WeaponMode::Double => 1,
        WeaponMode::Spread3 => 2,
        WeaponMode::Spread5 => 3,
        WeaponMode::Laser => 4,
    }
}

/// The mode one step further in the upgrade order, saturating at `Laser`.
pub open spec fn next_mode(m: WeaponMode) -> WeaponMode {
    match m {
        WeaponMode::Single => WeaponMode::Double,
        WeaponMode::Double => WeaponMode::Spread3,
        WeaponMode::Spread3 => WeaponMode::Spread5,
        WeaponMode::Spread5 => WeaponMode::Laser,
        WeaponMode::Laser => WeaponMode::Laser,
    }
}

/// Tuning of the player's ship.
#[derive(Debug, Clone, Copy, PartialEq, Eq, Structural)]
pub struct PlayerSettings {
    /// Movement speed, in milli-pixels per millisecond.
    pub speed: i64,
    /// Base delay between shots, in milliseconds.
    pub fire_cooldown: u64,
}

impl Default for PlayerSettings {
    fn default() -> (r: PlayerSettings)
        ensures
            r == (PlayerSettings { speed: 340, fire_cooldown: 250 }),
    {
        PlayerSettings { speed: 340, fire_cooldown: 250 }
    }
}

/// The player's weapon: its mode and its fire-rate level.
#[derive(Debug, Clone, Copy, PartialEq, Eq, Structural)]
pub struct PlayerWeaponState {
    pub mode: WeaponMode,
    pub fire_rate_level: u8,
}

impl Default for PlayerWeaponState {
    fn default() -> (r: PlayerWeaponState)
        ensures
            r == (PlayerWeaponState { mode: WeaponMode::Single, fire_rate_level: 0 }),
    {
        PlayerWeaponState { mode: WeaponMode::Single, fire_rate_level: 0 }
    }
}

/// `cooldown` shortened by 15% `level` times, rounding down at each step.
pub open spec fn decayed_cooldown(cooldown: int, level: nat) -> int
    decreases level,
{
    if level == 0 {
        cooldown
    } else {
        decayed_cooldown(cooldown, (level - 1) as nat) * 85 / 100
    }
}

/// Delay between shots for a weapon state, in milliseconds: the base cooldown shortened by
/// 15% per fire-rate level, cut to 40% in `Laser` mode, and clamped to `[60, 400]`.
pub open spec fn cooldown_spec(w: PlayerWeaponState, base: int) -> int {
    let d = decayed_cooldown(base, w.fire_rate_level as nat);
    let l = if w.mode == WeaponMode::Laser {
        d * 4 / 10
    } else {
        d
    };
    clamp_int(l, 60, 400)
}

proof fn lemma_decayed_bounds(cooldown: int, level: nat)
    requires
        cooldown >= 0,
    ensures
        0 <= decayed_cooldown(cooldown, level) <= cooldown,
    decreases level,
{
    if level > 0 {
        lemma_decayed_bounds(cooldown, (level - 1) as nat);
    }
}

impl PlayerWeaponState {
    /// Back to a single shot at the base fire rate.
    pub fn reset(&mut self)
        ensures
            *final(self) == (PlayerWeaponState { mode: WeaponMode::Single, fire_rate_level: 0 }),
    {
        self.mode = WeaponMode::Single;
        self.fire_rate_level = 0;
    }

    /// Delay between two shots, in milliseconds.
    pub fn current_cooldown(&self, settings: &PlayerSettings) -> (r: u64)
        requires
            settings.fire_cooldown <= 1_000_000_000,
        ensures
            r == cooldown_spec(*self, settings.fire_cooldown as int),
            60 <= r <= 400,
    {
        let mut cooldown: u64 = settings.fire_cooldown;
        let mut i: u8 = 0;
        while i < self.fire_rate_level
            invariant
                i <= self.fire_rate_level,
                cooldown == decayed_cooldown(settings.fire_cooldown as int, i as nat),
                settings.fire_cooldown <= 1_000_000_000,
            decreases self.fire_rate_level - i,
        {
            proof {
                lemma_decayed_bounds(settings.fire_cooldown as int, i as nat);
            }
            cooldown = cooldown * 85 / 100;
            i = i + 1;
        }
        proof {
            lemma_decayed_bounds(settings.fire_cooldown as int, i as nat);
        }
        if self.mode == WeaponMode::Laser {
            cooldown = cooldown * 4 / 10;
        }
        if cooldown < 60 {
            60
        } else if cooldown > 400 {
            400
        } else {
            cooldown
        }
    }

    /// Moves the fire mode one step along the upgrade order, staying at `Laser`.
    pub fn advance_mode(&mut self)
        ensures
            final(self).mode == next_mode(old(self).mode),
            final(self).fire_rate_level == old(self).fire_rate_level,
    {
        self.mode = match self.mode {
            WeaponMode::Single => WeaponMode::Double,
            WeaponMode::Double => WeaponMode::Spread3,
            WeaponMode::Spread3 => WeaponMode::Spread5,
            WeaponMode::Spread5 => WeaponMode::Laser,
            WeaponMode::Laser => WeaponMode::Laser,
        };
    }

    /// Raises the fire-rate level by one, never past the cap.
    pub fn boost_fire_rate(&mut self)
        ensures
            final(self).mode == old(self).mode,
            final(self).fire_rate_level == (if old(self).fire_rate_level < MAX_FIRE_RATE_LEVEL {
                old(self).fire_rate_level + 1
            } else {
                MAX_FIRE_RATE_LEVEL as int
            }),
    {
        let raised = self.fire_rate_level.saturating_add(1);
        self.fire_rate_level = if raised < MAX_FIRE_RATE_LEVEL {
            raised
        } else {
            MAX_FIRE_RATE_LEVEL
        };
    }
}

/// What an incoming hit did to the player.
#[derive(Debug, Clone, Copy, PartialEq, Eq, Structural)]
pub enum HitOutcome {
    /// The player was invulnerable: nothing changed.
    Ignored,
    /// Health dropped and stays above zero.
    Damaged,
    /// Health ran out and a spare life was used.
    LifeLost,
    /// Health ran out on the last life: the run is over.
    GameOver,
}

impl HitOutcome {
    /// Whether the hit was accepted (the offending enemy or bullet is then removed).
    pub open spec fn accepted_spec(self) -> bool {
        self != HitOutcome::Ignored
    }

    pub fn accepted(self) -> (r: bool)
        ensures
            r == self.accepted_spec(),
    {
        !matches!(self, HitOutcome::Ignored)
    }
}

/// Health after subtracting `damage` (at least 1), floored at zero.
pub open spec fn health_after_damage(health: u8, damage: u8) -> int {
    let d: int = if damage == 0 {
        1
    } else {
        damage as int
    };
    if health as int > d {
        health - d
    } else {
        0
    }
}

/// The state after one hit: players and defense before and after, and the outcome.
pub open spec fn hit_spec(
    stats: PlayerStats,
    defense: PlayerDefense,
    damage: u8,
    new_stats: PlayerStats,
    new_defense: PlayerDefense,
    outcome: HitOutcome,
) -> bool {
    if defense.invulnerability > 0 {
        outcome == HitOutcome::Ignored && new_stats == stats && new_defense == defense
    } else {
        let h = health_after_damage(stats.health, damage);
        &&& new_stats.max_health == stats.max_health
        &&& new_stats.max_lives == stats.max_lives
        &&& if h > 0 {
            &&& outcome == HitOutcome::Damaged
            &&& new_stats.health == h
            &&& new_stats.lives == stats.lives
            &&& new_defense.invulnerability == PLAYER_HIT_INVULNERABILITY
        } else if stats.lives > 1 {
            &&& outcome == HitOutcome::LifeLost
            &&& new_stats.health == stats.max_health
            &&& new_stats.lives == stats.lives - 1
            &&& new_defense.invulnerability == PLAYER_HIT_INVULNERABILITY
        } else {
            &&& outcome == HitOutcome::GameOver
            &&& new_stats.health == 0
            &&& new_stats.lives == 0
            &&& new_defense.invulnerability == 0
        }
    }
}

/// Applies one hit for `damage` to the player.
///
/// A hit while invulnerable is ignored. Otherwise at least one point of damage is taken;
/// if health runs out a spare life refills it, or, on the last life, the run ends.
/// Every accepted hit but the last re-arms the invulnerability window.
pub fn handle_player_hit(stats: &mut PlayerStats, defense: &mut PlayerDefense, damage: u8) -> (r:
    HitOutcome)
    ensures
        hit_spec(*old(stats), *old(defense), damage, *final(stats), *final(defense), r),
{
    if defense.invulnerability > 0 {
        return HitOutcome::Ignored;
    }
    let damage = if damage == 0 {
        1
    } else {
        damage
    };
    stats.health = stats.health.saturating_sub(damage);
    if stats.health == 0 {
        if stats.lives > 1 {
            stats.lives = stats.lives - 1;
            stats.health = stats.max_health;
            defense.invulnerability = PLAYER_HIT_INVULNERABILITY;
            HitOutcome::LifeLost
        } else {
            stats.lives = 0;
            defense.invulnerability = 0;
            HitOutcome::GameOver
        }
    } else {
        defense.invulnerability = PLAYER_HIT_INVULNERABILITY;
        HitOutcome::Damaged
    }
}

/// While invulnerable, a hit changes nothing; once the window has run out exactly to
/// zero, the next hit is accepted.
pub proof fn lemma_invulnerability_gate(
    stats: PlayerStats,
    defense: PlayerDefense,
    damage: u8,
    new_stats: PlayerStats,
    new_defense: PlayerDefense,
    outcome: HitOutcome,
)
    requires
        hit_spec(stats, defense, damage, new_stats, new_defense, outcome),
    ensures
        defense.invulnerability > 0 ==> outcome == HitOutcome::Ignored && new_stats == stats
            && new_defense == defense,
        defense.invulnerability == 0 ==> outcome.accepted_spec(),
{
}

/// Movement intent read from the controls.
#[derive(Debug, Clone, Copy, PartialEq, Eq, Structural)]
pub struct MoveInput {
    pub up: bool,
    pub down: bool,
    pub left: bool,
    pub right: bool,
}

/// Unit direction of the controls, scaled by 1000 on each axis before normalisation.
pub open spec fn input_axis(neg: bool, pos: bool) -> int {
    (if pos {
        1000int
    } else {
        0
    }) - (if neg {
        1000int
    } else {
        0
    })
}

/// Player velocity for a movement intent: `speed` along the normalised direction.
pub open spec fn player_velocity_spec(input: MoveInput, speed: int) -> Vec2 {
    let dx = input_axis(input.left, input.right);
    let dy = input_axis(input.down, input.up);
    if dx == 0 && dy == 0 {
        Vec2 { x: 0, y: 0 }
    } else {
        aimed_velocity_spec(dx, dy, speed)
    }
}

fn axis(neg: bool, pos: bool) -> (r: i64)
    ensures
        r == input_axis(neg, pos),
{
    let p: i64 = if pos {
        1000
    } else {
        0
    };
    let n: i64 = if neg {
        1000
    } else {
        0
    };
    p - n
}

/// Half extents of the area the player may move in, in milli-pixels.
pub const PLAYER_BOUND_X: i64 = 616_000;

pub const PLAYER_BOUND_Y: i64 = 328_000;

/// Where one step of input takes the player: along its velocity, then clamped to the
/// playfield.
pub open spec fn player_position_after(position: Vec2, input: MoveInput, speed: int, dt: int) -> Vec2 {
    let moved = advance_spec(position, player_velocity_spec(input, speed), dt);
    Vec2 {
        x: clamp_int(moved.x as int, -PLAYER_BOUND_X as int, PLAYER_BOUND_X as int) as i64,
        y: clamp_int(moved.y as int, -PLAYER_BOUND_Y as int, PLAYER_BOUND_Y as int) as i64,
    }
}

/// Moves the player by one step of input and keeps it inside the playfield.
pub fn move_player(position: Vec2, input: MoveInput, settings: &PlayerSettings, dt: u64) -> (r: (
    Vec2,
    Vec2,
))
    requires
        position.in_field(),
        0 <= settings.speed <= SPEED_LIMIT,
        dt <= STEP_LIMIT,
    ensures
        r.1 == player_velocity_spec(input, settings.speed as int),
        r.0 == player_position_after(position, input, settings.speed as int, dt as int),
        r.0.x == clamp_int(
            advance_spec(position, r.1, dt as int).x as int,
            -PLAYER_BOUND_X as int,
            PLAYER_BOUND_X as int,
        ),
        r.0.y == clamp_int(
            advance_spec(position, r.1, dt as int).y as int,
            -PLAYER_BOUND_Y as int,
            PLAYER_BOUND_Y as int,
        ),
        r.0.in_field(),
{
    let dx = axis(input.left, input.right);
    let dy = axis(input.down, input.up);
    let velocity = if dx == 0 && dy == 0 {
        Vec2 { x: 0, y: 0 }
    } else {
        aimed_velocity(Vec2 { x: 0, y: 0 }, Vec2 { x: dx, y: dy }, settings.speed)
    };
    let moved = advance(position, velocity, dt);
    let x = clamp_i64(moved.x, -PLAYER_BOUND_X, PLAYER_BOUND_X);
    let y = clamp_i64(moved.y, -PLAYER_BOUND_Y, PLAYER_BOUND_Y);
    (Vec2 { x, y }, velocity)
}

/// A shot fired by the player.
#[derive(Debug, Clone, Copy, PartialEq, Eq, Structural)]
pub struct PlayerFireEvent {
    pub origin: Vec2,
    pub velocity: Vec2,
    /// Width and height of the shot, in milli-pixels.
    pub size: Vec2,
    /// Time to live, in milliseconds.
    pub lifetime: u64,
}

pub open spec fn straight_shot(origin: Vec2, dx: int, dy: int, speed: int, w: int, h: int, life: int) -> PlayerFireEvent {
    PlayerFireEvent {
        origin: Vec2 { x: (origin.x + dx) as i64, y: (origin.y + dy) as i64 },
        velocity: Vec2 { x: 0, y: speed as i64 },
        size: Vec2 { x: w as i64, y: h as i64 },
        lifetime: life as u64,
    }
}

pub open spec fn angled_shot(origin: Vec2, offset: int, speed: int, w: int, h: int) -> PlayerFireEvent {
    PlayerFireEvent {
        origin: Vec2 { x: origin.x, y: (origin.y + 30_000) as i64 },
        velocity: polar_velocity_spec(90_000 + offset, speed),
        size: Vec2 { x: w as i64, y: h as i64 },
        lifetime: 1800,
    }
}

/// The shots one trigger pull releases in each mode.
pub open spec fn volley_spec(mode: WeaponMode, o: Vec2) -> Seq<PlayerFireEvent> {
    match mode {
        WeaponMode::Single => seq![straight_shot(o, 0, 32_000, 520, 12_000, 24_000, 1600)],
        WeaponMode::Double => seq![
            straight_shot(o, -18_000, 32_000, 520, 12_000, 24_000, 1600),
            straight_shot(o, 18_000, 32_000, 520, 12_000, 24_000, 1600),
        ],
        WeaponMode::Spread3 => seq![
            angled_shot(o, -11_459, 540, 12_000, 22_000),
            angled_shot(o, 0, 540, 12_000, 22_000),
            angled_shot(o, 11_459, 540, 12_000, 22_000),
        ],
        WeaponMode::Spread5 => seq![
            angled_shot(o, -20_054, 560, 10_000, 22_000),
            angled_shot(o, -10_313, 560, 10_000, 22_000),
            angled_shot(o, 0, 560, 10_000, 22_000),
            angled_shot(o, 10_313, 560, 10_000, 22_000),
            angled_shot(o, 20_054, 560, 10_000, 22_000),
        ],
        WeaponMode::Laser => seq![
            straight_shot(o, -8_000, 28_000, 700, 8_000, 42_000, 1400),
            straight_shot(o, 8_000, 28_000, 700, 8_000, 42_000, 1400),
        ],
    }
}

fn emit_shot(origin: Vec2, dx: i64, dy: i64, velocity: Vec2, w: i64, h: i64, lifetime: u64) -> (r:
    PlayerFireEvent)
    requires
        origin.in_field(),
        -100_000 <= dx <= 100_000,
        -100_000 <= dy <= 100_000,
    ensures
        r == (PlayerFireEvent {
            origin: Vec2 { x: (origin.x + dx) as i64, y: (origin.y + dy) as i64 },
            velocity,
            size: Vec2 { x: w, y: h },
            lifetime,
        }),
{
    PlayerFireEvent {
        origin: Vec2 { x: origin.x + dx, y: origin.y + dy },
        velocity,
        size: Vec2 { x: w, y: h },
        lifetime,
    }
}

fn emit_angle_shot(origin: Vec2, offset: i64, speed: i64, w: i64, h: i64) -> (r: PlayerFireEvent)
    requires
        origin.in_field(),
        -45_000 <= offset <= 45_000,
        0 <= speed <= SPEED_LIMIT,
    ensures
        r == angled_shot(origin, offset as int, speed as int, w as int, h as int),
{
    let velocity = polar_velocity(90_000 + offset, speed);
    emit_shot(origin, 0, 30_000, velocity, w, h, 1800)
}

/// The shots released by one trigger pull from `origin`.
pub fn fire_weapon_pattern(weapon: &PlayerWeaponState, origin: Vec2) -> (r: Vec<PlayerFireEvent>)
    requires
        origin.in_field(),
    ensures
        r@ == volley_spec(weapon.mode, origin),
{
    let mut shots: Vec<PlayerFireEvent> = Vec::new();
    match weapon.mode {
        WeaponMode::Single => {
            shots.push(emit_shot(origin, 0, 32_000, Vec2 { x: 0, y: 520 }, 12_000, 24_000, 1600));
        },
        WeaponMode::Double => {
            shots.push(
                emit_shot(origin, -18_000, 32_000, Vec2 { x: 0, y: 520 }, 12_000, 24_000, 1600),
            );
            shots.push(
                emit_shot(origin, 18_000, 32_000, Vec2 { x: 0, y: 520 }, 12_000, 24_000, 1600),
            );
        },
        WeaponMode::Spread3 => {
            shots.push(emit_angle_shot(origin, -11_459, 540, 12_000, 22_000));
            shots.push(emit_angle_shot(origin, 0, 540, 12_000, 22_000));
            shots.push(emit_angle_shot(origin, 11_459, 540, 12_000, 22_000));
        },
        WeaponMode::Spread5 => {
            shots.push(emit_angle_shot(origin, -20_054, 560, 10_000, 22_000));
            shots.push(emit_angle_shot(origin, -10_313, 560, 10_000, 22_000));
            shots.push(emit_angle_shot(origin, 0, 560, 10_000, 22_000));
            shots.push(emit_angle_shot(origin, 10_313, 560, 10_000, 22_000));
            shots.push(emit_angle_shot(origin, 20_054, 560, 10_000, 22_000));
        },
        WeaponMode::Laser => {
            shots.push(emit_shot(origin, -8_000, 28_000, Vec2 { x: 0, y: 700 }, 8_000, 42_000, 1400));
            shots.push(emit_shot(origin, 8_000, 28_000, Vec2 { x: 0, y: 700 }, 8_000, 42_000, 1400));
        },
    }
    assert(shots@ =~= volley_spec(weapon.mode, origin));
    shots
}

/// Trigger state of the player's gun: time since the last volley, in milliseconds.
#[derive(Debug, Clone, Copy, PartialEq, Eq, Structural)]
pub struct PlayerGun {
    pub since_fire: u64,
}

/// Time since the last volley after a step, saturating.
pub open spec fn gun_elapsed(gun: PlayerGun, dt: int) -> int {
    if gun.since_fire + dt > u64::MAX {
        u64::MAX as int
    } else {
        gun.since_fire + dt
    }
}

/// Whether the gun fires in a step: the trigger is held and the cooldown has passed.
pub open spec fn gun_fires(gun: PlayerGun, shooting: bool, weapon: PlayerWeaponState, base: int, dt: int) -> bool {
    shooting && gun_elapsed(gun, dt) >= cooldown_spec(weapon, base)
}

/// The gun after a step.
pub open spec fn gun_after(gun: PlayerGun, shooting: bool, weapon: PlayerWeaponState, base: int, dt: int) -> PlayerGun {
    if gun_fires(gun, shooting, weapon, base, dt) {
        PlayerGun { since_fire: 0 }
    } else {
        PlayerGun { since_fire: gun_elapsed(gun, dt) as u64 }
    }
}

impl PlayerGun {
    /// Advances the gun by one step; fires a volley when the trigger is held and the
    /// cooldown has elapsed, and then restarts the count.
    pub fn update(
        &mut self,
        shooting: bool,
        weapon: &PlayerWeaponState,
        settings: &PlayerSettings,
        origin: Vec2,
        dt: u64,
    ) -> (r: Option<Vec<PlayerFireEvent>>)
        requires
            origin.in_field(),
            settings.fire_cooldown <= 1_000_000_000,
        ensures
            *final(self) == gun_after(*old(self), shooting, *weapon, settings.fire_cooldown as int, dt as int),
            r is Some <==> gun_fires(*old(self), shooting, *weapon, settings.fire_cooldown as int, dt as int),
            ({
                let elapsed = if old(self).since_fire + dt > u64::MAX {
                    u64::MAX as int
                } else {
                    old(self).since_fire + dt
                };
                let fires = shooting && elapsed >= cooldown_spec(
                    *weapon,
                    settings.fire_cooldown as int,
                );
                &&& fires ==> final(self).since_fire == 0 && r is Some && r->0@ == volley_spec(
                    weapon.mode,
                    origin,
                )
                &&& !fires ==> final(self).since_fire == elapsed && r is None
            }),
    {
        self.since_fire = self.since_fire.saturating_add(dt);
        let cooldown = weapon.current_cooldown(settings);
        if shooting && self.since_fire >= cooldown {
            self.since_fire = 0;
            Some(fire_weapon_pattern(weapon, origin))
        } else {
            None
        }
    }
}

} // verus!
