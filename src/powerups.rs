use vstd::prelude::*;
use crate::fixed::{Vec2, overlaps, overlaps_spec, COORD_LIMIT, STEP_LIMIT, shift_coord, shift_coord_spec, displacement};
use crate::names::{normalize_name, normalized_name, same_word, UnknownName};
use crate::player::{MAX_FIRE_RATE_LEVEL, PlayerDefense, PlayerStats, PlayerWeaponState, next_mode, mode_rank, WeaponMode};

verus! {

/// Minimum invulnerability a shield pickup grants, in milliseconds.
pub const SHIELD_DURATION: u64 = 3000;

/// Minimum invulnerability an invincibility pickup grants, in milliseconds.
pub const INVINCIBLE_POWERUP_DURATION: u64 = 10_000;

/// Downward drift of a power-up, in milli-pixels per millisecond.
pub const POWERUP_SPEED: i64 = 120;

/// Half extent of a power-up on each axis, in milli-pixels.
pub const POWERUP_HALF_SIZE: i64 = 18_000;

/// Below this height a power-up has left the playfield.
pub const POWERUP_BOTTOM: i64 = -420_000;

/// The kinds of collectible power-up.
#[derive(Debug, Clone, Copy, PartialEq, Eq, Structural)]
pub enum PowerUpKind {
    Spread,
    Rapid,
    Shield,
    Health,
    Invincibility,
}

/// The power-up a normalised name stands for.
pub open spec fn powerup_for_word(w: Seq<char>) -> Option<PowerUpKind> {
    if w == "spread"@ {
        Some(PowerUpKind::Spread)
    } else if w == "rapid"@ {
        Some(PowerUpKind::Rapid)
    } else if w == "shield"@ {
        Some(PowerUpKind::Shield)
    } else if w == "health"@ {
        Some(PowerUpKind::Health)
    } else if w == "invincibility"@ || w == "invincible"@ {
        Some(PowerUpKind::Invincibility)
    } else {
        None
    }
}

impl PowerUpKind {
    /// The power-up named by an already normalised word, if any.
    pub fn from_normalized(word: &String) -> (r: Option<PowerUpKind>)
        ensures
            r == powerup_for_word(word@),
    {
        if same_word(word, "spread") {
            Some(PowerUpKind::Spread)
        } else if same_word(word, "rapid") {
            Some(PowerUpKind::Rapid)
        } else if same_word(word, "shield") {
            Some(PowerUpKind::Shield)
        } else if same_word(word, "health") {
            Some(PowerUpKind::Health)
        } else if same_word(word, "invincibility") || same_word(word, "invincible") {
            Some(PowerUpKind::Invincibility)
        } else {
            None
        }
    }

    /// Parses a power-up name, ignoring case, `-`, `_` and spaces.
    pub fn from_name(name: &str) -> (r: Result<PowerUpKind, UnknownName>)
        ensures
            match powerup_for_word(normalized_name(name@)) {
                Some(k) => r == Ok::<PowerUpKind, UnknownName>(k),
                None => r is Err && r->Err_0.value@ == name@,
            },
    {
        let word = normalize_name(name);
        match PowerUpKind::from_normalized(&word) {
            Some(k) => Ok(k),
            None => Err(UnknownName { value: String::from_str(name) }),
        }
    }
}

/// A power-up drifting down the playfield.
#[derive(Debug, Clone, Copy, PartialEq, Eq, Structural)]
pub struct PowerUp {
    pub kind: PowerUpKind,
    pub position: Vec2,
}

/// A request to place a power-up where an enemy was destroyed.
#[derive(Debug, Clone, Copy, PartialEq, Eq, Structural)]
pub struct SpawnPowerUpEvent {
    pub position: Vec2,
    pub kind: PowerUpKind,
}

/// The weapon after one pickup.
pub open spec fn weapon_after_pickup(w: PlayerWeaponState, kind: PowerUpKind) -> PlayerWeaponState {
    match kind {
        PowerUpKind::Spread => PlayerWeaponState { mode: next_mode(w.mode), ..w },
        PowerUpKind::Rapid => PlayerWeaponState {
            fire_rate_level: if w.fire_rate_level < MAX_FIRE_RATE_LEVEL {
                (w.fire_rate_level + 1) as u8
            } else {
                MAX_FIRE_RATE_LEVEL
            },
            ..w
        },
        _ => w,
    }
}

/// The invulnerability after one pickup.
pub open spec fn defense_after_pickup(d: PlayerDefense, kind: PowerUpKind) -> PlayerDefense {
    match kind {
        PowerUpKind::Shield => PlayerDefense {
            invulnerability: if d.invulnerability > SHIELD_DURATION {
                d.invulnerability
            } else {
                SHIELD_DURATION
            },
        },
        PowerUpKind::Invincibility => PlayerDefense {
            invulnerability: if d.invulnerability > INVINCIBLE_POWERUP_DURATION {
                d.invulnerability
            } else {
                INVINCIBLE_POWERUP_DURATION
            },
        },
        _ => d,
    }
}

/// The player's stats after one pickup.
pub open spec fn stats_after_pickup(s: PlayerStats, kind: PowerUpKind) -> PlayerStats {
    match kind {
        PowerUpKind::Health => PlayerStats {
            health: if s.health as int + 1 < s.max_health as int {
                (s.health + 1) as u8
            } else {
                s.max_health
            },
            ..s
        },
        _ => s,
    }
}

/// Applies the effect of a collected power-up.
pub fn apply_powerup(
    kind: PowerUpKind,
    weapon: &mut PlayerWeaponState,
    defense: &mut PlayerDefense,
    stats: &mut PlayerStats,
)
    ensures
        *final(weapon) == weapon_after_pickup(*old(weapon), kind),
        *final(defense) == defense_after_pickup(*old(defense), kind),
        *final(stats) == stats_after_pickup(*old(stats), kind),
{
    match kind {
        PowerUpKind::Spread => weapon.advance_mode(),
        PowerUpKind::Rapid => weapon.boost_fire_rate(),
        PowerUpKind::Shield => {
            if defense.invulnerability < SHIELD_DURATION {
                defense.invulnerability = SHIELD_DURATION;
            }
        },
        PowerUpKind::Health => {
            let raised = stats.health.saturating_add(1);
            stats.health = if raised < stats.max_health {
                raised
            } else {
                stats.max_health
            };
        },
        PowerUpKind::Invincibility => {
            if defense.invulnerability < INVINCIBLE_POWERUP_DURATION {
                defense.invulnerability = INVINCIBLE_POWERUP_DURATION;
            }
        },
    }
}

/// The weapon after a sequence of pickups, in order.
pub open spec fn weapon_after_pickups(w: PlayerWeaponState, kinds: Seq<PowerUpKind>) -> PlayerWeaponState
    decreases kinds.len(),
{
    if kinds.len() == 0 {
        w
    } else {
        weapon_after_pickup(weapon_after_pickups(w, kinds.drop_last()), kinds.last())
    }
}

/// Number of pickups of `kind` in a sequence.
pub open spec fn count_kind(kinds: Seq<PowerUpKind>, kind: PowerUpKind) -> nat
    decreases kinds.len(),
{
    if kinds.len() == 0 {
        0
    } else {
        count_kind(kinds.drop_last(), kind) + if kinds.last() == kind {
            1nat
        } else {
            0nat
        }
    }
}

pub open spec fn min_int(a: int, b: int) -> int {
    if a < b {
        a
    } else {
        b
    }
}

/// Spread pickups move the fire mode one step each along
/// Single, Double, Spread3, Spread5, Laser and leave it at Laser from then on; other
/// pickups never change the mode.
pub proof fn lemma_mode_advances(w: PlayerWeaponState, kinds: Seq<PowerUpKind>)
    ensures
        mode_rank(weapon_after_pickups(w, kinds).mode) == min_int(
            mode_rank(w.mode) + count_kind(kinds, PowerUpKind::Spread),
            4,
        ),
        mode_rank(weapon_after_pickups(w, kinds).mode) >= mode_rank(w.mode),
        w.mode == WeaponMode::Laser ==> weapon_after_pickups(w, kinds).mode == WeaponMode::Laser,
    decreases kinds.len(),
{
    if kinds.len() > 0 {
        lemma_mode_advances(w, kinds.drop_last());
    }
}

/// Rapid pickups raise the fire-rate level by one each up to the cap of 5; no pickup
/// ever lowers it, whatever the number of pickups.
pub proof fn lemma_fire_rate_capped(w: PlayerWeaponState, kinds: Seq<PowerUpKind>)
    requires
        w.fire_rate_level <= MAX_FIRE_RATE_LEVEL,
    ensures
        weapon_after_pickups(w, kinds).fire_rate_level == min_int(
            w.fire_rate_level + count_kind(kinds, PowerUpKind::Rapid),
            MAX_FIRE_RATE_LEVEL as int,
        ),
        w.fire_rate_level <= weapon_after_pickups(w, kinds).fire_rate_level
            <= MAX_FIRE_RATE_LEVEL,
    decreases kinds.len(),
{
    if kinds.len() > 0 {
        lemma_fire_rate_capped(w, kinds.drop_last());
    }
}

/// A pickup never lowers the fire-rate level and never lifts it past the cap.
pub proof fn lemma_fire_rate_step(w: PlayerWeaponState, kind: PowerUpKind)
    requires
        w.fire_rate_level <= MAX_FIRE_RATE_LEVEL,
    ensures
        w.fire_rate_level <= weapon_after_pickup(w, kind).fire_rate_level <= MAX_FIRE_RATE_LEVEL,
        mode_rank(w.mode) <= mode_rank(weapon_after_pickup(w, kind).mode),
{
}

/// A power-up after one step of drift.
pub open spec fn drifted(p: PowerUp, dt: int) -> PowerUp {
    PowerUp {
        position: Vec2 {
            y: shift_coord_spec(p.position.y as int, -POWERUP_SPEED * dt) as i64,
            ..p.position
        },
        ..p
    }
}

/// Moves every power-up down by one step and drops those that leave the playfield,
/// keeping the order of the others.
pub fn move_powerups(powerups: &mut Vec<PowerUp>, dt: u64)
    requires
        forall|i: int| 0 <= i < old(powerups)@.len() ==> old(powerups)@[i].position.in_field(),
        dt <= STEP_LIMIT,
    ensures
        final(powerups)@ == old(powerups)@.map_values(|p: PowerUp| drifted(p, dt as int)).filter(
            |p: PowerUp| p.position.y >= POWERUP_BOTTOM,
        ),
        forall|i: int| 0 <= i < final(powerups)@.len() ==> final(powerups)@[i].position.in_field(),
{
    let ghost start = powerups@;
    let ghost moved = start.map_values(|p: PowerUp| drifted(p, dt as int));
    let mut kept: Vec<PowerUp> = Vec::new();
    let mut i: usize = 0;
    let step = displacement(-POWERUP_SPEED, dt);
    while i < powerups.len()
        invariant
            powerups@ == start,
            i <= start.len(),
            step == -POWERUP_SPEED * dt,
            -COORD_LIMIT <= step <= COORD_LIMIT,
            moved == start.map_values(|p: PowerUp| drifted(p, dt as int)),
            forall|j: int| 0 <= j < start.len() ==> start[j].position.in_field(),
            kept@ == moved.subrange(0, i as int).filter(|p: PowerUp| p.position.y >= POWERUP_BOTTOM),
            forall|j: int| 0 <= j < kept@.len() ==> kept@[j].position.in_field(),
        decreases start.len() - i,
    {
        let p = powerups[i];
        let y = shift_coord(p.position.y, step);
        let q = PowerUp { position: Vec2 { x: p.position.x, y }, ..p };
        proof {
            assert(q == moved[i as int]);
            assert(moved.subrange(0, i + 1).drop_last() =~= moved.subrange(0, i as int));
            reveal(Seq::filter);
        }
        if y >= POWERUP_BOTTOM {
            kept.push(q);
        }
        i = i + 1;
    }
    assert(moved.subrange(0, start.len() as int) =~= moved);
    *powerups = kept;
}

pub open spec fn touches(p: PowerUp, player: Vec2, player_half: Vec2) -> bool {
    overlaps_spec(player, player_half, p.position, Vec2 { x: POWERUP_HALF_SIZE, y: POWERUP_HALF_SIZE })
}

/// Collects at most one power-up: the first one (in order) whose box overlaps the
/// player's. It is removed and its effect applied. Returns the kind collected, for the
/// pickup cue.
pub fn collect_powerups(
    powerups: &mut Vec<PowerUp>,
    player: Vec2,
    player_half: Vec2,
    weapon: &mut PlayerWeaponState,
    defense: &mut PlayerDefense,
    stats: &mut PlayerStats,
) -> (r: Option<PowerUpKind>)
    requires
        forall|i: int| 0 <= i < old(powerups)@.len() ==> old(powerups)@[i].position.in_field(),
        player.in_field(),
        player_half.in_field(),
    ensures
        r is None ==> {
            &&& forall|i: int|
                0 <= i < old(powerups)@.len() ==> !touches(old(powerups)@[i], player, player_half)
            &&& final(powerups)@ == old(powerups)@
            &&& *final(weapon) == *old(weapon)
            &&& *final(defense) == *old(defense)
            &&& *final(stats) == *old(stats)
        },
        r is Some ==> exists|i: int|
            {
                &&& 0 <= i < old(powerups)@.len()
                &&& touches(old(powerups)@[i], player, player_half)
                &&& forall|j: int|
                    0 <= j < i ==> !touches(old(powerups)@[j], player, player_half)
                &&& old(powerups)@[i].kind == r->0
                &&& final(powerups)@ == old(powerups)@.remove(i)
                &&& *final(weapon) == weapon_after_pickup(*old(weapon), r->0)
                &&& *final(defense) == defense_after_pickup(*old(defense), r->0)
                &&& *final(stats) == stats_after_pickup(*old(stats), r->0)
            },
        forall|i: int| 0 <= i < final(powerups)@.len() ==> final(powerups)@[i].position.in_field(),
{
    let half = Vec2 { x: POWERUP_HALF_SIZE, y: POWERUP_HALF_SIZE };
    let mut i: usize = 0;
    while i < powerups.len()
        invariant
            i <= powerups@.len(),
            powerups@ == old(powerups)@,
            *weapon == *old(weapon),
            *defense == *old(defense),
            *stats == *old(stats),
            forall|j: int| 0 <= j < powerups@.len() ==> powerups@[j].position.in_field(),
            forall|j: int| 0 <= j < i ==> !touches(powerups@[j], player, player_half),
            player.in_field(),
            player_half.in_field(),
            half == (Vec2 { x: POWERUP_HALF_SIZE, y: POWERUP_HALF_SIZE }),
        decreases powerups@.len() - i,
    {
        let p = powerups[i];
        if overlaps(player, player_half, p.position, half) {
            let ghost before = powerups@;
            powerups.remove(i);
            apply_powerup(p.kind, weapon, defense, stats);
            assert(powerups@ =~= before.remove(i as int));
            return Some(p.kind);
        }
        i = i + 1;
    }
    None
}

/// Places the power-ups of the spawn requests after those already drifting, in order.
pub fn spawn_powerups_from_events(powerups: &mut Vec<PowerUp>, events: &Vec<SpawnPowerUpEvent>)
    requires
        forall|i: int| 0 <= i < events@.len() ==> (#[trigger] events@[i]).position.in_field(),
        forall|i: int| 0 <= i < old(powerups)@.len() ==> (#[trigger] old(powerups)@[i]).position.in_field(),
    ensures
        final(powerups)@ == old(powerups)@ + events@.map_values(
            |e: SpawnPowerUpEvent| PowerUp { kind: e.kind, position: e.position },
        ),
        forall|i: int| 0 <= i < final(powerups)@.len() ==> (#[trigger] final(powerups)@[i]).position.in_field(),
{
    let ghost start = powerups@;
    let mut i: usize = 0;
    while i < events.len()
        invariant
            i <= events@.len(),
            forall|k: int| 0 <= k < events@.len() ==> (#[trigger] events@[k]).position.in_field(),
            powerups@ == start + events@.subrange(0, i as int).map_values(
                |e: SpawnPowerUpEvent| PowerUp { kind: e.kind, position: e.position },
            ),
            forall|k: int| 0 <= k < powerups@.len() ==> (#[trigger] powerups@[k]).position.in_field(),
        decreases events@.len() - i,
    {
        let e = events[i];
        assert(e == events@[i as int]);
        powerups.push(PowerUp { kind: e.kind, position: e.position });
        i = i + 1;
        assert(powerups@ =~= start + events@.subrange(0, i as int).map_values(
            |e: SpawnPowerUpEvent| PowerUp { kind: e.kind, position: e.position },
        ));
    }
    assert(events@.subrange(0, events@.len() as int) =~= events@);
}

} // verus!
