use vstd::prelude::*;
use crate::fixed::{Vec2, advance, advance_spec, STEP_LIMIT};
use crate::player::PlayerFireEvent;

verus! {

/// Above this height a player shot has left the playfield, in milli-pixels.
pub const PLAYER_SHOT_TOP: i64 = 460_000;

/// Below this height an enemy shot has left the playfield, in milli-pixels.
pub const ENEMY_SHOT_BOTTOM: i64 = -480_000;

/// A shot fired by an enemy or by the boss.
#[derive(Debug, Clone, Copy, PartialEq, Eq, Structural)]
pub struct EnemyFireEvent {
    pub origin: Vec2,
    pub velocity: Vec2,
    /// Width and height of the shot, in milli-pixels.
    pub size: Vec2,
    /// Time to live, in milliseconds.
    pub lifetime: u64,
    pub damage: u8,
}

/// A player shot in flight.
#[derive(Debug, Clone, Copy, PartialEq, Eq, Structural)]
pub struct Projectile {
    pub position: Vec2,
    pub velocity: Vec2,
    /// Displayed width and height, in milli-pixels.
    pub size: Vec2,
    /// Remaining time to live, in milliseconds.
    pub lifetime: u64,
}

/// An enemy shot in flight.
#[derive(Debug, Clone, Copy, PartialEq, Eq, Structural)]
pub struct EnemyProjectile {
    pub position: Vec2,
    pub velocity: Vec2,
    pub size: Vec2,
    pub lifetime: u64,
    pub damage: u8,
}

/// Shots are drawn 1.6 times the size they were fired with.
pub open spec fn displayed_size(size: Vec2) -> Vec2 {
    Vec2 { x: (size.x * 8 / 5) as i64, y: (size.y * 8 / 5) as i64 }
}

pub open spec fn size_ok(size: Vec2) -> bool {
    0 <= size.x <= 1_000_000_000 && 0 <= size.y <= 1_000_000_000
}

fn display_size(size: Vec2) -> (r: Vec2)
    requires
        size_ok(size),
    ensures
        r == displayed_size(size),
{
    Vec2 { x: size.x * 8 / 5, y: size.y * 8 / 5 }
}

pub open spec fn displayed_size_ok(size: Vec2) -> bool {
    0 <= size.x <= 2_000_000_000 && 0 <= size.y <= 2_000_000_000
}

impl Projectile {
    pub open spec fn wf(self) -> bool {
        self.position.in_field() && self.velocity.is_velocity() && displayed_size_ok(self.size)
    }

    /// Half extents of the shot's box.
    pub open spec fn half_extents(self) -> Vec2 {
        Vec2 { x: (self.size.x / 2) as i64, y: (self.size.y / 2) as i64 }
    }

    pub fn half(&self) -> (r: Vec2)
        requires
            self.wf(),
        ensures
            r == self.half_extents(),
            r.in_field(),
    {
        Vec2 { x: self.size.x / 2, y: self.size.y / 2 }
    }
}

impl EnemyProjectile {
    pub open spec fn wf(self) -> bool {
        self.position.in_field() && self.velocity.is_velocity() && displayed_size_ok(self.size)
    }

    /// Half extents of the shot's box.
    pub open spec fn half_extents(self) -> Vec2 {
        Vec2 { x: (self.size.x / 2) as i64, y: (self.size.y / 2) as i64 }
    }

    pub fn half(&self) -> (r: Vec2)
        requires
            self.wf(),
        ensures
            r == self.half_extents(),
            r.in_field(),
    {
        Vec2 { x: self.size.x / 2, y: self.size.y / 2 }
    }
}

/// Puts a fired player shot into flight.
pub fn spawn_player_projectile(event: &PlayerFireEvent) -> (r: Projectile)
    requires
        size_ok(event.size),
        event.origin.in_field(),
        event.velocity.is_velocity(),
    ensures
        r.wf(),
        r == (Projectile {
            position: event.origin,
            velocity: event.velocity,
            size: displayed_size(event.size),
            lifetime: event.lifetime,
        }),
{
    Projectile {
        position: event.origin,
        velocity: event.velocity,
        size: display_size(event.size),
        lifetime: event.lifetime,
    }
}

/// Puts a fired enemy shot into flight.
pub fn spawn_enemy_projectile(event: &EnemyFireEvent) -> (r: EnemyProjectile)
    requires
        size_ok(event.size),
        event.origin.in_field(),
        event.velocity.is_velocity(),
    ensures
        r.wf(),
        r == (EnemyProjectile {
            position: event.origin,
            velocity: event.velocity,
            size: displayed_size(event.size),
            lifetime: event.lifetime,
            damage: event.damage,
        }),
{
    EnemyProjectile {
        position: event.origin,
        velocity: event.velocity,
        size: display_size(event.size),
        lifetime: event.lifetime,
        damage: event.damage,
    }
}

/// A player shot after one step of flight.
pub open spec fn player_shot_step(p: Projectile, dt: int) -> Projectile {
    Projectile {
        position: advance_spec(p.position, p.velocity, dt),
        lifetime: if p.lifetime > dt {
            (p.lifetime - dt) as u64
        } else {
            0
        },
        ..p
    }
}

/// Whether a player shot that took a step of `dt` from `p` is still in flight: it is
/// below the top bound and its lifetime has not run out.
pub open spec fn player_shot_survives(p: Projectile, dt: int) -> bool {
    advance_spec(p.position, p.velocity, dt).y <= PLAYER_SHOT_TOP && p.lifetime > dt
}

/// Moves every player shot one step and removes those past the top bound or out of
/// lifetime, keeping the order of the others.
pub fn advance_player_projectiles(shots: &mut Vec<Projectile>, dt: u64)
    requires
        forall|i: int| 0 <= i < old(shots)@.len() ==> old(shots)@[i].wf(),
        dt <= STEP_LIMIT,
    ensures
        final(shots)@ == old(shots)@.filter(|p: Projectile| player_shot_survives(p, dt as int)).map_values(
            |p: Projectile| player_shot_step(p, dt as int),
        ),
        forall|i: int| 0 <= i < final(shots)@.len() ==> final(shots)@[i].wf(),
{
    let ghost start = shots@;
    let mut kept: Vec<Projectile> = Vec::new();
    let mut i: usize = 0;
    while i < shots.len()
        invariant
            shots@ == start,
            i <= start.len(),
            dt <= STEP_LIMIT,
            forall|j: int| 0 <= j < start.len() ==> start[j].wf(),
            kept@ == start.subrange(0, i as int).filter(|p: Projectile| player_shot_survives(p, dt as int)).map_values(
                |p: Projectile| player_shot_step(p, dt as int),
            ),
            forall|j: int| 0 <= j < kept@.len() ==> kept@[j].wf(),
        decreases start.len() - i,
    {
        let p = shots[i];
        let position = advance(p.position, p.velocity, dt);
        proof {
            assert(start.subrange(0, i + 1).drop_last() =~= start.subrange(0, i as int));
            reveal(Seq::filter);
        }
        if position.y <= PLAYER_SHOT_TOP && p.lifetime > dt {
            kept.push(Projectile { position, lifetime: p.lifetime - dt, ..p });
            proof {
                let f = start.subrange(0, i as int).filter(|p: Projectile| player_shot_survives(p, dt as int));
                assert(start.subrange(0, i + 1).filter(|p: Projectile| player_shot_survives(p, dt as int)) == f.push(p));
                assert(kept@ =~= f.push(p).map_values(|p: Projectile| player_shot_step(p, dt as int)));
            }
        }
        i = i + 1;
    }
    assert(start.subrange(0, start.len() as int) =~= start);
    *shots = kept;
}

/// An enemy shot after one step of flight.
pub open spec fn enemy_shot_step(p: EnemyProjectile, dt: int) -> EnemyProjectile {
    EnemyProjectile {
        position: advance_spec(p.position, p.velocity, dt),
        lifetime: if p.lifetime > dt {
            (p.lifetime - dt) as u64
        } else {
            0
        },
        ..p
    }
}

/// Whether an enemy shot that took a step of `dt` from `p` is still in flight.
pub open spec fn enemy_shot_survives(p: EnemyProjectile, dt: int) -> bool {
    advance_spec(p.position, p.velocity, dt).y >= ENEMY_SHOT_BOTTOM && p.lifetime > dt
}

/// Moves every enemy shot one step and removes those past the bottom bound or out of
/// lifetime, keeping the order of the others.
pub fn advance_enemy_projectiles(shots: &mut Vec<EnemyProjectile>, dt: u64)
    requires
        forall|i: int| 0 <= i < old(shots)@.len() ==> old(shots)@[i].wf(),
        dt <= STEP_LIMIT,
    ensures
        final(shots)@ == old(shots)@.filter(|p: EnemyProjectile| enemy_shot_survives(p, dt as int)).map_values(
            |p: EnemyProjectile| enemy_shot_step(p, dt as int),
        ),
        forall|i: int| 0 <= i < final(shots)@.len() ==> final(shots)@[i].wf(),
{
    let ghost start = shots@;
    let mut kept: Vec<EnemyProjectile> = Vec::new();
    let mut i: usize = 0;
    while i < shots.len()
        invariant
            shots@ == start,
            i <= start.len(),
            dt <= STEP_LIMIT,
            forall|j: int| 0 <= j < start.len() ==> start[j].wf(),
            kept@ == start.subrange(0, i as int).filter(|p: EnemyProjectile| enemy_shot_survives(p, dt as int)).map_values(
                |p: EnemyProjectile| enemy_shot_step(p, dt as int),
            ),
            forall|j: int| 0 <= j < kept@.len() ==> kept@[j].wf(),
        decreases start.len() - i,
    {
        let p = shots[i];
        let position = advance(p.position, p.velocity, dt);
        proof {
            assert(start.subrange(0, i + 1).drop_last() =~= start.subrange(0, i as int));
            reveal(Seq::filter);
        }
        if position.y >= ENEMY_SHOT_BOTTOM && p.lifetime > dt {
            kept.push(EnemyProjectile { position, lifetime: p.lifetime - dt, ..p });
            proof {
                let f = start.subrange(0, i as int).filter(|p: EnemyProjectile| enemy_shot_survives(p, dt as int));
                assert(start.subrange(0, i + 1).filter(|p: EnemyProjectile| enemy_shot_survives(p, dt as int)) == f.push(p));
                assert(kept@ =~= f.push(p).map_values(|p: EnemyProjectile| enemy_shot_step(p, dt as int)));
            }
        }
        i = i + 1;
    }
    assert(start.subrange(0, start.len() as int) =~= start);
    *shots = kept;
}

/// Whether a fired shot can be put into flight: it starts in the playfield, its velocity
/// and size are in range.
pub open spec fn player_event_ok(e: PlayerFireEvent) -> bool {
    e.origin.in_field() && e.velocity.is_velocity() && size_ok(e.size)
}

pub open spec fn enemy_event_ok(e: EnemyFireEvent) -> bool {
    e.origin.in_field() && e.velocity.is_velocity() && size_ok(e.size)
}

pub open spec fn player_projectile_of(e: PlayerFireEvent) -> Projectile {
    Projectile { position: e.origin, velocity: e.velocity, size: displayed_size(e.size), lifetime: e.lifetime }
}

pub open spec fn enemy_projectile_of(e: EnemyFireEvent) -> EnemyProjectile {
    EnemyProjectile {
        position: e.origin,
        velocity: e.velocity,
        size: displayed_size(e.size),
        lifetime: e.lifetime,
        damage: e.damage,
    }
}

fn player_event_valid(e: &PlayerFireEvent) -> (r: bool)
    ensures
        r == player_event_ok(*e),
{
    let c = crate::fixed::COORD_LIMIT;
    let v = crate::fixed::SPEED_LIMIT;
    -c <= e.origin.x && e.origin.x <= c && -c <= e.origin.y && e.origin.y <= c && -v <= e.velocity.x
        && e.velocity.x <= v && -v <= e.velocity.y && e.velocity.y <= v && 0 <= e.size.x && e.size.x
        <= 1_000_000_000 && 0 <= e.size.y && e.size.y <= 1_000_000_000
}

fn enemy_event_valid(e: &EnemyFireEvent) -> (r: bool)
    ensures
        r == enemy_event_ok(*e),
{
    let c = crate::fixed::COORD_LIMIT;
    let v = crate::fixed::SPEED_LIMIT;
    -c <= e.origin.x && e.origin.x <= c && -c <= e.origin.y && e.origin.y <= c && -v <= e.velocity.x
        && e.velocity.x <= v && -v <= e.velocity.y && e.velocity.y <= v && 0 <= e.size.x && e.size.x
        <= 1_000_000_000 && 0 <= e.size.y && e.size.y <= 1_000_000_000
}

/// Puts the fired player shots into flight after those already flying, in order; a shot
/// that starts outside the playfield or is out of range is dropped.
pub fn spawn_player_projectiles(shots: &mut Vec<Projectile>, events: &Vec<PlayerFireEvent>)
    requires
        forall|i: int| 0 <= i < old(shots)@.len() ==> (#[trigger] old(shots)@[i]).wf(),
    ensures
        final(shots)@ == old(shots)@ + events@.filter(|e: PlayerFireEvent| player_event_ok(e)).map_values(
            |e: PlayerFireEvent| player_projectile_of(e),
        ),
        forall|i: int| 0 <= i < final(shots)@.len() ==> (#[trigger] final(shots)@[i]).wf(),
{
    let ghost start = shots@;
    let mut i: usize = 0;
    while i < events.len()
        invariant
            i <= events@.len(),
            shots@ == start + events@.subrange(0, i as int).filter(|e: PlayerFireEvent| player_event_ok(e)).map_values(
                |e: PlayerFireEvent| player_projectile_of(e),
            ),
            forall|k: int| 0 <= k < shots@.len() ==> (#[trigger] shots@[k]).wf(),
        decreases events@.len() - i,
    {
        let e = events[i];
        proof {
            assert(events@.subrange(0, i + 1).drop_last() =~= events@.subrange(0, i as int));
            reveal(Seq::filter);
        }
        if player_event_valid(&e) {
            let p = spawn_player_projectile(&e);
            shots.push(p);
        }
        proof {
            assert(shots@ =~= start + events@.subrange(0, i + 1).filter(|e: PlayerFireEvent| player_event_ok(e)).map_values(
                |e: PlayerFireEvent| player_projectile_of(e),
            ));
        }
        i = i + 1;
    }
    assert(events@.subrange(0, events@.len() as int) =~= events@);
}

/// Puts the fired enemy shots into flight after those already flying, in order; a shot
/// that starts outside the playfield or is out of range is dropped.
pub fn spawn_enemy_projectiles(shots: &mut Vec<EnemyProjectile>, events: &Vec<EnemyFireEvent>)
    requires
        forall|i: int| 0 <= i < old(shots)@.len() ==> (#[trigger] old(shots)@[i]).wf(),
    ensures
        final(shots)@ == old(shots)@ + events@.filter(|e: EnemyFireEvent| enemy_event_ok(e)).map_values(
            |e: EnemyFireEvent| enemy_projectile_of(e),
        ),
        forall|i: int| 0 <= i < final(shots)@.len() ==> (#[trigger] final(shots)@[i]).wf(),
{
    let ghost start = shots@;
    let mut i: usize = 0;
    while i < events.len()
        invariant
            i <= events@.len(),
            shots@ == start + events@.subrange(0, i as int).filter(|e: EnemyFireEvent| enemy_event_ok(e)).map_values(
                |e: EnemyFireEvent| enemy_projectile_of(e),
            ),
            forall|k: int| 0 <= k < shots@.len() ==> (#[trigger] shots@[k]).wf(),
        decreases events@.len() - i,
    {
        let e = events[i];
        proof {
            assert(events@.subrange(0, i + 1).drop_last() =~= events@.subrange(0, i as int));
            reveal(Seq::filter);
        }
        if enemy_event_valid(&e) {
            let p = spawn_enemy_projectile(&e);
            shots.push(p);
        }
        proof {
            assert(shots@ =~= start + events@.subrange(0, i + 1).filter(|e: EnemyFireEvent| enemy_event_ok(e)).map_values(
                |e: EnemyFireEvent| enemy_projectile_of(e),
            ));
        }
        i = i + 1;
    }
    assert(events@.subrange(0, events@.len() as int) =~= events@);
}

} // verus!
