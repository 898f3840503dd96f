use vstd::prelude::*;
use crate::enemies::Enemy;
use crate::fixed::{Vec2, overlaps, overlaps_spec};
use crate::player::{HitOutcome, PlayerDefense, PlayerStats, handle_player_hit, hit_spec};
use crate::projectiles::{EnemyProjectile, Projectile};

verus! {

/// Health and survival of an enemy after `n` hits, one point each; hits on an enemy that
/// has already been destroyed do nothing.
pub open spec fn strike_state(health: int, n: nat) -> (int, bool)
    decreases n,
{
    if n == 0 {
        (health, true)
    } else {
        let (h, alive) = strike_state(health, (n - 1) as nat);
        if alive {
            (h - 1, h - 1 > 0)
        } else {
            (h, false)
        }
    }
}

/// Score credited for an enemy worth `value` over `n` hits: its value once it is destroyed.
pub open spec fn strike_score(health: int, value: int, n: nat) -> int {
    if strike_state(health, n).1 {
        0
    } else {
        value
    }
}

/// An enemy with health `H > 0` struck by `N` bullets keeps `H - N` health and stays in
/// play while `N < H`; from `N >= H` on it is destroyed, and its value is credited exactly
/// once however many more bullets strike it.
pub proof fn lemma_strikes(health: int, value: int, n: nat)
    requires
        health > 0,
    ensures
        n < health ==> strike_state(health, n) == (health - n, true) && strike_score(health, value, n) == 0,
        n >= health ==> !strike_state(health, n).1 && strike_state(health, n).0 == 0 && strike_score(health, value, n) == value,
    decreases n,
{
    if n > 0 {
        lemma_strikes(health, value, (n - 1) as nat);
    }
}

/// Strikes in two passes land where the same strikes in one pass would: hits on an enemy
/// add up across ticks.
pub proof fn lemma_strikes_compose(health: int, a: nat, b: nat)
    ensures
        strike_state(health, a).1 ==> strike_state(strike_state(health, a).0, b) == strike_state(
            health,
            a + b,
        ),
        !strike_state(health, a).1 ==> strike_state(health, a + b) == strike_state(health, a),
    decreases b,
{
    if b > 0 {
        lemma_strikes_compose(health, a, (b - 1) as nat);
        assert((a + b - 1) as nat == (a + (b - 1)) as nat);
    }
}

/// In any pass, an enemy with health `H > 0` struck by `N` of the shots keeps `H - N`
/// health and stays in play while `N < H`, and is destroyed otherwise.
pub proof fn lemma_pass_strikes(bullets: Seq<Projectile>, enemies: Seq<Enemy>, j: int)
    requires
        0 <= j < enemies.len(),
        enemies[j].health > 0,
    ensures
        ({
            let n = hit_count(bullets, enemies, j);
            let (e, alive) = struck_enemies(bullets, enemies)[j];
            &&& e == (Enemy { health: e.health, ..enemies[j] })
            &&& n < enemies[j].health ==> alive && e.health == enemies[j].health - n
            &&& n >= enemies[j].health ==> !alive && e.health == 0
        }),
{
    lemma_strikes(enemies[j].health as int, enemies[j].score as int, hit_count(bullets, enemies, j));
}

/// The index of the first enemy, from `start` on, whose box overlaps the shot's.
pub open spec fn first_target_from(b: Projectile, enemies: Seq<Enemy>, start: int) -> Option<int>
    decreases enemies.len() - start,
{
    if start < 0 || start >= enemies.len() {
        None
    } else if overlaps_spec(enemies[start].position, enemies[start].half_extents(), b.position, b.half_extents()) {
        Some(start)
    } else {
        first_target_from(b, enemies, start + 1)
    }
}

/// The enemy a player shot strikes: the first, in order, whose box overlaps it.
pub open spec fn bullet_target(b: Projectile, enemies: Seq<Enemy>) -> Option<int> {
    first_target_from(b, enemies, 0)
}

/// Number of shots among `bullets` that strike enemy `j`.
pub open spec fn hit_count(bullets: Seq<Projectile>, enemies: Seq<Enemy>, j: int) -> nat
    decreases bullets.len(),
{
    if bullets.len() == 0 {
        0
    } else {
        hit_count(bullets.drop_last(), enemies, j) + if bullet_target(bullets.last(), enemies) == Some(j) {
            1nat
        } else {
            0nat
        }
    }
}

/// Each enemy after the shots, with whether it is still in play.
pub open spec fn struck_enemies(bullets: Seq<Projectile>, enemies: Seq<Enemy>) -> Seq<(Enemy, bool)> {
    Seq::new(
        enemies.len(),
        |j: int|
            {
                let (h, alive) = strike_state(enemies[j].health as int, hit_count(bullets, enemies, j));
                (Enemy { health: h as i32, ..enemies[j] }, alive)
            },
    )
}

/// Total score value of a sequence of enemies.
pub open spec fn score_sum(enemies: Seq<Enemy>) -> int
    decreases enemies.len(),
{
    if enemies.len() == 0 {
        0
    } else {
        score_sum(enemies.drop_last()) + enemies.last().score
    }
}

proof fn lemma_score_sum_nonneg(enemies: Seq<Enemy>)
    ensures
        score_sum(enemies) >= 0,
    decreases enemies.len(),
{
    if enemies.len() > 0 {
        lemma_score_sum_nonneg(enemies.drop_last());
    }
}

pub open spec fn survivors(s: Seq<(Enemy, bool)>) -> Seq<Enemy> {
    s.filter(|p: (Enemy, bool)| p.1).map_values(|p: (Enemy, bool)| p.0)
}

pub open spec fn casualties(s: Seq<(Enemy, bool)>) -> Seq<Enemy> {
    s.filter(|p: (Enemy, bool)| !p.1).map_values(|p: (Enemy, bool)| p.0)
}

fn first_target(b: &Projectile, enemies: &Vec<Enemy>) -> (r: Option<usize>)
    requires
        b.wf(),
        forall|i: int| 0 <= i < enemies@.len() ==> (#[trigger] enemies@[i]).wf(),
    ensures
        match r {
            Some(j) => bullet_target(*b, enemies@) == Some(j as int) && j < enemies@.len(),
            None => bullet_target(*b, enemies@) is None,
        },
{
    let bh = b.half();
    let mut k: usize = 0;
    while k < enemies.len()
        invariant
            k <= enemies@.len(),
            bh == b.half_extents(),
            bh.in_field(),
            b.wf(),
            forall|i: int| 0 <= i < enemies@.len() ==> (#[trigger] enemies@[i]).wf(),
            first_target_from(*b, enemies@, 0) == first_target_from(*b, enemies@, k as int),
        decreases enemies@.len() - k,
    {
        let e = &enemies[k];
        assert(e.wf());
        let eh = e.half();
        if overlaps(e.position, eh, b.position, bh) {
            return Some(k);
        }
        k = k + 1;
    }
    None
}

proof fn lemma_all_hit(bullets: Seq<Projectile>, enemies: Seq<Enemy>)
    requires
        forall|i: int| 0 <= i < bullets.len() ==> bullet_target(#[trigger] bullets[i], enemies) == Some(0int),
    ensures
        hit_count(bullets, enemies, 0) == bullets.len(),
    decreases bullets.len(),
{
    if bullets.len() > 0 {
        let rest = bullets.drop_last();
        assert forall|i: int| 0 <= i < rest.len() implies bullet_target(#[trigger] rest[i], enemies) == Some(0int) by {
            assert(rest[i] == bullets[i]);
        }
        lemma_all_hit(rest, enemies);
        assert(bullet_target(bullets[bullets.len() - 1], enemies) == Some(0int));
    }
}

/// One pass of `N` shots that all strike a single enemy of health `H > 0` worth `V`:
/// with `N < H` the enemy stays in play with `H - N` health and nothing is credited; with
/// `N >= H` it is destroyed and `V` is credited exactly once.
pub proof fn lemma_single_enemy_pass(bullets: Seq<Projectile>, e: Enemy)
    requires
        e.health > 0,
        forall|i: int| 0 <= i < bullets.len() ==> bullet_target(#[trigger] bullets[i], seq![e]) == Some(0int),
    ensures
        bullets.len() < e.health ==> {
            &&& survivors(struck_enemies(bullets, seq![e])) == seq![Enemy { health: (e.health - bullets.len()) as i32, ..e }]
            &&& casualties(struck_enemies(bullets, seq![e])).len() == 0
            &&& score_sum(casualties(struck_enemies(bullets, seq![e]))) == 0
        },
        bullets.len() >= e.health ==> {
            &&& survivors(struck_enemies(bullets, seq![e])).len() == 0
            &&& casualties(struck_enemies(bullets, seq![e])).len() == 1
            &&& casualties(struck_enemies(bullets, seq![e]))[0].id == e.id
            &&& score_sum(casualties(struck_enemies(bullets, seq![e]))) == e.score
        },
{
    let es = seq![e];
    lemma_all_hit(bullets, es);
    lemma_strikes(e.health as int, e.score as int, bullets.len());
    let struck = struck_enemies(bullets, es);
    reveal_with_fuel(Seq::filter, 2);
    assert(struck.len() == 1);
    assert(struck.drop_last() =~= Seq::<(Enemy, bool)>::empty());
    let c = casualties(struck);
    if bullets.len() >= e.health {
        assert(c =~= seq![Enemy { health: 0, ..e }]);
        assert(c.drop_last() =~= Seq::<Enemy>::empty());
        assert(score_sum(c.drop_last()) == 0);
    } else {
        assert(c =~= Seq::<Enemy>::empty());
        assert(survivors(struck) =~= seq![Enemy { health: (e.health - bullets.len()) as i32, ..e }]);
    }
}

proof fn lemma_hit_count_step(bullets: Seq<Projectile>, enemies: Seq<Enemy>, i: int, j: int)
    requires
        0 <= i < bullets.len(),
    ensures
        hit_count(bullets.subrange(0, i + 1), enemies, j) == hit_count(bullets.subrange(0, i), enemies, j)
            + if bullet_target(bullets[i], enemies) == Some(j) {
            1nat
        } else {
            0nat
        },
{
    assert(bullets.subrange(0, i + 1).drop_last() =~= bullets.subrange(0, i));
}

/// Resolves player shots against enemies. Each shot strikes at most one enemy, the first
/// in order whose box overlaps it, and is then removed; the others fly on in order. Each
/// strike takes one point of health; an enemy brought to zero is destroyed, later strikes
/// on it do nothing, and its score value is credited (the total saturates). Returns the
/// destroyed enemies in enemy order, for their explosions and drops.
pub fn projectile_enemy_collisions(bullets: &mut Vec<Projectile>, enemies: &mut Vec<Enemy>, score: &mut u32) -> (r:
    Vec<Enemy>)
    requires
        forall|i: int| 0 <= i < old(bullets)@.len() ==> (#[trigger] old(bullets)@[i]).wf(),
        forall|i: int| 0 <= i < old(enemies)@.len() ==> (#[trigger] old(enemies)@[i]).wf(),
    ensures
        final(bullets)@ == old(bullets)@.filter(|b: Projectile| bullet_target(b, old(enemies)@) is None),
        final(enemies)@ == survivors(struck_enemies(old(bullets)@, old(enemies)@)),
        r@ == casualties(struck_enemies(old(bullets)@, old(enemies)@)),
        *final(score) >= *old(score),
        *final(score) == (if *old(score) + score_sum(r@) > u32::MAX {
            u32::MAX as int
        } else {
            *old(score) + score_sum(r@)
        }),
        forall|i: int| 0 <= i < final(bullets)@.len() ==> (#[trigger] final(bullets)@[i]).wf(),
        forall|i: int| 0 <= i < final(enemies)@.len() ==> (#[trigger] final(enemies)@[i]).wf(),
        forall|i: int| 0 <= i < r@.len() ==> (#[trigger] r@[i]).position.in_field(),
{
    let ghost bs = bullets@;
    let ghost es = enemies@;
    let n = enemies.len();
    let mut health: Vec<i32> = Vec::new();
    let mut alive: Vec<bool> = Vec::new();
    let mut j: usize = 0;
    while j < n
        invariant
            n == es.len(),
            enemies@ == es,
            j <= n,
            health@.len() == j,
            alive@.len() == j,
            forall|k: int| 0 <= k < j ==> health@[k] == es[k].health && alive@[k],
        decreases n - j,
    {
        health.push(enemies[j].health);
        alive.push(true);
        j = j + 1;
    }
    let mut kept: Vec<Projectile> = Vec::new();
    let mut i: usize = 0;
    while i < bullets.len()
        invariant
            bullets@ == bs,
            enemies@ == es,
            n == es.len(),
            i <= bs.len(),
            health@.len() == n,
            alive@.len() == n,
            forall|k: int| 0 <= k < bs.len() ==> (#[trigger] bs[k]).wf(),
            forall|k: int| 0 <= k < es.len() ==> (#[trigger] es[k]).wf(),
            forall|k: int| 0 <= k < n ==> (health@[k] as int, alive@[k]) == #[trigger] strike_state(
                es[k].health as int,
                hit_count(bs.subrange(0, i as int), es, k),
            ),
            kept@ == bs.subrange(0, i as int).filter(|b: Projectile| bullet_target(b, es) is None),
            forall|k: int| 0 <= k < kept@.len() ==> (#[trigger] kept@[k]).wf(),
        decreases bs.len() - i,
    {
        let b = bullets[i];
        assert(b.wf());
        let target = first_target(&b, enemies);
        proof {
            assert(bs.subrange(0, i + 1).drop_last() =~= bs.subrange(0, i as int));
            reveal(Seq::filter);
            assert forall|k: int| 0 <= k < n implies hit_count(bs.subrange(0, i + 1), es, k) == hit_count(
                bs.subrange(0, i as int),
                es,
                k,
            ) + if bullet_target(bs[i as int], es) == Some(k) {
                1nat
            } else {
                0nat
            } by {
                lemma_hit_count_step(bs, es, i as int, k);
            }
        }
        match target {
            None => {
                kept.push(b);
                proof {
                    assert forall|k: int| 0 <= k < n implies (health@[k] as int, alive@[k]) == #[trigger] strike_state(
                        es[k].health as int,
                        hit_count(bs.subrange(0, i + 1), es, k),
                    ) by {
                        assert(hit_count(bs.subrange(0, i + 1), es, k) == hit_count(bs.subrange(0, i as int), es, k));
                    }
                }
            },
            Some(t) => {
                let ghost before_h = health@;
                let ghost before_a = alive@;
                if alive[t] {
                    let h = health[t];
                    assert(strike_state(es[t as int].health as int, hit_count(bs.subrange(0, i as int), es, t as int)) == (h as int, true));
                    proof {
                        lemma_alive_health(es[t as int].health as int, hit_count(bs.subrange(0, i as int), es, t as int));
                        assert(es[t as int].wf());
                    }
                    health.set(t, h - 1);
                    if h - 1 <= 0 {
                        alive.set(t, false);
                    }
                }
                proof {
                    assert forall|k: int| 0 <= k < n implies (health@[k] as int, alive@[k]) == #[trigger] strike_state(
                        es[k].health as int,
                        hit_count(bs.subrange(0, i + 1), es, k),
                    ) by {
                        if k == t {
                            let c = hit_count(bs.subrange(0, i as int), es, k);
                            assert(hit_count(bs.subrange(0, i + 1), es, k) == c + 1);
                            assert((before_h[k] as int, before_a[k]) == strike_state(es[k].health as int, c));
                            assert(((c + 1) - 1) as nat == c);
                            assert(strike_state(es[k].health as int, c + 1) == (if before_a[k] {
                                (before_h[k] - 1, before_h[k] - 1 > 0)
                            } else {
                                (before_h[k] as int, false)
                            }));
                        } else {
                            assert(hit_count(bs.subrange(0, i + 1), es, k) == hit_count(bs.subrange(0, i as int), es, k));
                            assert(health@[k] == before_h[k]);
                            assert(alive@[k] == before_a[k]);
                        }
                    }
                }
            },
        }
        i = i + 1;
    }
    assert(bs.subrange(0, bs.len() as int) =~= bs);
    let ghost struck = struck_enemies(bs, es);
    let mut survived: Vec<Enemy> = Vec::new();
    let mut destroyed: Vec<Enemy> = Vec::new();
    let mut total: u32 = *score;
    let mut j: usize = 0;
    while j < n
        invariant
            n == es.len(),
            enemies@ == es,
            j <= n,
            health@.len() == n,
            alive@.len() == n,
            struck == struck_enemies(bs, es),
            forall|k: int| 0 <= k < es.len() ==> (#[trigger] es[k]).wf(),
            forall|k: int| 0 <= k < n ==> (health@[k] as int, alive@[k]) == #[trigger] strike_state(
                es[k].health as int,
                hit_count(bs, es, k),
            ),
            survived@ == survivors(struck.subrange(0, j as int)),
            destroyed@ == casualties(struck.subrange(0, j as int)),
            total == (if *old(score) + score_sum(destroyed@) > u32::MAX {
                u32::MAX as int
            } else {
                *old(score) + score_sum(destroyed@)
            }),
            forall|k: int| 0 <= k < survived@.len() ==> (#[trigger] survived@[k]).wf(),
            forall|k: int| 0 <= k < destroyed@.len() ==> (#[trigger] destroyed@[k]).position.in_field(),
        decreases n - j,
    {
        let e = Enemy { health: health[j], ..enemies[j] };
        proof {
            assert(struck[j as int] == (e, alive@[j as int]));
            assert(struck.subrange(0, j + 1).drop_last() =~= struck.subrange(0, j as int));
            reveal(Seq::filter);
            assert(es[j as int].wf());
            lemma_strike_floor(es[j as int].health as int, hit_count(bs, es, j as int));
        }
        if alive[j] {
            survived.push(e);
            proof {
                assert(survived@ =~= survivors(struck.subrange(0, j + 1)));
                assert(destroyed@ =~= casualties(struck.subrange(0, j + 1)));
            }
        } else {
            let ghost before = destroyed@;
            destroyed.push(e);
            total = total.saturating_add(e.score);
            proof {
                assert(destroyed@ =~= casualties(struck.subrange(0, j + 1)));
                assert(survived@ =~= survivors(struck.subrange(0, j + 1)));
                assert(destroyed@.drop_last() =~= before);
            }
        }
        j = j + 1;
    }
    assert(struck.subrange(0, n as int) =~= struck);
    proof {
        lemma_score_sum_nonneg(destroyed@);
    }
    *bullets = kept;
    *enemies = survived;
    *score = total;
    destroyed
}

proof fn lemma_alive_health(health: int, n: nat)
    requires
        strike_state(health, n).1,
    ensures
        n > 0 ==> strike_state(health, n).0 > 0,
        n == 0 ==> strike_state(health, n).0 == health,
        strike_state(health, n).0 <= health,
        strike_state(health, n).0 >= health - n,
    decreases n,
{
    if n > 0 {
        lemma_alive_health(health, (n - 1) as nat);
    }
}

proof fn lemma_strike_floor(health: int, n: nat)
    ensures
        strike_state(health, n).0 <= health,
        strike_state(health, n).0 >= if health > 0 { 0 } else { health - 1 },
    decreases n,
{
    if n > 0 {
        lemma_strike_floor(health, (n - 1) as nat);
    }
}

/// Rams the player with the first enemy, in order, whose box overlaps the player's. While
/// the player is invulnerable nothing happens. Otherwise that enemy is removed from play
/// and returned with the outcome of the hit, for its drop and the explosions.
pub fn player_enemy_collisions(
    player: Vec2,
    player_half: Vec2,
    enemies: &mut Vec<Enemy>,
    stats: &mut PlayerStats,
    defense: &mut PlayerDefense,
) -> (r: Option<(Enemy, HitOutcome)>)
    requires
        player.in_field(),
        player_half.in_field(),
        forall|i: int| 0 <= i < old(enemies)@.len() ==> (#[trigger] old(enemies)@[i]).wf(),
    ensures
        forall|i: int| 0 <= i < final(enemies)@.len() ==> (#[trigger] final(enemies)@[i]).wf(),
        r is None ==> final(enemies)@ == old(enemies)@ && *final(stats) == *old(stats) && *final(defense) == *old(defense)
            && (old(defense).invulnerability > 0 || forall|i: int| 0 <= i < old(enemies)@.len() ==> !overlaps_spec(
                player,
                player_half,
                (#[trigger] old(enemies)@[i]).position,
                old(enemies)@[i].half_extents(),
            )),
        r matches Some((e, outcome)) ==> old(defense).invulnerability == 0 && exists|k: int| {
            &&& 0 <= k < old(enemies)@.len()
            &&& old(enemies)@[k] == e
            &&& overlaps_spec(player, player_half, e.position, e.half_extents())
            &&& forall|j: int| 0 <= j < k ==> !overlaps_spec(
                player,
                player_half,
                (#[trigger] old(enemies)@[j]).position,
                old(enemies)@[j].half_extents(),
            )
            &&& final(enemies)@ == old(enemies)@.remove(k)
            &&& hit_spec(*old(stats), *old(defense), e.damage, *final(stats), *final(defense), outcome)
        },
{
    if defense.invulnerability > 0 {
        return None;
    }
    let mut k: usize = 0;
    while k < enemies.len()
        invariant
            k <= enemies@.len(),
            enemies@ == old(enemies)@,
            *stats == *old(stats),
            *defense == *old(defense),
            defense.invulnerability == 0,
            player.in_field(),
            player_half.in_field(),
            forall|i: int| 0 <= i < enemies@.len() ==> (#[trigger] enemies@[i]).wf(),
            forall|j: int| 0 <= j < k ==> !overlaps_spec(
                player,
                player_half,
                (#[trigger] enemies@[j]).position,
                enemies@[j].half_extents(),
            ),
        decreases enemies@.len() - k,
    {
        let e = enemies[k];
        assert(e.wf());
        let eh = e.half();
        if overlaps(player, player_half, e.position, eh) {
            let outcome = handle_player_hit(stats, defense, e.damage);
            let ghost before = enemies@;
            enemies.remove(k);
            assert(enemies@ =~= before.remove(k as int));
            return Some((e, outcome));
        }
        k = k + 1;
    }
    None
}

/// Hits the player with the first enemy shot, in order, whose box overlaps the player's.
/// While the player is invulnerable nothing happens. Otherwise that shot is removed and
/// returned with the outcome of the hit.
pub fn enemy_projectile_player_collisions(
    player: Vec2,
    player_half: Vec2,
    shots: &mut Vec<EnemyProjectile>,
    stats: &mut PlayerStats,
    defense: &mut PlayerDefense,
) -> (r: Option<(EnemyProjectile, HitOutcome)>)
    requires
        player.in_field(),
        player_half.in_field(),
        forall|i: int| 0 <= i < old(shots)@.len() ==> (#[trigger] old(shots)@[i]).wf(),
    ensures
        forall|i: int| 0 <= i < final(shots)@.len() ==> (#[trigger] final(shots)@[i]).wf(),
        r is None ==> final(shots)@ == old(shots)@ && *final(stats) == *old(stats) && *final(defense) == *old(defense)
            && (old(defense).invulnerability > 0 || forall|i: int| 0 <= i < old(shots)@.len() ==> !overlaps_spec(
                player,
                player_half,
                (#[trigger] old(shots)@[i]).position,
                old(shots)@[i].half_extents(),
            )),
        r matches Some((p, outcome)) ==> old(defense).invulnerability == 0 && exists|k: int| {
            &&& 0 <= k < old(shots)@.len()
            &&& old(shots)@[k] == p
            &&& overlaps_spec(player, player_half, p.position, p.half_extents())
            &&& forall|j: int| 0 <= j < k ==> !overlaps_spec(
                player,
                player_half,
                (#[trigger] old(shots)@[j]).position,
                old(shots)@[j].half_extents(),
            )
            &&& final(shots)@ == old(shots)@.remove(k)
            &&& hit_spec(*old(stats), *old(defense), p.damage, *final(stats), *final(defense), outcome)
        },
{
    if defense.invulnerability > 0 {
        return None;
    }
    let mut k: usize = 0;
    while k < shots.len()
        invariant
            k <= shots@.len(),
            shots@ == old(shots)@,
            *stats == *old(stats),
            *defense == *old(defense),
            defense.invulnerability == 0,
            player.in_field(),
            player_half.in_field(),
            forall|i: int| 0 <= i < shots@.len() ==> (#[trigger] shots@[i]).wf(),
            forall|j: int| 0 <= j < k ==> !overlaps_spec(
                player,
                player_half,
                (#[trigger] shots@[j]).position,
                shots@[j].half_extents(),
            ),
        decreases shots@.len() - k,
    {
        let p = shots[k];
        assert(p.wf());
        let ph = p.half();
        if overlaps(player, player_half, p.position, ph) {
            let outcome = handle_player_hit(stats, defense, p.damage);
            let ghost before = shots@;
            shots.remove(k);
            assert(shots@ =~= before.remove(k as int));
            return Some((p, outcome));
        }
        k = k + 1;
    }
    None
}

} // verus!
