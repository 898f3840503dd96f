use vstd::prelude::*;
use crate::boss::{BOSS_SCORE_STEP, BossState, boss_health_tracker, boss_movement_and_attacks, trigger_boss_spawn};
use crate::collisions::{score_sum, enemy_projectile_player_collisions, player_enemy_collisions, projectile_enemy_collisions};
use crate::difficulty::Difficulty;
use crate::enemies::{Enemy, cleanup_offscreen_enemies, enemy_fire_system, move_enemies, spawn_enemies_from_events};
use crate::events::{AudioCue, ExplosionEvent};
use crate::fixed::{Vec2, SPEED_LIMIT, STEP_LIMIT};
use crate::player::{gun_after, gun_fires, player_position_after, HitOutcome, MoveInput, PlayerDefense, PlayerFireEvent, PlayerGun, PlayerSettings, PlayerStats, PlayerWeaponState, PLAYER_BOUND_X, PLAYER_BOUND_Y, PLAYER_SPAWN_Y, move_player};
use crate::powerups::{PowerUp, PowerUpKind, SpawnPowerUpEvent, weapon_after_pickup, collect_powerups, move_powerups, spawn_powerups_from_events};
use crate::projectiles::{EnemyProjectile, Projectile, advance_enemy_projectiles, advance_player_projectiles, spawn_enemy_projectiles, spawn_player_projectiles};
use crate::storyboard::Storyboard;
use crate::waves::{WaveDirector, clear_waves, drive_waves, reset_waves};

verus! {

/// Where the game as a whole stands.
#[derive(Debug, Clone, Copy, PartialEq, Eq, Structural)]
pub enum AppState {
    Title,
    Playing,
    Paused,
    GameOver,
}

/// Points scored in the current run.
#[derive(Debug, Clone, Copy, PartialEq, Eq, Structural)]
pub struct ScoreBoard {
    pub score: u32,
}

/// Half extents of the player's hull, in milli-pixels.
pub const PLAYER_HALF_X: i64 = 24_000;

pub const PLAYER_HALF_Y: i64 = 32_000;

/// What the controls ask of one tick.
#[derive(Debug, Clone, Copy, PartialEq, Eq, Structural)]
pub struct TickInput {
    pub movement: MoveInput,
    pub shooting: bool,
}

/// What one tick asks of the audio and effects collaborators.
#[derive(Debug, Clone, PartialEq, Eq)]
pub struct TickOutput {
    pub cues: Vec<AudioCue>,
    pub explosions: Vec<ExplosionEvent>,
    /// The player lost a life this tick and was put back at the start position.
    pub life_lost: bool,
    /// Enemies destroyed by the player's shots, in enemy order.
    pub destroyed: Vec<Enemy>,
    /// The enemy that rammed the player, with the outcome of the hit.
    pub ram: Option<(Enemy, HitOutcome)>,
    /// The enemy shot that hit the player, with the outcome of the hit.
    pub shot_hit: Option<(EnemyProjectile, HitOutcome)>,
    /// The power-up collected.
    pub collected: Option<PowerUpKind>,
    /// The boss encounter was won this tick.
    pub boss_defeated: bool,
}

/// `c` once if `b`, else nothing.
pub open spec fn cue_if(c: AudioCue, b: bool) -> Seq<AudioCue> {
    if b {
        seq![c]
    } else {
        Seq::empty()
    }
}

/// The outcome of a recorded hit, if there was one.
pub open spec fn outcome_of<T>(hit: Option<(T, HitOutcome)>) -> Option<HitOutcome> {
    match hit {
        Some((_, o)) => Some(o),
        None => None,
    }
}

/// A ram explodes the enemy (large for tanks and bosses) and, large, the player.
pub open spec fn ram_explosions(ram: Option<(Enemy, HitOutcome)>, player: Vec2) -> Seq<ExplosionEvent> {
    match ram {
        Some((e, _)) => seq![explosion_of(e), ExplosionEvent { position: player, large: true }],
        None => Seq::empty(),
    }
}

/// An enemy shot that hits makes a small explosion at the player.
pub open spec fn shot_explosions(hit: Option<(EnemyProjectile, HitOutcome)>, player: Vec2) -> Seq<ExplosionEvent> {
    match hit {
        Some(_) => seq![ExplosionEvent { position: player, large: false }],
        None => Seq::empty(),
    }
}

/// The power-up a destroyed or ramming enemy leaves behind, if it carried one.
pub open spec fn drop_of(e: Enemy) -> Seq<SpawnPowerUpEvent> {
    match e.drop {
        Some(k) => seq![SpawnPowerUpEvent { position: e.position, kind: k }],
        None => Seq::empty(),
    }
}

/// Effects of an accepted ram: a hit cue, an explosion at the enemy (large for tanks and
/// bosses) and a large one at the player, and the enemy's power-up if it carried one.
pub fn ram_effects(
    e: &Enemy,
    player: Vec2,
    cues: &mut Vec<AudioCue>,
    explosions: &mut Vec<ExplosionEvent>,
    drops: &mut Vec<SpawnPowerUpEvent>,
)
    ensures
        final(cues)@ == old(cues)@ + seq![AudioCue::Hit],
        final(explosions)@ == old(explosions)@ + seq![explosion_of(*e), ExplosionEvent { position: player, large: true }],
        final(drops)@ == old(drops)@ + drop_of(*e),
{
    cues.push(AudioCue::Hit);
    match e.drop {
        Some(k) => {
            drops.push(SpawnPowerUpEvent { position: e.position, kind: k });
        },
        None => {},
    }
    explosions.push(ExplosionEvent { position: e.position, large: e.kind.is_large() });
    explosions.push(ExplosionEvent { position: player, large: true });
    assert(final(explosions)@ =~= old(explosions)@ + seq![explosion_of(*e), ExplosionEvent { position: player, large: true }]);
    assert(final(drops)@ =~= old(drops)@ + drop_of(*e));
    assert(final(cues)@ =~= old(cues)@ + seq![AudioCue::Hit]);
}

/// Effects of an enemy shot that hits: a hit cue and a small explosion at the player.
pub fn shot_hit_effects(player: Vec2, cues: &mut Vec<AudioCue>, explosions: &mut Vec<ExplosionEvent>)
    ensures
        final(cues)@ == old(cues)@ + seq![AudioCue::Hit],
        final(explosions)@ == old(explosions)@ + seq![ExplosionEvent { position: player, large: false }],
{
    cues.push(AudioCue::Hit);
    explosions.push(ExplosionEvent { position: player, large: false });
    assert(final(explosions)@ =~= old(explosions)@ + seq![ExplosionEvent { position: player, large: false }]);
    assert(final(cues)@ =~= old(cues)@ + seq![AudioCue::Hit]);
}

/// All the state of a run, owned by the tick loop.
#[derive(Debug, Clone, PartialEq, Eq)]
pub struct Simulation {
    pub app_state: AppState,
    pub difficulty: Difficulty,
    pub scoreboard: ScoreBoard,
    pub stats: PlayerStats,
    pub defense: PlayerDefense,
    pub weapon: PlayerWeaponState,
    pub settings: PlayerSettings,
    pub gun: PlayerGun,
    /// Position of the player's ship, in milli-pixels.
    pub player: Vec2,
    pub enemies: Vec<Enemy>,
    pub bullets: Vec<Projectile>,
    pub enemy_shots: Vec<EnemyProjectile>,
    pub powerups: Vec<PowerUp>,
    pub director: WaveDirector,
    pub boss: BossState,
    pub storyboard: Storyboard,
    /// Identity the next enemy will get.
    pub next_id: u64,
}

/// The effects of destroying enemies by shots: an explosion cue and an explosion (large
/// for tanks and bosses) for each, and a power-up wherever one was carried.
pub open spec fn destruction_drops(destroyed: Seq<Enemy>) -> Seq<SpawnPowerUpEvent>
    decreases destroyed.len(),
{
    if destroyed.len() == 0 {
        Seq::empty()
    } else {
        let e = destroyed.last();
        destruction_drops(destroyed.drop_last()) + match e.drop {
            Some(k) => seq![SpawnPowerUpEvent { position: e.position, kind: k }],
            None => Seq::empty(),
        }
    }
}

pub open spec fn explosion_of(e: Enemy) -> ExplosionEvent {
    ExplosionEvent {
        position: e.position,
        large: e.kind == crate::enemies::EnemyKind::Tank || e.kind == crate::enemies::EnemyKind::Boss,
    }
}

/// Cues, explosions and drops for enemies destroyed by shots, in order.
pub fn destruction_effects(destroyed: &Vec<Enemy>, cues: &mut Vec<AudioCue>, explosions: &mut Vec<ExplosionEvent>) -> (r: Vec<SpawnPowerUpEvent>)
    requires
        forall|i: int| 0 <= i < destroyed@.len() ==> (#[trigger] destroyed@[i]).position.in_field(),
    ensures
        final(cues)@ == old(cues)@ + Seq::new(destroyed@.len(), |i: int| AudioCue::Explosion),
        final(explosions)@ == old(explosions)@ + destroyed@.map_values(|e: Enemy| explosion_of(e)),
        r@ == destruction_drops(destroyed@),
        forall|i: int| 0 <= i < r@.len() ==> (#[trigger] r@[i]).position.in_field(),
{
    let ghost c0 = cues@;
    let ghost x0 = explosions@;
    let mut drops: Vec<SpawnPowerUpEvent> = Vec::new();
    let mut i: usize = 0;
    while i < destroyed.len()
        invariant
            i <= destroyed@.len(),
            forall|k: int| 0 <= k < destroyed@.len() ==> (#[trigger] destroyed@[k]).position.in_field(),
            cues@ == c0 + Seq::new(i as nat, |k: int| AudioCue::Explosion),
            explosions@ == x0 + destroyed@.subrange(0, i as int).map_values(|e: Enemy| explosion_of(e)),
            drops@ == destruction_drops(destroyed@.subrange(0, i as int)),
            forall|k: int| 0 <= k < drops@.len() ==> (#[trigger] drops@[k]).position.in_field(),
        decreases destroyed@.len() - i,
    {
        let e = destroyed[i];
        assert(e.position.in_field());
        proof {
            assert(destroyed@.subrange(0, i + 1).drop_last() =~= destroyed@.subrange(0, i as int));
        }
        cues.push(AudioCue::Explosion);
        explosions.push(ExplosionEvent { position: e.position, large: e.kind.is_large() });
        match e.drop {
            Some(k) => {
                drops.push(SpawnPowerUpEvent { position: e.position, kind: k });
            },
            None => {},
        }
        i = i + 1;
        assert(cues@ =~= c0 + Seq::new(i as nat, |k: int| AudioCue::Explosion));
        assert(explosions@ =~= x0 + destroyed@.subrange(0, i as int).map_values(|e: Enemy| explosion_of(e)));
        assert(drops@ =~= destruction_drops(destroyed@.subrange(0, i as int)));
    }
    assert(destroyed@.subrange(0, destroyed@.len() as int) =~= destroyed@);
    drops
}

/// Identities stop being handed out here.
pub const ID_LIMIT: u64 = 0xffff_ffff_ffff;

impl Simulation {
    /// The invariant of a run: every entity is in range, the player stays in the playfield,
    /// and the wave director is suspended exactly while a boss is active.
    pub open spec fn wf(&self) -> bool {
        &&& self.storyboard.wf()
        &&& self.director.wf()
        &&& self.director.boss_active == self.boss.active
        &&& -PLAYER_BOUND_X <= self.player.x <= PLAYER_BOUND_X
        &&& -PLAYER_BOUND_Y <= self.player.y <= PLAYER_BOUND_Y
        &&& 0 <= self.settings.speed <= SPEED_LIMIT
        &&& self.settings.fire_cooldown <= 1_000_000_000
        &&& self.weapon.fire_rate_level <= crate::player::MAX_FIRE_RATE_LEVEL
        &&& self.next_id <= ID_LIMIT
        &&& forall|i: int| 0 <= i < self.enemies@.len() ==> (#[trigger] self.enemies@[i]).wf()
        &&& forall|i: int| 0 <= i < self.bullets@.len() ==> (#[trigger] self.bullets@[i]).wf()
        &&& forall|i: int| 0 <= i < self.enemy_shots@.len() ==> (#[trigger] self.enemy_shots@[i]).wf()
        &&& forall|i: int| 0 <= i < self.powerups@.len() ==> (#[trigger] self.powerups@[i]).position.in_field()
    }

    /// A new session on the title screen.
    pub fn new(storyboard: Storyboard, difficulty: Difficulty) -> (r: Simulation)
        requires
            storyboard.wf(),
        ensures
            r.wf(),
            r.app_state == AppState::Title,
            r.scoreboard.score == 0,
            r.storyboard == storyboard,
            r.difficulty == difficulty,
            r.enemies@.len() == 0,
    {
        Simulation {
            app_state: AppState::Title,
            difficulty,
            scoreboard: ScoreBoard { score: 0 },
            stats: PlayerStats::default(),
            defense: PlayerDefense { invulnerability: 0 },
            weapon: PlayerWeaponState::default(),
            settings: PlayerSettings::default(),
            gun: PlayerGun { since_fire: 0 },
            player: Vec2 { x: 0, y: PLAYER_SPAWN_Y },
            enemies: Vec::new(),
            bullets: Vec::new(),
            enemy_shots: Vec::new(),
            powerups: Vec::new(),
            director: WaveDirector::default(),
            boss: BossState::default(),
            storyboard,
            next_id: 0,
        }
    }

    /// Removes every transient entity of a run.
    fn tear_down(&mut self)
        requires
            old(self).wf(),
        ensures
            final(self).wf(),
            final(self).enemies@.len() == 0,
            final(self).bullets@.len() == 0,
            final(self).enemy_shots@.len() == 0,
            final(self).powerups@.len() == 0,
            *final(self) == (Simulation {
                enemies: final(self).enemies,
                bullets: final(self).bullets,
                enemy_shots: final(self).enemy_shots,
                powerups: final(self).powerups,
                director: final(self).director,
                ..*old(self)
            }),
    {
        self.enemies = Vec::new();
        self.bullets = Vec::new();
        self.enemy_shots = Vec::new();
        self.powerups = Vec::new();
        clear_waves(&mut self.director);
    }

    /// Starts a run from the title screen: player, weapon, waves and boss are reset and
    /// the playfield is emptied. Elsewhere nothing happens.
    pub fn start_run(&mut self) -> (r: Option<AudioCue>)
        requires
            old(self).wf(),
        ensures
            final(self).wf(),
            old(self).app_state != AppState::Title ==> *final(self) == *old(self) && r is None,
            old(self).app_state == AppState::Title ==> {
                &&& r == Some(AudioCue::UiSelect)
                &&& final(self).app_state == AppState::Playing
                &&& final(self).stats == (PlayerStats { health: 5, max_health: 5, lives: 3, max_lives: 3 })
                &&& final(self).weapon == (PlayerWeaponState { mode: crate::player::WeaponMode::Single, fire_rate_level: 0 })
                &&& final(self).defense.invulnerability == 0
                &&& final(self).player == (Vec2 { x: 0, y: PLAYER_SPAWN_Y })
                &&& final(self).enemies@.len() == 0
                &&& final(self).scoreboard.score == old(self).scoreboard.score
                &&& !final(self).boss.active
                &&& final(self).director.wave_index == 0
                &&& final(self).director.level_index == 0
            },
    {
        if self.app_state != AppState::Title {
            return None;
        }
        self.tear_down();
        self.stats.reset();
        self.weapon.reset();
        self.defense = PlayerDefense { invulnerability: 0 };
        self.gun = PlayerGun { since_fire: 0 };
        self.player = Vec2 { x: 0, y: PLAYER_SPAWN_Y };
        reset_waves(&mut self.director, &self.storyboard, self.difficulty);
        self.boss.reset();
        self.app_state = AppState::Playing;
        Some(AudioCue::UiSelect)
    }

    /// Freezes a run in play.
    pub fn pause(&mut self) -> (r: Option<AudioCue>)
        ensures
            old(self).app_state == AppState::Playing ==> *final(self) == (Simulation { app_state: AppState::Paused, ..*old(self) }) && r == Some(AudioCue::UiSelect),
            old(self).app_state != AppState::Playing ==> *final(self) == *old(self) && r is None,
    {
        if self.app_state == AppState::Playing {
            self.app_state = AppState::Paused;
            Some(AudioCue::UiSelect)
        } else {
            None
        }
    }

    /// Continues a paused run exactly where it stopped.
    pub fn resume(&mut self) -> (r: Option<AudioCue>)
        ensures
            old(self).app_state == AppState::Paused ==> *final(self) == (Simulation { app_state: AppState::Playing, ..*old(self) }) && r == Some(AudioCue::UiSelect),
            old(self).app_state != AppState::Paused ==> *final(self) == *old(self) && r is None,
    {
        if self.app_state == AppState::Paused {
            self.app_state = AppState::Playing;
            Some(AudioCue::UiSelect)
        } else {
            None
        }
    }

    /// Leaves the game-over screen for the title screen, where the score starts again.
    pub fn return_to_title(&mut self) -> (r: Option<AudioCue>)
        ensures
            old(self).app_state == AppState::GameOver ==> *final(self) == (Simulation { app_state: AppState::Title, scoreboard: ScoreBoard { score: 0 }, ..*old(self) }) && r == Some(AudioCue::UiSelect),
            old(self).app_state != AppState::GameOver ==> *final(self) == *old(self) && r is None,
    {
        if self.app_state == AppState::GameOver {
            self.app_state = AppState::Title;
            self.scoreboard = ScoreBoard { score: 0 };
            Some(AudioCue::UiSelect)
        } else {
            None
        }
    }

    /// Runs one fixed step of `dt` milliseconds of a run in play, in this order: the
    /// player moves and fires; the wave director and the boss trigger bring in enemies;
    /// enemies move and fire, the boss acts, and enemies below the playfield leave; shots
    /// are put into flight, advance and expire; shots strike enemies, enemies ram the
    /// player and enemy shots hit the player; power-ups appear, drift and are collected;
    /// the boss tracker closes a won encounter. Outside play nothing changes.
    ///
    /// The output records what happened, and the cues and explosions follow from it in
    /// that order: Shoot for a volley, Explosion for each destroyed enemy, Hit for a ram
    /// and for an enemy shot that hits, Pickup for a collected power-up, UiSelect for a
    /// won boss fight.
    pub fn tick(&mut self, input: TickInput, dt: u64) -> (r: TickOutput)
        requires
            old(self).wf(),
            dt <= STEP_LIMIT,
        ensures
            final(self).wf(),
            old(self).app_state != AppState::Playing ==> *final(self) == *old(self) && r.cues@.len() == 0
                && r.explosions@.len() == 0 && !r.life_lost && r.destroyed@.len() == 0 && r.ram is None
                && r.shot_hit is None && r.collected is None && !r.boss_defeated,
            final(self).scoreboard.score >= old(self).scoreboard.score,
            final(self).app_state == old(self).app_state || (old(self).app_state == AppState::Playing
                && final(self).app_state == AppState::GameOver && final(self).stats.lives == 0),
            final(self).app_state == AppState::GameOver && old(self).app_state == AppState::Playing
                ==> final(self).enemies@.len() == 0 && final(self).enemy_shots@.len() == 0,
            final(self).stats.lives <= old(self).stats.lives,
            r.life_lost ==> final(self).stats.lives < old(self).stats.lives,
            old(self).app_state == AppState::Playing ==> {
                let fired = gun_fires(
                    old(self).gun,
                    input.shooting,
                    old(self).weapon,
                    old(self).settings.fire_cooldown as int,
                    dt as int,
                );
                let moved = player_position_after(
                    old(self).player,
                    input.movement,
                    old(self).settings.speed as int,
                    dt as int,
                );
                &&& final(self).gun == gun_after(
                    old(self).gun,
                    input.shooting,
                    old(self).weapon,
                    old(self).settings.fire_cooldown as int,
                    dt as int,
                )
                &&& r.cues@ == cue_if(AudioCue::Shoot, fired) + Seq::new(
                    r.destroyed@.len(),
                    |i: int| AudioCue::Explosion,
                ) + cue_if(AudioCue::Hit, r.ram is Some) + cue_if(AudioCue::Hit, r.shot_hit is Some)
                    + cue_if(AudioCue::Pickup, r.collected is Some) + cue_if(AudioCue::UiSelect, r.boss_defeated)
                &&& r.explosions@ == r.destroyed@.map_values(|e: Enemy| explosion_of(e)) + ram_explosions(
                    r.ram,
                    moved,
                ) + shot_explosions(r.shot_hit, moved)
                &&& outcome_of(r.ram) != Some(HitOutcome::Ignored)
                &&& outcome_of(r.shot_hit) != Some(HitOutcome::Ignored)
                &&& r.life_lost == (outcome_of(r.ram) == Some(HitOutcome::LifeLost) || outcome_of(r.shot_hit)
                    == Some(HitOutcome::LifeLost))
                &&& (final(self).app_state == AppState::GameOver) == (outcome_of(r.ram) == Some(
                    HitOutcome::GameOver,
                ) || outcome_of(r.shot_hit) == Some(HitOutcome::GameOver))
                &&& final(self).scoreboard.score == (if old(self).scoreboard.score + score_sum(r.destroyed@)
                    > u32::MAX {
                    u32::MAX as int
                } else {
                    old(self).scoreboard.score + score_sum(r.destroyed@)
                })
                &&& final(self).weapon == match r.collected {
                    Some(k) => weapon_after_pickup(old(self).weapon, k),
                    None => old(self).weapon,
                }
                &&& r.boss_defeated ==> !final(self).boss.active && final(self).boss.spawn_score == (if old(
                    self,
                ).boss.spawn_score + BOSS_SCORE_STEP > u32::MAX {
                    u32::MAX as int
                } else {
                    old(self).boss.spawn_score + BOSS_SCORE_STEP
                })
                &&& r.life_lost ==> final(self).player == (Vec2 { x: 0, y: PLAYER_SPAWN_Y })
                &&& !r.life_lost ==> final(self).player == moved
            },
    {
        let mut cues: Vec<AudioCue> = Vec::new();
        let mut explosions: Vec<ExplosionEvent> = Vec::new();
        if self.app_state != AppState::Playing {
            return TickOutput {
                cues,
                explosions,
                life_lost: false,
                destroyed: Vec::new(),
                ram: None,
                shot_hit: None,
                collected: None,
                boss_defeated: false,
            };
        }
        let player_shots = self.player_step(input, dt, &mut cues);
        self.spawn_step(dt);
        let mut enemy_fire = self.enemy_step(dt);
        self.projectile_step(&player_shots, &mut enemy_fire, dt);
        let ghost explosions0 = explosions@;
        let ghost p_mid = self.player;
        let (destroyed, ram, shot_hit, drops) = self.collision_step(&mut cues, &mut explosions);
        assert(explosions0 =~= Seq::<ExplosionEvent>::empty());
        assert(explosions@ =~= destroyed@.map_values(|e: Enemy| explosion_of(e)) + ram_explosions(ram, p_mid)
            + shot_explosions(shot_hit, p_mid));
        let collected = self.powerup_step(&drops, dt, &mut cues);
        let ghost before_tracker = cues@;
        let boss_defeated = match boss_health_tracker(&mut self.boss, &self.enemies, &mut self.director, &self.storyboard, self.difficulty) {
            Some(c) => {
                cues.push(c);
                true
            },
            None => false,
        };
        assert(cues@ =~= before_tracker + cue_if(AudioCue::UiSelect, boss_defeated));
        let life_lost = matches!(ram, Some((_, HitOutcome::LifeLost))) || matches!(shot_hit, Some((_, HitOutcome::LifeLost)));
        let game_over = matches!(ram, Some((_, HitOutcome::GameOver))) || matches!(shot_hit, Some((_, HitOutcome::GameOver)));
        if game_over {
            self.app_state = AppState::GameOver;
            self.tear_down();
        }
        TickOutput { cues, explosions, life_lost, destroyed, ram, shot_hit, collected, boss_defeated }
    }

    fn player_step(&mut self, input: TickInput, dt: u64, cues: &mut Vec<AudioCue>) -> (r: Vec<PlayerFireEvent>)
        requires
            old(self).wf(),
            dt <= STEP_LIMIT,
            old(cues)@.len() == 0,
        ensures
            final(self).wf(),
            final(self).scoreboard.score == old(self).scoreboard.score,
            final(self).app_state == old(self).app_state,
            final(self).stats == old(self).stats,
            final(self).weapon == old(self).weapon,
            final(self).settings == old(self).settings,
            final(self).boss == old(self).boss,
            final(self).player == player_position_after(old(self).player, input.movement, old(self).settings.speed as int, dt as int),
            final(self).gun == gun_after(old(self).gun, input.shooting, old(self).weapon, old(self).settings.fire_cooldown as int, dt as int),
            final(cues)@ == cue_if(
                AudioCue::Shoot,
                gun_fires(old(self).gun, input.shooting, old(self).weapon, old(self).settings.fire_cooldown as int, dt as int),
            ),
    {
        let (position, _velocity) = move_player(self.player, input.movement, &self.settings, dt);
        self.player = position;
        let shots = match self.gun.update(input.shooting, &self.weapon, &self.settings, self.player, dt) {
            Some(v) => {
                cues.push(AudioCue::Shoot);
                v
            },
            None => Vec::new(),
        };
        self.defense.tick(dt);
        assert(cues@ =~= cue_if(
            AudioCue::Shoot,
            gun_fires(old(self).gun, input.shooting, old(self).weapon, old(self).settings.fire_cooldown as int, dt as int),
        ));
        shots
    }

    fn spawn_step(&mut self, dt: u64)
        requires
            old(self).wf(),
            dt <= STEP_LIMIT,
        ensures
            final(self).wf(),
            final(self).scoreboard.score == old(self).scoreboard.score,
            final(self).app_state == old(self).app_state,
            final(self).stats == old(self).stats,
            final(self).player == old(self).player,
            final(self).gun == old(self).gun,
            final(self).weapon == old(self).weapon,
            final(self).boss.spawn_score == old(self).boss.spawn_score,
    {
        let spawns = drive_waves(&mut self.director, &self.storyboard, self.difficulty, dt);
        let boss_id = self.next_id;
        if boss_id < ID_LIMIT {
            match trigger_boss_spawn(self.scoreboard.score, &mut self.boss, &mut self.director, boss_id) {
                Some(b) => {
                    self.enemies.push(b);
                    self.next_id = self.next_id + 1;
                },
                None => {},
            }
        }
        if (spawns.len() as u64) <= ID_LIMIT - self.next_id {
            spawn_enemies_from_events(&mut self.enemies, &spawns, self.difficulty, &mut self.next_id);
        }
    }

    fn enemy_step(&mut self, dt: u64) -> (r: Vec<crate::projectiles::EnemyFireEvent>)
        requires
            old(self).wf(),
            dt <= STEP_LIMIT,
        ensures
            final(self).wf(),
            final(self).scoreboard.score == old(self).scoreboard.score,
            final(self).app_state == old(self).app_state,
            final(self).stats == old(self).stats,
            final(self).player == old(self).player,
            final(self).gun == old(self).gun,
            final(self).weapon == old(self).weapon,
            final(self).boss.spawn_score == old(self).boss.spawn_score,
    {
        move_enemies(&mut self.enemies, self.player.x, dt);
        let mut fire = enemy_fire_system(&mut self.enemies, self.player, self.difficulty, dt);
        let mut boss_fire = boss_movement_and_attacks(&mut self.enemies, &self.boss, self.player.x, self.difficulty, dt);
        cleanup_offscreen_enemies(&mut self.enemies);
        fire.append(&mut boss_fire);
        fire
    }

    fn projectile_step(&mut self, player_shots: &Vec<PlayerFireEvent>, enemy_fire: &mut Vec<crate::projectiles::EnemyFireEvent>, dt: u64)
        requires
            old(self).wf(),
            dt <= STEP_LIMIT,
        ensures
            final(self).wf(),
            final(self).scoreboard.score == old(self).scoreboard.score,
            final(self).app_state == old(self).app_state,
            final(self).stats == old(self).stats,
            final(self).player == old(self).player,
            final(self).gun == old(self).gun,
            final(self).weapon == old(self).weapon,
            final(self).boss.spawn_score == old(self).boss.spawn_score,
    {
        spawn_player_projectiles(&mut self.bullets, player_shots);
        advance_player_projectiles(&mut self.bullets, dt);
        spawn_enemy_projectiles(&mut self.enemy_shots, enemy_fire);
        advance_enemy_projectiles(&mut self.enemy_shots, dt);
    }

    /// Resolves the three collision passes: shots against enemies, rams, and enemy shots
    /// against the player. Returns the destroyed enemies, the ram and the shot hit with
    /// their outcomes, and the power-ups to drop.
    fn collision_step(&mut self, cues: &mut Vec<AudioCue>, explosions: &mut Vec<ExplosionEvent>) -> (r: (
        Vec<Enemy>,
        Option<(Enemy, HitOutcome)>,
        Option<(EnemyProjectile, HitOutcome)>,
        Vec<SpawnPowerUpEvent>,
    ))
        requires
            old(self).wf(),
        ensures
            final(self).wf(),
            final(self).app_state == old(self).app_state,
            forall|i: int| 0 <= i < r.3@.len() ==> (#[trigger] r.3@[i]).position.in_field(),
            final(self).gun == old(self).gun,
            final(self).weapon == old(self).weapon,
            final(self).boss == old(self).boss,
            final(self).stats.lives <= old(self).stats.lives,
            final(self).scoreboard.score >= old(self).scoreboard.score,
            final(self).scoreboard.score == (if old(self).scoreboard.score + score_sum(r.0@) > u32::MAX {
                u32::MAX as int
            } else {
                old(self).scoreboard.score + score_sum(r.0@)
            }),
            final(cues)@ == old(cues)@ + Seq::new(r.0@.len(), |i: int| AudioCue::Explosion) + cue_if(
                AudioCue::Hit,
                r.1 is Some,
            ) + cue_if(AudioCue::Hit, r.2 is Some),
            final(explosions)@ == old(explosions)@ + r.0@.map_values(|e: Enemy| explosion_of(e))
                + ram_explosions(r.1, old(self).player) + shot_explosions(r.2, old(self).player),
            outcome_of(r.1) != Some(HitOutcome::Ignored),
            outcome_of(r.2) != Some(HitOutcome::Ignored),
            ({
                let lost = outcome_of(r.1) == Some(HitOutcome::LifeLost) || outcome_of(r.2) == Some(
                    HitOutcome::LifeLost,
                );
                &&& lost ==> final(self).stats.lives < old(self).stats.lives
                &&& lost ==> final(self).player == (Vec2 { x: 0, y: PLAYER_SPAWN_Y })
                &&& !lost ==> final(self).player == old(self).player
            }),
            outcome_of(r.1) == Some(HitOutcome::GameOver) || outcome_of(r.2) == Some(HitOutcome::GameOver)
                ==> final(self).stats.lives == 0,
    {
        let ghost score0 = self.scoreboard.score;
        let destroyed = projectile_enemy_collisions(&mut self.bullets, &mut self.enemies, &mut self.scoreboard.score);
        let mut drops = destruction_effects(&destroyed, cues, explosions);
        let player_half = Vec2 { x: PLAYER_HALF_X, y: PLAYER_HALF_Y };
        let ghost lives0 = self.stats.lives;
        let ram = player_enemy_collisions(self.player, player_half, &mut self.enemies, &mut self.stats, &mut self.defense);
        match ram {
            Some((e, _)) => {
                assert(e.position.in_field());
                ram_effects(&e, self.player, cues, explosions, &mut drops);
            },
            None => {},
        }
        let ghost lives1 = self.stats.lives;
        let shot_hit = enemy_projectile_player_collisions(self.player, player_half, &mut self.enemy_shots, &mut self.stats, &mut self.defense);
        match shot_hit {
            Some(_) => {
                shot_hit_effects(self.player, cues, explosions);
            },
            None => {},
        }
        let life_lost = matches!(ram, Some((_, HitOutcome::LifeLost))) || matches!(shot_hit, Some((_, HitOutcome::LifeLost)));
        if life_lost {
            self.player = Vec2 { x: 0, y: PLAYER_SPAWN_Y };
        }
        proof {
            assert(final(cues)@ =~= old(cues)@ + Seq::new(destroyed@.len(), |i: int| AudioCue::Explosion) + cue_if(
                AudioCue::Hit,
                ram is Some,
            ) + cue_if(AudioCue::Hit, shot_hit is Some));
            assert(final(explosions)@ =~= old(explosions)@ + destroyed@.map_values(|e: Enemy| explosion_of(e))
                + ram_explosions(ram, old(self).player) + shot_explosions(shot_hit, old(self).player));
        }
        (destroyed, ram, shot_hit, drops)
    }

    fn powerup_step(&mut self, drops: &Vec<SpawnPowerUpEvent>, dt: u64, cues: &mut Vec<AudioCue>) -> (r: Option<PowerUpKind>)
        requires
            old(self).wf(),
            dt <= STEP_LIMIT,
            forall|i: int| 0 <= i < drops@.len() ==> (#[trigger] drops@[i]).position.in_field(),
        ensures
            final(self).wf(),
            final(self).scoreboard.score == old(self).scoreboard.score,
            final(self).app_state == old(self).app_state,
            final(self).stats.lives == old(self).stats.lives,
            final(self).player == old(self).player,
            final(self).gun == old(self).gun,
            final(self).boss == old(self).boss,
            final(self).weapon == match r {
                Some(k) => weapon_after_pickup(old(self).weapon, k),
                None => old(self).weapon,
            },
            final(cues)@ == old(cues)@ + cue_if(AudioCue::Pickup, r is Some),
    {
        spawn_powerups_from_events(&mut self.powerups, drops);
        move_powerups(&mut self.powerups, dt);
        let player_half = Vec2 { x: PLAYER_HALF_X, y: PLAYER_HALF_Y };
        let got = collect_powerups(&mut self.powerups, self.player, player_half, &mut self.weapon, &mut self.defense, &mut self.stats);
        match got {
            Some(_) => {
                cues.push(AudioCue::Pickup);
            },
            None => {},
        }
        assert(final(cues)@ =~= old(cues)@ + cue_if(AudioCue::Pickup, got is Some));
        got
    }

    /// Cycles the difficulty on the title screen.
    pub fn cycle_difficulty(&mut self) -> (r: Option<AudioCue>)
        ensures
            old(self).app_state == AppState::Title ==> *final(self) == (Simulation {
                difficulty: crate::difficulty::next_difficulty(old(self).difficulty),
                ..*old(self)
            }) && r == Some(AudioCue::UiSelect),
            old(self).app_state != AppState::Title ==> *final(self) == *old(self) && r is None,
    {
        if self.app_state == AppState::Title {
            self.difficulty = self.difficulty.next();
            Some(AudioCue::UiSelect)
        } else {
            None
        }
    }
}

} // verus!
