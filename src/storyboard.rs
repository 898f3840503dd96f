use vstd::prelude::*;
use vstd::string::StringExecFns;
use crate::enemies::{EnemyKind, MovementPattern, SpawnEnemyEvent};
use crate::fixed::{Vec2, div_toward_zero, div_toward_zero_i128, lemma_div_toward_zero_scaled};
use crate::powerups::PowerUpKind;

verus! {

/// Default delay before a wave, in milliseconds.
pub const BASE_INTERVAL: u64 = 3600;

/// Height at which lane waves enter, in milli-pixels.
pub const TOP_Y: i64 = 420_000;

/// Largest difficulty scale a wave is spawned with, in per-mille.
pub const SCALE_LIMIT: u64 = 10_000;

/// Largest magnitude of a configured speed, in milli-pixels per millisecond.
pub const CONFIG_SPEED_LIMIT: i64 = 5000;

/// Largest magnitude of a configured position or offset, in milli-pixels.
pub const CONFIG_COORD_LIMIT: i64 = 100_000_000_000;

/// Longest configured wave delay, in milliseconds.
pub const DELAY_LIMIT: u64 = 1_000_000_000_000;

/// Movement settings of a wave, with the values left out falling back to defaults.
///
/// Speeds are in milli-pixels per millisecond, distances in milli-pixels, frequencies in
/// milli-degrees per second and factors and directions in per-mille. Gains and scales are
/// multiplied by the difficulty scale.
#[derive(Debug, Clone, Copy, PartialEq, Eq, Structural)]
pub enum MovementConfig {
    Straight { speed: Option<i64>, scale_with_difficulty: Option<bool> },
    Sine {
        speed: Option<i64>,
        amplitude: Option<i64>,
        frequency: Option<i64>,
        frequency_gain: Option<i64>,
        base_x_offset: Option<i64>,
    },
    ZigZag { speed: Option<i64>, horizontal_speed: Option<i64>, direction: Option<i64> },
    Tank { speed: Option<i64>, base_factor: Option<i64>, difficulty_factor: Option<i64> },
    Chaser { speed: Option<i64>, turn_rate: Option<i64>, turn_rate_scale: Option<i64> },
}

pub open spec fn or_default(v: Option<i64>, d: i64) -> int {
    match v {
        Some(x) => x as int,
        None => d as int,
    }
}

pub open spec fn opt_within(v: Option<i64>, lo: int, hi: int) -> bool {
    match v {
        Some(x) => lo <= x <= hi,
        None => true,
    }
}

/// Whether `v`, if present, lies in `[lo, hi]`.
pub fn check_within(v: Option<i64>, lo: i64, hi: i64) -> (r: bool)
    ensures
        r == opt_within(v, lo as int, hi as int),
{
    match v {
        Some(x) => lo <= x && x <= hi,
        None => true,
    }
}

impl MovementConfig {
    /// The ranges within which every configured value must lie.
    pub open spec fn wf(self) -> bool {
        let s = CONFIG_SPEED_LIMIT as int;
        match self {
            MovementConfig::Straight { speed, .. } => opt_within(speed, -s, s),
            MovementConfig::Sine { speed, amplitude, frequency, frequency_gain, base_x_offset } => {
                &&& opt_within(speed, -s, s)
                &&& opt_within(amplitude, -1_000_000_000, 1_000_000_000)
                &&& opt_within(frequency, -100_000_000, 100_000_000)
                &&& opt_within(frequency_gain, -1_000_000, 1_000_000)
                &&& opt_within(base_x_offset, -CONFIG_COORD_LIMIT as int, CONFIG_COORD_LIMIT as int)
            },
            MovementConfig::ZigZag { speed, horizontal_speed, direction } => {
                &&& opt_within(speed, -s, s)
                &&& opt_within(horizontal_speed, -s, s)
                &&& opt_within(direction, -1000, 1000)
            },
            MovementConfig::Tank { speed, base_factor, difficulty_factor } => {
                &&& opt_within(speed, -s, s)
                &&& opt_within(base_factor, -1000, 1000)
                &&& opt_within(difficulty_factor, -1000, 1000)
            },
            MovementConfig::Chaser { speed, turn_rate, turn_rate_scale } => {
                &&& opt_within(speed, -s, s)
                &&& opt_within(turn_rate, 0, 500_000)
                &&& opt_within(turn_rate_scale, 0, 50_000)
            },
        }
    }

    /// Whether every configured value lies in its range.
    pub fn is_valid(&self) -> (r: bool)
        ensures
            r == self.wf(),
    {
        let s = CONFIG_SPEED_LIMIT;
        match *self {
            MovementConfig::Straight { speed, .. } => check_within(speed, -s, s),
            MovementConfig::Sine { speed, amplitude, frequency, frequency_gain, base_x_offset } => {
                check_within(speed, -s, s) && check_within(amplitude, -1_000_000_000, 1_000_000_000)
                    && check_within(frequency, -100_000_000, 100_000_000) && check_within(
                    frequency_gain,
                    -1_000_000,
                    1_000_000,
                ) && check_within(base_x_offset, -CONFIG_COORD_LIMIT, CONFIG_COORD_LIMIT)
            },
            MovementConfig::ZigZag { speed, horizontal_speed, direction } => {
                check_within(speed, -s, s) && check_within(horizontal_speed, -s, s)
                    && check_within(direction, -1000, 1000)
            },
            MovementConfig::Tank { speed, base_factor, difficulty_factor } => {
                check_within(speed, -s, s) && check_within(base_factor, -1000, 1000)
                    && check_within(difficulty_factor, -1000, 1000)
            },
            MovementConfig::Chaser { speed, turn_rate, turn_rate_scale } => {
                check_within(speed, -s, s) && check_within(turn_rate, 0, 500_000) && check_within(
                    turn_rate_scale,
                    0,
                    50_000,
                )
            },
        }
    }

    /// The movement pattern a configuration resolves to at a difficulty scale (per-mille),
    /// for an enemy entering at horizontal position `lane_x`.
    pub open spec fn pattern_spec(self, scale: int, lane_x: Option<i64>) -> MovementPattern {
        let lane = or_default(lane_x, 0);
        match self {
            MovementConfig::Straight { speed, scale_with_difficulty } => {
                let base = or_default(speed, 160);
                let scaled = match scale_with_difficulty {
                    Some(false) => base,
                    _ => div_toward_zero(base * scale, 1000),
                };
                MovementPattern::Straight { speed: scaled as i64 }
            },
            MovementConfig::Sine { speed, amplitude, frequency, frequency_gain, base_x_offset } => {
                MovementPattern::Sine {
                    speed: or_default(speed, 130) as i64,
                    amplitude: or_default(amplitude, 140_000) as i64,
                    frequency: (or_default(frequency, 80_214) + div_toward_zero(
                        scale * or_default(frequency_gain, 8_594),
                        1000,
                    )) as i64,
                    base_x: (lane + or_default(base_x_offset, 0)) as i64,
                }
            },
            MovementConfig::ZigZag { speed, horizontal_speed, direction } => {
                MovementPattern::ZigZag {
                    speed: or_default(speed, 150) as i64,
                    horizontal_speed: or_default(horizontal_speed, 180) as i64,
                    direction: match direction {
                        Some(d) => d,
                        None => if lane >= 0 {
                            -1000i64
                        } else {
                            1000i64
                        },
                    },
                }
            },
            MovementConfig::Tank { speed, base_factor, difficulty_factor } => {
                let factor = or_default(base_factor, 800) + div_toward_zero(
                    scale * or_default(difficulty_factor, 100),
                    1000,
                );
                MovementPattern::Tank {
                    speed: div_toward_zero(or_default(speed, 90) * factor, 1000) as i64,
                }
            },
            MovementConfig::Chaser { speed, turn_rate, turn_rate_scale } => {
                MovementPattern::Chaser {
                    speed: or_default(speed, 180) as i64,
                    turn_rate: (or_default(turn_rate, 120_000) + div_toward_zero(
                        scale * or_default(turn_rate_scale, 20_000),
                        1000,
                    )) as i64,
                }
            },
        }
    }

    /// Resolves the configuration into a movement pattern at a difficulty scale
    /// (per-mille), for an enemy entering at horizontal position `lane_x`.
    pub fn to_pattern(self, scale: u64, lane_x: Option<i64>) -> (r: MovementPattern)
        requires
            self.wf(),
            scale <= SCALE_LIMIT,
            opt_within(lane_x, -CONFIG_COORD_LIMIT as int, CONFIG_COORD_LIMIT as int),
        ensures
            r == self.pattern_spec(scale as int, lane_x),
            r.wf(),
    {
        let lane: i64 = match lane_x {
            Some(x) => x,
            None => 0,
        };
        let sc = scale as i128;
        match self {
            MovementConfig::Straight { speed, scale_with_difficulty } => {
                let base: i64 = match speed {
                    Some(v) => v,
                    None => 160,
                };
                let scaled: i64 = match scale_with_difficulty {
                    Some(false) => base,
                    _ => {
                        assert(-50_000_000 <= base * scale <= 50_000_000) by (nonlinear_arith)
                            requires
                                -5000 <= base <= 5000,
                                0 <= scale <= 10_000,
                        ;
                        proof {
                            lemma_div_toward_zero_scaled(base * scale, 1000, 50_000);
                        }
                        div_toward_zero_i128((base as i128) * sc, 1000) as i64
                    },
                };
                MovementPattern::Straight { speed: scaled }
            },
            MovementConfig::Sine { speed, amplitude, frequency, frequency_gain, base_x_offset } => {
                let gain: i64 = match frequency_gain {
                    Some(v) => v,
                    None => 8_594,
                };
                let f: i64 = match frequency {
                    Some(v) => v,
                    None => 80_214,
                };
                assert(-10_000_000_000 <= scale * gain <= 10_000_000_000) by (nonlinear_arith)
                    requires
                        -1_000_000 <= gain <= 1_000_000,
                        0 <= scale <= 10_000,
                ;
                proof {
                    lemma_div_toward_zero_scaled(scale * gain, 1000, 10_000_000);
                }
                let boost = div_toward_zero_i128(sc * (gain as i128), 1000) as i64;
                MovementPattern::Sine {
                    speed: match speed {
                        Some(v) => v,
                        None => 130,
                    },
                    amplitude: match amplitude {
                        Some(v) => v,
                        None => 140_000,
                    },
                    frequency: f + boost,
                    base_x: lane + match base_x_offset {
                        Some(v) => v,
                        None => 0,
                    },
                }
            },
            MovementConfig::ZigZag { speed, horizontal_speed, direction } => {
                MovementPattern::ZigZag {
                    speed: match speed {
                        Some(v) => v,
                        None => 150,
                    },
                    horizontal_speed: match horizontal_speed {
                        Some(v) => v,
                        None => 180,
                    },
                    direction: match direction {
                        Some(d) => d,
                        None => if lane >= 0 {
                            -1000i64
                        } else {
                            1000i64
                        },
                    },
                }
            },
            MovementConfig::Tank { speed, base_factor, difficulty_factor } => {
                let df: i64 = match difficulty_factor {
                    Some(v) => v,
                    None => 100,
                };
                let bf: i64 = match base_factor {
                    Some(v) => v,
                    None => 800,
                };
                let sp: i64 = match speed {
                    Some(v) => v,
                    None => 90,
                };
                assert(-10_000_000 <= scale * df <= 10_000_000) by (nonlinear_arith)
                    requires
                        -1000 <= df <= 1000,
                        0 <= scale <= 10_000,
                ;
                proof {
                    lemma_div_toward_zero_scaled(scale * df, 1000, 10_000);
                }
                let factor: i64 = bf + div_toward_zero_i128(sc * (df as i128), 1000) as i64;
                assert(-55_000_000 <= sp * factor <= 55_000_000) by (nonlinear_arith)
                    requires
                        -5000 <= sp <= 5000,
                        -11_000 <= factor <= 11_000,
                ;
                proof {
                    lemma_div_toward_zero_scaled(sp * factor, 1000, 55_000);
                }
                MovementPattern::Tank {
                    speed: div_toward_zero_i128((sp as i128) * (factor as i128), 1000) as i64,
                }
            },
            MovementConfig::Chaser { speed, turn_rate, turn_rate_scale } => {
                let trs: i64 = match turn_rate_scale {
                    Some(v) => v,
                    None => 20_000,
                };
                let tr: i64 = match turn_rate {
                    Some(v) => v,
                    None => 120_000,
                };
                assert(0 <= scale * trs <= 10_000 * 50_000) by (nonlinear_arith)
                    requires
                        0 <= scale <= 10_000,
                        0 <= trs <= 50_000,
                ;
                proof {
                    lemma_div_toward_zero_scaled(scale * trs, 1000, 500_000);
                }
                let boost = div_toward_zero_i128(sc * (trs as i128), 1000) as i64;
                MovementPattern::Chaser {
                    speed: match speed {
                        Some(v) => v,
                        None => 180,
                    },
                    turn_rate: tr + boost,
                }
            },
        }
    }
}

/// A group of enemies entering side by side, one per lane.
#[derive(Debug, Clone, PartialEq, Eq)]
pub struct LaneWaveConfig {
    pub enemy: EnemyKind,
    /// Horizontal positions of the lanes, in milli-pixels.
    pub lanes: Vec<i64>,
    /// Height above the top entry line, in milli-pixels.
    pub y_offset: i64,
    pub movement: MovementConfig,
    pub powerup: Option<PowerUpKind>,
    /// The one lane whose enemy carries the power-up.
    pub powerup_lane_index: Option<usize>,
}

/// One enemy placed at an exact position.
#[derive(Debug, Clone, Copy, PartialEq, Eq, Structural)]
pub struct FixedEnemyConfig {
    pub enemy: EnemyKind,
    pub position: Vec2,
    pub movement: MovementConfig,
    pub powerup: Option<PowerUpKind>,
}

/// The enemies of one wave.
#[derive(Debug, Clone, PartialEq, Eq)]
pub enum WavePattern {
    Lane(LaneWaveConfig),
    Fixed { enemies: Vec<FixedEnemyConfig> },
}

/// One timed wave of a level.
#[derive(Debug, Clone, PartialEq, Eq)]
pub struct WaveDefinition {
    /// Delay before the wave, in milliseconds.
    pub delay: u64,
    pub pattern: WavePattern,
}

/// An ordered list of waves.
#[derive(Debug, Clone, PartialEq, Eq)]
pub struct Level {
    pub name: String,
    pub waves: Vec<WaveDefinition>,
}

/// The ordered levels that drive the waves.
#[derive(Debug, Clone, PartialEq, Eq)]
pub struct Storyboard {
    pub levels: Vec<Level>,
}

pub open spec fn coord_ok(v: int) -> bool {
    -CONFIG_COORD_LIMIT <= v <= CONFIG_COORD_LIMIT
}

impl LaneWaveConfig {
    pub open spec fn wf(&self) -> bool {
        &&& self.movement.wf()
        &&& coord_ok(self.y_offset as int)
        &&& forall|i: int| 0 <= i < self.lanes@.len() ==> coord_ok(#[trigger] self.lanes@[i] as int)
    }
}

impl FixedEnemyConfig {
    pub open spec fn wf(self) -> bool {
        self.movement.wf() && coord_ok(self.position.x as int) && coord_ok(self.position.y as int)
    }
}

impl WaveDefinition {
    pub open spec fn wf(&self) -> bool {
        &&& self.delay <= DELAY_LIMIT
        &&& match self.pattern {
            WavePattern::Lane(c) => c.wf(),
            WavePattern::Fixed { enemies } => fixed_entries_wf(enemies@),
        }
    }
}

pub open spec fn fixed_entries_wf(enemies: Seq<FixedEnemyConfig>) -> bool {
    forall|i: int| 0 <= i < enemies.len() ==> (#[trigger] enemies[i]).wf()
}

impl Level {
    pub open spec fn wf(&self) -> bool {
        &&& self.waves@.len() < u32::MAX
        &&& forall|i: int| 0 <= i < self.waves@.len() ==> (#[trigger] self.waves@[i]).wf()
    }
}

impl Storyboard {
    /// Every wave delay, position and movement setting lies in its range, and no level has
    /// more waves than a wave counter can number.
    pub open spec fn wf(&self) -> bool {
        forall|i: int| 0 <= i < self.levels@.len() ==> (#[trigger] self.levels@[i]).wf()
    }
}

fn lanes_valid(lanes: &Vec<i64>) -> (r: bool)
    ensures
        r == forall|i: int| 0 <= i < lanes@.len() ==> coord_ok(#[trigger] lanes@[i] as int),
{
    let mut i: usize = 0;
    while i < lanes.len()
        invariant
            i <= lanes@.len(),
            forall|j: int| 0 <= j < i ==> coord_ok(#[trigger] lanes@[j] as int),
        decreases lanes@.len() - i,
    {
        if lanes[i] < -CONFIG_COORD_LIMIT || lanes[i] > CONFIG_COORD_LIMIT {
            return false;
        }
        i = i + 1;
    }
    true
}

impl FixedEnemyConfig {
    pub fn is_valid(&self) -> (r: bool)
        ensures
            r == self.wf(),
    {
        self.movement.is_valid() && -CONFIG_COORD_LIMIT <= self.position.x && self.position.x
            <= CONFIG_COORD_LIMIT && -CONFIG_COORD_LIMIT <= self.position.y && self.position.y
            <= CONFIG_COORD_LIMIT
    }
}

impl WaveDefinition {
    pub fn is_valid(&self) -> (r: bool)
        ensures
            r == self.wf(),
    {
        if self.delay > DELAY_LIMIT {
            return false;
        }
        match &self.pattern {
            WavePattern::Lane(c) => c.movement.is_valid() && -CONFIG_COORD_LIMIT <= c.y_offset
                && c.y_offset <= CONFIG_COORD_LIMIT && lanes_valid(&c.lanes),
            WavePattern::Fixed { enemies } => {
                let mut i: usize = 0;
                while i < enemies.len()
                    invariant
                        i <= enemies@.len(),
                        forall|j: int| 0 <= j < i ==> (#[trigger] enemies@[j]).wf(),
                        self.pattern == (WavePattern::Fixed { enemies: *enemies }),
                        self.delay <= DELAY_LIMIT,
                    decreases enemies@.len() - i,
                {
                    if !enemies[i].is_valid() {
                        assert(!enemies@[i as int].wf());
                        assert(!fixed_entries_wf(enemies@));
                        return false;
                    }
                    i = i + 1;
                }
                true
            },
        }
    }
}

impl Level {
    pub fn is_valid(&self) -> (r: bool)
        ensures
            r == self.wf(),
    {
        if self.waves.len() >= 0xffff_ffff {
            return false;
        }
        let mut i: usize = 0;
        while i < self.waves.len()
            invariant
                i <= self.waves@.len(),
                forall|j: int| 0 <= j < i ==> (#[trigger] self.waves@[j]).wf(),
            decreases self.waves@.len() - i,
        {
            if !self.waves[i].is_valid() {
                return false;
            }
            i = i + 1;
        }
        true
    }
}

/// The enemy a lane wave sends down lane `i`.
pub open spec fn lane_event(c: LaneWaveConfig, scale: int, i: int) -> SpawnEnemyEvent {
    let x = c.lanes@[i];
    SpawnEnemyEvent {
        kind: c.enemy,
        position: Vec2 { x, y: (TOP_Y + c.y_offset) as i64 },
        movement: c.movement.pattern_spec(scale, Some(x)),
        powerup: if c.powerup_lane_index == Some(i as usize) {
            c.powerup
        } else {
            None
        },
    }
}

/// The enemy a fixed wave entry places.
pub open spec fn fixed_event(e: FixedEnemyConfig, scale: int) -> SpawnEnemyEvent {
    SpawnEnemyEvent {
        kind: e.enemy,
        position: e.position,
        movement: e.movement.pattern_spec(scale, Some(e.position.x)),
        powerup: e.powerup,
    }
}

/// The spawn requests a wave makes at a difficulty scale, in order.
pub open spec fn wave_events(w: WaveDefinition, scale: int) -> Seq<SpawnEnemyEvent> {
    match w.pattern {
        WavePattern::Lane(c) => Seq::new(c.lanes@.len(), |i: int| lane_event(c, scale, i)),
        WavePattern::Fixed { enemies } => Seq::new(
            enemies@.len(),
            |i: int| fixed_event(enemies@[i], scale),
        ),
    }
}

/// One enemy per lane, entering at the top; only the configured lane carries the power-up.
pub fn spawn_lane_wave(config: &LaneWaveConfig, scale: u64) -> (r: Vec<SpawnEnemyEvent>)
    requires
        config.wf(),
        scale <= SCALE_LIMIT,
    ensures
        r@ == Seq::new(config.lanes@.len(), |i: int| lane_event(*config, scale as int, i)),
        forall|i: int| 0 <= i < r@.len() ==> (#[trigger] r@[i]).position.in_field() && r@[i].movement.wf(),
{
    let mut out: Vec<SpawnEnemyEvent> = Vec::new();
    let mut i: usize = 0;
    while i < config.lanes.len()
        invariant
            config.wf(),
            scale <= SCALE_LIMIT,
            i <= config.lanes@.len(),
            out@ == Seq::new(i as nat, |j: int| lane_event(*config, scale as int, j)),
            forall|j: int| 0 <= j < out@.len() ==> (#[trigger] out@[j]).position.in_field() && out@[j].movement.wf(),
        decreases config.lanes@.len() - i,
    {
        let x = config.lanes[i];
        assert(coord_ok(config.lanes@[i as int] as int));
        let movement = config.movement.to_pattern(scale, Some(x));
        let drop = if config.powerup_lane_index == Some(i) {
            config.powerup
        } else {
            None
        };
        out.push(
            SpawnEnemyEvent {
                kind: config.enemy,
                position: Vec2 { x, y: TOP_Y + config.y_offset },
                movement,
                powerup: drop,
            },
        );
        i = i + 1;
        assert(out@ =~= Seq::new(i as nat, |j: int| lane_event(*config, scale as int, j)));
    }
    out
}

/// Each configured enemy at its exact position.
pub fn spawn_fixed_wave(enemies: &Vec<FixedEnemyConfig>, scale: u64) -> (r: Vec<SpawnEnemyEvent>)
    requires
        forall|i: int| 0 <= i < enemies@.len() ==> (#[trigger] enemies@[i]).wf(),
        scale <= SCALE_LIMIT,
    ensures
        r@ == Seq::new(enemies@.len(), |i: int| fixed_event(enemies@[i], scale as int)),
        forall|i: int| 0 <= i < r@.len() ==> (#[trigger] r@[i]).position.in_field() && r@[i].movement.wf(),
{
    let mut out: Vec<SpawnEnemyEvent> = Vec::new();
    let mut i: usize = 0;
    while i < enemies.len()
        invariant
            forall|j: int| 0 <= j < enemies@.len() ==> (#[trigger] enemies@[j]).wf(),
            scale <= SCALE_LIMIT,
            i <= enemies@.len(),
            out@ == Seq::new(i as nat, |j: int| fixed_event(enemies@[j], scale as int)),
            forall|j: int| 0 <= j < out@.len() ==> (#[trigger] out@[j]).position.in_field() && out@[j].movement.wf(),
        decreases enemies@.len() - i,
    {
        let e = enemies[i];
        assert(e.wf());
        let movement = e.movement.to_pattern(scale, Some(e.position.x));
        out.push(
            SpawnEnemyEvent { kind: e.enemy, position: e.position, movement, powerup: e.powerup },
        );
        i = i + 1;
        assert(out@ =~= Seq::new(i as nat, |j: int| fixed_event(enemies@[j], scale as int)));
    }
    out
}

/// The spawn requests of a wave at a difficulty scale (per-mille), in order.
pub fn spawn_wave_from_definition(wave: &WaveDefinition, scale: u64) -> (r: Vec<SpawnEnemyEvent>)
    requires
        wave.wf(),
        scale <= SCALE_LIMIT,
    ensures
        r@ == wave_events(*wave, scale as int),
        forall|i: int| 0 <= i < r@.len() ==> (#[trigger] r@[i]).position.in_field() && r@[i].movement.wf(),
{
    match &wave.pattern {
        WavePattern::Lane(config) => spawn_lane_wave(config, scale),
        WavePattern::Fixed { enemies } => spawn_fixed_wave(enemies, scale),
    }
}

impl Storyboard {
    /// Accepts the levels only when every value in them lies in its range.
    pub fn from_levels(levels: Vec<Level>) -> (r: Option<Storyboard>)
        ensures
            r is Some <==> (Storyboard { levels }).wf(),
            r is Some ==> r->0.levels == levels,
    {
        let mut i: usize = 0;
        while i < levels.len()
            invariant
                i <= levels@.len(),
                forall|j: int| 0 <= j < i ==> (#[trigger] levels@[j]).wf(),
            decreases levels@.len() - i,
        {
            if !levels[i].is_valid() {
                assert(!levels@[i as int].wf());
                let ghost sb = Storyboard { levels };
                assert(sb.levels@[i as int] == levels@[i as int]);
                assert(!sb.wf());
                return None;
            }
            i = i + 1;
        }
        Some(Storyboard { levels })
    }

    /// The level at `index`, if there is one.
    pub fn level(&self, index: usize) -> (r: Option<&Level>)
        ensures
            index < self.levels@.len() ==> r == Some(&self.levels@[index as int]),
            index >= self.levels@.len() ==> r is None,
    {
        if index < self.levels.len() {
            Some(&self.levels[index])
        } else {
            None
        }
    }

    /// Delay of the first wave of the level at `index`, if the level exists and has waves.
    pub fn first_delay(&self, index: usize) -> (r: Option<u64>)
        ensures
            r == (if index < self.levels@.len() && self.levels@[index as int].waves@.len() > 0 {
                Some(self.levels@[index as int].waves@[0].delay)
            } else {
                None::<u64>
            }),
    {
        match self.level(index) {
            Some(level) => {
                if level.waves.len() > 0 {
                    Some(level.waves[0].delay)
                } else {
                    None
                }
            },
            None => None,
        }
    }

    /// Number of levels.
    pub fn level_count(&self) -> (r: usize)
        ensures
            r == self.levels@.len(),
    {
        self.levels.len()
    }
}

/// A lane wave definition.
pub fn lane_wave(
    delay: u64,
    enemy: EnemyKind,
    lanes: Vec<i64>,
    y_offset: i64,
    movement: MovementConfig,
    powerup: Option<PowerUpKind>,
    powerup_lane_index: Option<usize>,
) -> (r: WaveDefinition)
    ensures
        r.delay == delay,
        r.pattern == WavePattern::Lane(
            LaneWaveConfig { enemy, lanes, y_offset, movement, powerup, powerup_lane_index },
        ),
{
    WaveDefinition {
        delay,
        pattern: WavePattern::Lane(
            LaneWaveConfig { enemy, lanes, y_offset, movement, powerup, powerup_lane_index },
        ),
    }
}

/// A fixed wave definition.
pub fn fixed_wave(delay: u64, enemies: Vec<FixedEnemyConfig>) -> (r: WaveDefinition)
    ensures
        r.delay == delay,
        r.pattern == (WavePattern::Fixed { enemies }),
{
    WaveDefinition { delay, pattern: WavePattern::Fixed { enemies } }
}

/// The lanes most waves use.
pub open spec fn core_lanes() -> Seq<i64> {
    seq![-360_000i64, 0, 360_000]
}

/// The closer lanes of chaser waves.
pub open spec fn chaser_lanes() -> Seq<i64> {
    seq![-180_000i64, 0, 180_000]
}

/// Whether `w` is a lane wave of `kind` over `lanes`, entering `y_offset` above the top.
pub open spec fn is_lane_wave(w: WaveDefinition, kind: EnemyKind, lanes: Seq<i64>, y_offset: int, movement: MovementConfig, powerup: Option<PowerUpKind>) -> bool {
    match w.pattern {
        WavePattern::Lane(c) => {
            &&& c.enemy == kind
            &&& c.lanes@ == lanes
            &&& c.y_offset == y_offset
            &&& c.movement == movement
            &&& c.powerup == powerup
            &&& c.powerup_lane_index == Some(1usize)
        },
        _ => false,
    }
}

/// Whether `w` is the wave of two tanks at fixed positions, the left one carrying a
/// health pickup.
pub open spec fn is_tank_pair(w: WaveDefinition) -> bool {
    let tank = MovementConfig::Tank {
        speed: Some(90),
        base_factor: Some(800),
        difficulty_factor: Some(100),
    };
    match w.pattern {
        WavePattern::Fixed { enemies } => enemies@ == seq![
            FixedEnemyConfig {
                enemy: EnemyKind::Tank,
                position: Vec2 { x: -200_000i64, y: 520_000i64 },
                movement: tank,
                powerup: Some(PowerUpKind::Health),
            },
            FixedEnemyConfig {
                enemy: EnemyKind::Tank,
                position: Vec2 { x: 200_000i64, y: 520_000i64 },
                movement: tank,
                powerup: None,
            },
        ],
        _ => false,
    }
}

impl Default for Storyboard {
    /// The built-in single level: grunts, sine ships, zig-zags, a pair of tanks, chasers,
    /// and grunts again, each wave after the base interval.
    fn default() -> (r: Storyboard)
        ensures
            r.wf(),
            r.levels@.len() == 1,
            r.levels@[0].waves@.len() == 6,
            forall|i: int| 0 <= i < 6 ==> (#[trigger] r.levels@[0].waves@[i]).delay == BASE_INTERVAL,
            is_lane_wave(r.levels@[0].waves@[0], EnemyKind::Grunt, core_lanes(), 0,
                MovementConfig::Straight { speed: Some(160), scale_with_difficulty: Some(true) },
                Some(PowerUpKind::Rapid)),
            is_lane_wave(r.levels@[0].waves@[1], EnemyKind::Sine, core_lanes(), 40_000,
                MovementConfig::Sine {
                    speed: Some(130),
                    amplitude: Some(140_000),
                    frequency: Some(80_214),
                    frequency_gain: Some(8_594),
                    base_x_offset: None,
                },
                Some(PowerUpKind::Shield)),
            is_lane_wave(r.levels@[0].waves@[2], EnemyKind::ZigZag, core_lanes(), 60_000,
                MovementConfig::ZigZag { speed: Some(150), horizontal_speed: Some(180), direction: None },
                Some(PowerUpKind::Spread)),
            is_tank_pair(r.levels@[0].waves@[3]),
            is_lane_wave(r.levels@[0].waves@[4], EnemyKind::Chaser, chaser_lanes(), 20_000,
                MovementConfig::Chaser {
                    speed: Some(180),
                    turn_rate: Some(120_000),
                    turn_rate_scale: Some(20_000),
                },
                None),
            is_lane_wave(r.levels@[0].waves@[5], EnemyKind::Grunt, core_lanes(), 0,
                MovementConfig::Straight { speed: Some(165), scale_with_difficulty: Some(true) },
                Some(PowerUpKind::Invincibility)),
    {
        let tank = MovementConfig::Tank {
            speed: Some(90),
            base_factor: Some(800),
            difficulty_factor: Some(100),
        };
        let mut waves: Vec<WaveDefinition> = Vec::new();
        waves.push(
            lane_wave(
                BASE_INTERVAL,
                EnemyKind::Grunt,
                vec![-360_000, 0, 360_000],
                0,
                MovementConfig::Straight { speed: Some(160), scale_with_difficulty: Some(true) },
                Some(PowerUpKind::Rapid),
                Some(1),
            ),
        );
        waves.push(
            lane_wave(
                BASE_INTERVAL,
                EnemyKind::Sine,
                vec![-360_000, 0, 360_000],
                40_000,
                MovementConfig::Sine {
                    speed: Some(130),
                    amplitude: Some(140_000),
                    frequency: Some(80_214),
                    frequency_gain: Some(8_594),
                    base_x_offset: None,
                },
                Some(PowerUpKind::Shield),
                Some(1),
            ),
        );
        waves.push(
            lane_wave(
                BASE_INTERVAL,
                EnemyKind::ZigZag,
                vec![-360_000, 0, 360_000],
                60_000,
                MovementConfig::ZigZag { speed: Some(150), horizontal_speed: Some(180), direction: None },
                Some(PowerUpKind::Spread),
                Some(1),
            ),
        );
        let mut tanks: Vec<FixedEnemyConfig> = Vec::new();
        tanks.push(
            FixedEnemyConfig {
                enemy: EnemyKind::Tank,
                position: Vec2 { x: -200_000i64, y: 520_000i64 },
                movement: tank,
                powerup: Some(PowerUpKind::Health),
            },
        );
        tanks.push(
            FixedEnemyConfig {
                enemy: EnemyKind::Tank,
                position: Vec2 { x: 200_000i64, y: 520_000i64 },
                movement: tank,
                powerup: None,
            },
        );
        assert(tanks@ =~= seq![
            FixedEnemyConfig {
                enemy: EnemyKind::Tank,
                position: Vec2 { x: -200_000i64, y: 520_000i64 },
                movement: tank,
                powerup: Some(PowerUpKind::Health),
            },
            FixedEnemyConfig {
                enemy: EnemyKind::Tank,
                position: Vec2 { x: 200_000i64, y: 520_000i64 },
                movement: tank,
                powerup: None,
            },
        ]);
        waves.push(fixed_wave(BASE_INTERVAL, tanks));
        waves.push(
            lane_wave(
                BASE_INTERVAL,
                EnemyKind::Chaser,
                vec![-180_000, 0, 180_000],
                20_000,
                MovementConfig::Chaser {
                    speed: Some(180),
                    turn_rate: Some(120_000),
                    turn_rate_scale: Some(20_000),
                },
                None,
                Some(1),
            ),
        );
        waves.push(
            lane_wave(
                BASE_INTERVAL,
                EnemyKind::Grunt,
                vec![-360_000, 0, 360_000],
                0,
                MovementConfig::Straight { speed: Some(165), scale_with_difficulty: Some(true) },
                Some(PowerUpKind::Invincibility),
                Some(1),
            ),
        );
        let mut levels: Vec<Level> = Vec::new();
        levels.push(Level { name: String::from_str("Default"), waves });
        let r = Storyboard { levels };
        assert(r.levels@[0].waves@[0].wf());
        assert(r.levels@[0].waves@[1].wf());
        assert(r.levels@[0].waves@[2].wf());
        assert(r.levels@[0].waves@[3].wf());
        assert(r.levels@[0].waves@[4].wf());
        assert(r.levels@[0].waves@[5].wf());
        assert(r.levels@[0].wf());
        r
    }
}

} // verus!
