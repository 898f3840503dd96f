use vstd::prelude::*;

verus! {

/// Difficulty setting chosen by the player.
#[derive(Debug, Clone, Copy, PartialEq, Eq, Structural)]
pub enum Difficulty {
    Easy,
    Normal,
    Hard,
}

pub open spec fn spawn_interval_permille(d: Difficulty) -> u64 {
    match d {
        Difficulty::Easy => 1250,
        Difficulty::Normal => 1000,
        Difficulty::Hard => 800,
    }
}

pub open spec fn enemy_health_permille(d: Difficulty) -> u64 {
    match d {
        Difficulty::Easy => 900,
        Difficulty::Normal => 1000,
        Difficulty::Hard => 1150,
    }
}

pub open spec fn enemy_bullet_permille(d: Difficulty) -> u64 {
    match d {
        Difficulty::Easy => 900,
        Difficulty::Normal => 1000,
        Difficulty::Hard => 1200,
    }
}

/// The title-screen cycle: Easy, Normal, Hard, and round again.
pub open spec fn next_difficulty(d: Difficulty) -> Difficulty {
    match d {
        Difficulty::Easy => Difficulty::Normal,
        Difficulty::Normal => Difficulty::Hard,
        Difficulty::Hard => Difficulty::Easy,
    }
}

impl Difficulty {
    /// Multiplier applied to wave delays, in per-mille.
    pub fn spawn_interval_factor(self) -> (r: u64)
        ensures
            r == spawn_interval_permille(self),
    {
        match self {
            Difficulty::Easy => 1250,
            Difficulty::Normal => 1000,
            Difficulty::Hard => 800,
        }
    }

    /// Multiplier applied to enemy health and to the wave difficulty scale, in per-mille.
    pub fn enemy_health_factor(self) -> (r: u64)
        ensures
            r == enemy_health_permille(self),
    {
        match self {
            Difficulty::Easy => 900,
            Difficulty::Normal => 1000,
            Difficulty::Hard => 1150,
        }
    }

    /// Multiplier applied to enemy bullet speed, in per-mille.
    pub fn enemy_bullet_factor(self) -> (r: u64)
        ensures
            r == enemy_bullet_permille(self),
    {
        match self {
            Difficulty::Easy => 900,
            Difficulty::Normal => 1000,
            Difficulty::Hard => 1200,
        }
    }

    /// The name shown for the setting.
    pub fn label(self) -> (r: &'static str)
        ensures
            self == Difficulty::Easy ==> r@ == "Easy"@,
            self == Difficulty::Normal ==> r@ == "Normal"@,
            self == Difficulty::Hard ==> r@ == "Hard"@,
    {
        match self {
            Difficulty::Easy => "Easy",
            Difficulty::Normal => "Normal",
            Difficulty::Hard => "Hard",
        }
    }

    /// The setting that follows this one in the title-screen cycle.
    pub fn next(self) -> (r: Difficulty)
        ensures
            r == next_difficulty(self),
    {
        match self {
            Difficulty::Easy => Difficulty::Normal,
            Difficulty::Normal => Difficulty::Hard,
            Difficulty::Hard => Difficulty::Easy,
        }
    }
}

/// Player-chosen settings: difficulty and the two volumes, in per-mille.
#[derive(Debug, Clone, Copy, PartialEq, Eq, Structural)]
pub struct GameSettings {
    pub difficulty: Difficulty,
    pub music_volume: u32,
    pub sfx_volume: u32,
}

impl Default for GameSettings {
    fn default() -> (r: GameSettings)
        ensures
            r == (GameSettings { difficulty: Difficulty::Normal, music_volume: 600, sfx_volume: 700 }),
    {
        GameSettings { difficulty: Difficulty::Normal, music_volume: 600, sfx_volume: 700 }
    }
}

/// Volume step of one key press, in per-mille.
pub const VOLUME_STEP: u32 = 50;

/// A volume moved one step up or down, kept within `[0, 1000]`.
pub open spec fn stepped_volume(v: int, up: bool) -> int {
    if up {
        if v + 50 > 1000 {
            1000
        } else {
            v + 50
        }
    } else {
        if v - 50 < 0 {
            0
        } else if v - 50 > 1000 {
            1000
        } else {
            v - 50
        }
    }
}

/// Moves a volume one step up or down, kept within `[0, 1000]`.
pub fn step_volume(v: u32, up: bool) -> (r: u32)
    ensures
        r == stepped_volume(v as int, up),
        r <= 1000,
{
    if up {
        if v >= 1000 - VOLUME_STEP {
            1000
        } else {
            v + VOLUME_STEP
        }
    } else if v < VOLUME_STEP {
        0
    } else if v - VOLUME_STEP > 1000 {
        1000
    } else {
        v - VOLUME_STEP
    }
}

/// Harder settings shorten the spawn interval and raise enemy health and bullet speed:
/// Easy's interval factor exceeds Normal's, which exceeds Hard's, and the health and
/// bullet factors are ordered the other way round.
pub proof fn lemma_difficulty_ordering()
    ensures
        spawn_interval_permille(Difficulty::Easy) > spawn_interval_permille(Difficulty::Normal),
        spawn_interval_permille(Difficulty::Normal) > spawn_interval_permille(Difficulty::Hard),
        enemy_health_permille(Difficulty::Hard) > enemy_health_permille(Difficulty::Normal),
        enemy_health_permille(Difficulty::Normal) > enemy_health_permille(Difficulty::Easy),
        enemy_bullet_permille(Difficulty::Hard) > enemy_bullet_permille(Difficulty::Normal),
        enemy_bullet_permille(Difficulty::Normal) > enemy_bullet_permille(Difficulty::Easy),
{
}

/// Scaling a base quantity by the interval factor keeps the order of the settings
/// for every positive base value.
pub proof fn lemma_scaled_interval_ordering(base: int)
    requires
        base > 0,
    ensures
        base * spawn_interval_permille(Difficulty::Easy) > base * spawn_interval_permille(
            Difficulty::Normal,
        ),
        base * spawn_interval_permille(Difficulty::Normal) > base * spawn_interval_permille(
            Difficulty::Hard,
        ),
        base * enemy_health_permille(Difficulty::Hard) > base * enemy_health_permille(
            Difficulty::Normal,
        ),
        base * enemy_health_permille(Difficulty::Normal) > base * enemy_health_permille(
            Difficulty::Easy,
        ),
        base * enemy_bullet_permille(Difficulty::Hard) > base * enemy_bullet_permille(
            Difficulty::Normal,
        ),
        base * enemy_bullet_permille(Difficulty::Normal) > base * enemy_bullet_permille(
            Difficulty::Easy,
        ),
{
    assert(base * 1250 > base * 1000) by (nonlinear_arith)
        requires
            base > 0,
    ;
    assert(base * 1000 > base * 800) by (nonlinear_arith)
        requires
            base > 0,
    ;
    assert(base * 1150 > base * 1000) by (nonlinear_arith)
        requires
            base > 0,
    ;
    assert(base * 1000 > base * 900) by (nonlinear_arith)
        requires
            base > 0,
    ;
    assert(base * 1200 > base * 1000) by (nonlinear_arith)
        requires
            base > 0,
    ;
}

} // verus!
