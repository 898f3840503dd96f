use vstd::prelude::*;
use crate::difficulty::{Difficulty, enemy_health_permille, spawn_interval_permille};
use crate::enemies::SpawnEnemyEvent;
use crate::storyboard::{Storyboard, BASE_INTERVAL, SCALE_LIMIT, wave_events, spawn_wave_from_definition};

verus! {

/// Growth of the difficulty accumulator per wave, in per-mille.
pub const DIFFICULTY_STEP: u64 = 50;

/// Scheduler that sends the storyboard's waves one after another.
#[derive(Debug, Clone, Copy, PartialEq, Eq, Structural)]
pub struct WaveDirector {
    /// Length of the current wait, in milliseconds.
    pub timer_duration: u64,
    /// Time left before the next wave, in milliseconds; zero once the wait is over.
    pub timer_remaining: u64,
    pub wave_index: u32,
    /// Running difficulty accumulator, in per-mille.
    pub difficulty: u64,
    /// Set while a boss fight suspends the waves.
    pub boss_active: bool,
    pub level_index: usize,
    /// The level to move to when the boss is beaten.
    pub pending_level: Option<usize>,
}

impl Default for WaveDirector {
    fn default() -> (r: WaveDirector)
        ensures
            r == (WaveDirector {
                timer_duration: BASE_INTERVAL,
                timer_remaining: BASE_INTERVAL,
                wave_index: 0,
                difficulty: 1000,
                boss_active: false,
                level_index: 0,
                pending_level: None,
            }),
    {
        WaveDirector {
            timer_duration: BASE_INTERVAL,
            timer_remaining: BASE_INTERVAL,
            wave_index: 0,
            difficulty: 1000,
            boss_active: false,
            level_index: 0,
            pending_level: None,
        }
    }
}

impl WaveDirector {
    pub open spec fn wf(self) -> bool {
        &&& self.timer_remaining <= self.timer_duration
        &&& self.wave_index < u32::MAX
    }
}

proof fn lemma_next_index(l: int, n: int)
    requires
        n > 0,
        l >= 0,
    ensures
        (l % n + 1) % n == (l + 1) % n,
{
    vstd::arithmetic::div_mod::lemma_add_mod_noop(l, 1, n);
    vstd::arithmetic::div_mod::lemma_mod_twice(l, n);
    if n > 1 {
        vstd::arithmetic::div_mod::lemma_small_mod(1, n as nat);
    } else {
        vstd::arithmetic::div_mod::lemma_mod_bound(l + 1, n);
        vstd::arithmetic::div_mod::lemma_mod_bound(l % n + 1, n);
    }
}

/// The configured delay before the wave at `wave_index` of the current level, falling back
/// to the level's first wave and then to the base interval.
pub open spec fn configured_delay(sb: Storyboard, level_index: int, wave_index: int) -> u64 {
    if 0 <= level_index < sb.levels@.len() && 0 <= wave_index < sb.levels@[level_index].waves@.len() {
        sb.levels@[level_index].waves@[wave_index].delay
    } else if 0 <= level_index < sb.levels@.len() && sb.levels@[level_index].waves@.len() > 0 {
        sb.levels@[level_index].waves@[0].delay
    } else {
        BASE_INTERVAL
    }
}

/// The wait before the next wave: its configured delay scaled by the interval factor.
pub open spec fn next_wait(sb: Storyboard, d: WaveDirector, difficulty: Difficulty) -> int {
    configured_delay(sb, d.level_index as int, d.wave_index as int) * spawn_interval_permille(difficulty) / 1000
}

/// Primes the timer with the delay of the upcoming wave, scaled by the difficulty's
/// interval factor.
pub fn set_timer_for_next_wave(director: &mut WaveDirector, storyboard: &Storyboard, difficulty: Difficulty)
    requires
        storyboard.wf(),
    ensures
        final(director).timer_duration == next_wait(*storyboard, *old(director), difficulty),
        final(director).timer_remaining == final(director).timer_duration,
        *final(director) == (WaveDirector {
            timer_duration: final(director).timer_duration,
            timer_remaining: final(director).timer_remaining,
            ..*old(director)
        }),
{
    let delay: u64 = match storyboard.level(director.level_index) {
        Some(level) => {
            if (director.wave_index as usize) < level.waves.len() {
                level.waves[director.wave_index as usize].delay
            } else if level.waves.len() > 0 {
                level.waves[0].delay
            } else {
                BASE_INTERVAL
            }
        },
        None => BASE_INTERVAL,
    };
    proof {
        let l = director.level_index as int;
        if 0 <= l < storyboard.levels@.len() {
            assert(storyboard.levels@[l].wf());
            if (director.wave_index as int) < storyboard.levels@[l].waves@.len() {
                assert(storyboard.levels@[l].waves@[director.wave_index as int].wf());
            } else if storyboard.levels@[l].waves@.len() > 0 {
                assert(storyboard.levels@[l].waves@[0].wf());
            }
        }
    }
    let scaled = delay * difficulty.spawn_interval_factor() / 1000;
    director.timer_duration = scaled;
    director.timer_remaining = scaled;
}

/// The director after moving on a level: to the pending level, or to the next one
/// (wrapping), with the wave index at 0, no pending level, the accumulator back at the
/// health factor and the timer primed for the first wave. Without levels it stays as it is.
pub open spec fn level_advanced(sb: Storyboard, d: WaveDirector, difficulty: Difficulty) -> WaveDirector {
    if sb.levels@.len() == 0 {
        d
    } else {
        let next = match d.pending_level {
            Some(l) => l as int,
            None => (d.level_index + 1) % (sb.levels@.len() as int),
        };
        let reset = WaveDirector {
            level_index: next as usize,
            wave_index: 0,
            difficulty: enemy_health_permille(difficulty),
            pending_level: None,
            ..d
        };
        WaveDirector {
            timer_duration: next_wait(sb, reset, difficulty) as u64,
            timer_remaining: next_wait(sb, reset, difficulty) as u64,
            ..reset
        }
    }
}

/// Moves to the pending level, or to the next one (wrapping) if none is pending, with the
/// wave index and accumulator reset and the timer primed. Nothing happens without levels.
pub fn advance_level(director: &mut WaveDirector, storyboard: &Storyboard, difficulty: Difficulty)
    requires
        storyboard.wf(),
    ensures
        old(director).wf() ==> final(director).wf(),
        final(director).boss_active == old(director).boss_active,
        storyboard.levels@.len() == 0 ==> *final(director) == *old(director),
        storyboard.levels@.len() > 0 ==> final(director).level_index == match old(director).pending_level {
            Some(l) => l as int,
            None => (old(director).level_index + 1) % (storyboard.levels@.len() as int),
        },
        *final(director) == level_advanced(*storyboard, *old(director), difficulty),
{
    let level_count = storyboard.level_count();
    if level_count == 0 {
        return;
    }
    let next_index = match director.pending_level {
        Some(l) => l,
        None => (director.level_index % level_count + 1) % level_count,
    };
    proof {
        let n = level_count as int;
        let l = director.level_index as int;
        lemma_next_index(l, n);
    }
    director.level_index = next_index;
    director.wave_index = 0;
    director.difficulty = difficulty.enemy_health_factor();
    director.pending_level = None;
    set_timer_for_next_wave(director, storyboard, difficulty);
}

/// Prepares the director for a new run: first level, first wave, accumulator at the
/// health factor, no boss, timer primed.
pub fn reset_waves(director: &mut WaveDirector, storyboard: &Storyboard, difficulty: Difficulty)
    requires
        storyboard.wf(),
    ensures
        final(director).wf(),
        !final(director).boss_active,
        ({
            let reset = WaveDirector {
                wave_index: 0,
                difficulty: enemy_health_permille(difficulty),
                boss_active: false,
                level_index: 0,
                pending_level: None,
                ..*old(director)
            };
            *final(director) == (WaveDirector {
                timer_duration: next_wait(*storyboard, reset, difficulty) as u64,
                timer_remaining: next_wait(*storyboard, reset, difficulty) as u64,
                ..reset
            })
        }),
{
    director.timer_remaining = director.timer_duration;
    director.wave_index = 0;
    director.difficulty = difficulty.enemy_health_factor();
    director.boss_active = false;
    director.level_index = 0;
    director.pending_level = None;
    set_timer_for_next_wave(director, storyboard, difficulty);
}

/// Restarts the current wait from its full length.
pub fn clear_waves(director: &mut WaveDirector)
    ensures
        *final(director) == (WaveDirector { timer_remaining: old(director).timer_duration, ..*old(director) }),
{
    director.timer_remaining = director.timer_duration;
}

/// Difficulty scale a wave is spawned with: the accumulator times the health factor,
/// capped at the scale the movement settings are checked against.
pub open spec fn wave_scale(d: WaveDirector, difficulty: Difficulty) -> int {
    let s = d.difficulty * enemy_health_permille(difficulty) / 1000;
    if s > SCALE_LIMIT {
        SCALE_LIMIT as int
    } else {
        s
    }
}

/// The accumulator after one wave: one step more, saturating at the largest `u64`.
pub open spec fn grown_difficulty(d: u64) -> int {
    if d + DIFFICULTY_STEP > u64::MAX {
        u64::MAX as int
    } else {
        d + DIFFICULTY_STEP
    }
}

/// Whether a step of `dt` milliseconds makes the director send a wave.
pub open spec fn wave_due(sb: Storyboard, d: WaveDirector, dt: int) -> bool {
    &&& !d.boss_active
    &&& d.level_index < sb.levels@.len()
    &&& sb.levels@[d.level_index as int].waves@.len() > 0
    &&& d.timer_remaining <= dt
}

/// Advances the wave timer by one step. While a boss is active, or when the current level
/// is missing or empty, nothing happens. When the wait runs out, the current wave (the
/// wave index taken modulo the wave count) is sent at the current difficulty scale, the
/// index moves on (wrapping), the accumulator grows by one step (up to the largest `u64`;
/// the scale it yields is capped at `SCALE_LIMIT`), a wrap marks the next
/// level as pending unless one already is, and the timer is primed for the next wave.
pub fn drive_waves(director: &mut WaveDirector, storyboard: &Storyboard, difficulty: Difficulty, dt: u64) -> (r:
    Vec<SpawnEnemyEvent>)
    requires
        storyboard.wf(),
        old(director).wf(),
    ensures
        final(director).wf(),
        final(director).boss_active == old(director).boss_active,
        forall|i: int| 0 <= i < r@.len() ==> (#[trigger] r@[i]).position.in_field() && r@[i].movement.wf(),
        !wave_due(*storyboard, *old(director), dt as int) ==> r@.len() == 0 && {
            let idle = !old(director).boss_active && old(director).level_index
                < storyboard.levels@.len() && storyboard.levels@[old(
                director,
            ).level_index as int].waves@.len() > 0;
            &&& idle ==> *final(director) == (WaveDirector {
                timer_remaining: (if old(director).timer_remaining > dt {
                    old(director).timer_remaining - dt
                } else {
                    0
                }) as u64,
                ..*old(director)
            })
            &&& !idle ==> *final(director) == *old(director)
        },
        wave_due(*storyboard, *old(director), dt as int) ==> {
            let level = storyboard.levels@[old(director).level_index as int];
            let count = level.waves@.len() as int;
            let current = (old(director).wave_index as int) % count;
            let next_index = (old(director).wave_index + 1) % count;
            let grown = grown_difficulty(old(director).difficulty);
            let pending = if next_index == 0 && old(director).pending_level is None {
                Some(((old(director).level_index + 1) % (storyboard.levels@.len() as int)) as usize)
            } else {
                old(director).pending_level
            };
            let moved = WaveDirector {
                wave_index: next_index as u32,
                difficulty: grown as u64,
                pending_level: pending,
                ..*old(director)
            };
            &&& r@ == wave_events(level.waves@[current], wave_scale(*old(director), difficulty))
            &&& *final(director) == (WaveDirector {
                timer_duration: next_wait(*storyboard, moved, difficulty) as u64,
                timer_remaining: next_wait(*storyboard, moved, difficulty) as u64,
                ..moved
            })
        },
{
    if director.boss_active {
        return Vec::new();
    }
    let level = match storyboard.level(director.level_index) {
        Some(level) => level,
        None => return Vec::new(),
    };
    if level.waves.len() == 0 {
        return Vec::new();
    }
    director.timer_remaining = director.timer_remaining.saturating_sub(dt);
    if director.timer_remaining > 0 {
        return Vec::new();
    }
    let wave_count = level.waves.len();
    let current = (director.wave_index as usize) % wave_count;
    assert((director.difficulty as int) * enemy_health_permille(difficulty) <= 0x1_0000_0000_0000_0000 * 1150)
        by (nonlinear_arith)
        requires
            director.difficulty < 0x1_0000_0000_0000_0000,
            enemy_health_permille(difficulty) <= 1150,
    ;
    let raw: u128 = (director.difficulty as u128) * (difficulty.enemy_health_factor() as u128) / 1000;
    let scale: u64 = if raw > SCALE_LIMIT as u128 {
        SCALE_LIMIT
    } else {
        raw as u64
    };
    proof {
        assert(storyboard.levels@[director.level_index as int].wf());
        assert(level.waves@[current as int].wf());
    }
    let events = spawn_wave_from_definition(&level.waves[current], scale);
    director.wave_index = ((director.wave_index as u64 + 1) % (wave_count as u64)) as u32;
    director.difficulty = director.difficulty.saturating_add(DIFFICULTY_STEP);
    if director.wave_index == 0 {
        if director.pending_level.is_none() {
            let level_count = storyboard.level_count();
            director.pending_level = Some((director.level_index % level_count + 1) % level_count);
            proof {
                let n = level_count as int;
                let l = director.level_index as int;
                lemma_next_index(l, n);
            }
        }
    }
    set_timer_for_next_wave(director, storyboard, difficulty);
    events
}

} // verus!
