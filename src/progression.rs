use vstd::prelude::*;
use crate::audio::{
    AudioRequest, MusicType, PlayMusicEvent, PlaySoundEffectEvent, SoundEffectType,
    StopSoundEvent,
};

verus! {

/// Experience needed for the first level.
pub const LEVEL_XP_BASE: u32 = 10;

/// The experience multiplier, in hundredths, at the start of a game.
pub const START_MULTIPLIER: u32 = 100;

/// Growth of the experience multiplier per level, in hundredths.
pub const MULTIPLIER_STEP: u32 = 20;

/// Time between two enemy spawns at the start of a game, in milliseconds.
pub const START_SPAWN_INTERVAL_MS: u64 = 2000;

/// The spawn interval never drops below this, in milliseconds.
pub const MIN_SPAWN_INTERVAL_MS: u64 = 200;

/// Levels below this one shorten the spawn interval by the larger step.
pub const EARLY_LEVELS: u32 = 5;

/// Spawn interval cut per level in the early game, in milliseconds.
pub const EARLY_SPAWN_STEP_MS: u64 = 300;

/// Spawn interval cut per level later on, in milliseconds.
pub const LATE_SPAWN_STEP_MS: u64 = 100;

/// Mode of the game as a whole.
#[derive(Clone, Copy, Debug, PartialEq, Eq, Structural)]
pub enum GameState {
    Loading,
    Splash,
    Menu,
    Playing,
    Upgrade,
}

/// The progression record: experience, level and difficulty.
///
/// `level_xp_multiplier` is in hundredths (`100` is a factor of one).
#[derive(Clone, Copy, Debug, PartialEq, Eq, Structural)]
pub struct GameRules {
    pub xp: u32,
    pub level: u32,
    pub level_xp_base: u32,
    pub level_xp_multiplier: u32,
    pub enemy_spawn_interval: u64,
}

pub open spec fn start_rules() -> GameRules {
    GameRules {
        xp: 0,
        level: 0,
        level_xp_base: LEVEL_XP_BASE,
        level_xp_multiplier: START_MULTIPLIER,
        enemy_spawn_interval: START_SPAWN_INTERVAL_MS,
    }
}

/// The spawn interval after a level-up from `level`, floored.
pub open spec fn next_spawn_interval(interval: u64, level: u32) -> u64 {
    let step = if level < EARLY_LEVELS {
        EARLY_SPAWN_STEP_MS
    } else {
        LATE_SPAWN_STEP_MS
    };
    if interval >= MIN_SPAWN_INTERVAL_MS + step {
        (interval - step) as u64
    } else {
        MIN_SPAWN_INTERVAL_MS
    }
}

impl GameRules {
    pub open spec fn wf(self) -> bool {
        MIN_SPAWN_INTERVAL_MS <= self.enemy_spawn_interval <= START_SPAWN_INTERVAL_MS
    }

    /// Experience needed to leave the current level: the base times the
    /// multiplier, rounded down.
    pub open spec fn level_xp_spec(self) -> int {
        self.level_xp_base * self.level_xp_multiplier / 100
    }

    /// The experience counter has reached the threshold.
    pub open spec fn can_level_up(self) -> bool {
        self.xp >= self.level_xp_spec()
    }

    /// The record after a level-up.
    pub open spec fn level_up_spec(self) -> GameRules {
        GameRules {
            xp: 0,
            level: (self.level + 1) as u32,
            level_xp_multiplier: (self.level_xp_multiplier + MULTIPLIER_STEP) as u32,
            enemy_spawn_interval: next_spawn_interval(self.enemy_spawn_interval, self.level),
            ..self
        }
    }

    /// Room is left in the counters for one more level.
    pub open spec fn below_limits(self) -> bool {
        self.level < u32::MAX && self.level_xp_multiplier <= u32::MAX - MULTIPLIER_STEP
    }

    pub fn new() -> (r: GameRules)
        ensures
            r == start_rules(),
            r.wf(),
    {
        GameRules {
            xp: 0,
            level: 0,
            level_xp_base: LEVEL_XP_BASE,
            level_xp_multiplier: START_MULTIPLIER,
            enemy_spawn_interval: START_SPAWN_INTERVAL_MS,
        }
    }

    /// Back to the start of a game.
    pub fn reset(&mut self)
        ensures
            *final(self) == start_rules(),
    {
        *self = GameRules::new();
    }

    pub fn get_level_xp(&self) -> (r: u64)
        ensures
            r == self.level_xp_spec(),
    {
        proof {
            assert(self.level_xp_base * self.level_xp_multiplier <= u32::MAX * u32::MAX)
                by (nonlinear_arith);
        }
        (self.level_xp_base as u64) * (self.level_xp_multiplier as u64) / 100
    }

    pub fn set_level(&mut self, level: u32)
        ensures
            *final(self) == (GameRules { level, ..*old(self) }),
    {
        self.level = level;
    }

    pub fn set_xp(&mut self, xp: u32)
        ensures
            *final(self) == (GameRules { xp, ..*old(self) }),
    {
        self.xp = xp;
    }

    /// Adds collected experience, saturating at `u32::MAX`.
    pub fn add_xp(&mut self, amount: u32)
        ensures
            *final(self) == (GameRules {
                xp: if old(self).xp + amount <= u32::MAX {
                    (old(self).xp + amount) as u32
                } else {
                    u32::MAX
                },
                ..*old(self)
            }),
    {
        self.xp = self.xp.saturating_add(amount);
    }

    /// The leveling step: when the experience reaches the threshold, the level
    /// goes up by one, the multiplier by a step, the experience back to zero
    /// and the spawn interval down. Returns whether that happened, which is
    /// the cue to enter the upgrade interlude.
    pub fn level_up(&mut self) -> (r: bool)
        requires
            old(self).below_limits(),
        ensures
            r == old(self).can_level_up(),
            *final(self) == if r {
                old(self).level_up_spec()
            } else {
                *old(self)
            },
            old(self).wf() ==> final(self).wf(),
    {
        if (self.xp as u64) >= self.get_level_xp() {
            let current_level = self.level;
            self.set_level(current_level + 1);
            self.level_xp_multiplier = self.level_xp_multiplier + MULTIPLIER_STEP;
            self.xp = 0;
            let step = if current_level < EARLY_LEVELS {
                EARLY_SPAWN_STEP_MS
            } else {
                LATE_SPAWN_STEP_MS
            };
            if self.enemy_spawn_interval >= MIN_SPAWN_INTERVAL_MS + step {
                self.enemy_spawn_interval = self.enemy_spawn_interval - step;
            } else {
                self.enemy_spawn_interval = MIN_SPAWN_INTERVAL_MS;
            }
            true
        } else {
            false
        }
    }

    /// Fill of the experience bar, in percent of the threshold (full when the
    /// threshold is zero).
    pub fn xp_percent(&self) -> (r: u64)
        ensures
            r == if self.level_xp_spec() == 0 {
                100
            } else {
                self.xp * 100 / self.level_xp_spec()
            },
    {
        let need = self.get_level_xp();
        if need == 0 {
            100
        } else {
            (self.xp as u64) * 100 / need
        }
    }
}

impl Default for GameRules {
    fn default() -> (r: GameRules)
        ensures
            r == start_rules(),
    {
        GameRules::new()
    }
}

/// One tick of the experience bar's animation: the width, in hundredths of a
/// percent, moves toward `target` by the fraction of a second that passed,
/// and lands on it when a second or more has passed.
pub fn xp_bar_step(width: u64, target: u64, delta: u64) -> (r: u64)
    requires
        width <= 10000,
        target <= 10000,
    ensures
        r == if delta >= 1000 {
            target as int
        } else if target >= width {
            width + (target - width) * delta / 1000
        } else {
            width - (width - target) * delta / 1000
        },
        r <= 10000,
{
    if delta >= 1000 {
        target
    } else if target >= width {
        proof {
            assert((target - width) * delta / 1000 <= target - width) by (nonlinear_arith)
                requires target >= width, delta < 1000;
        }
        width + (target - width) * delta / 1000
    } else {
        proof {
            assert((width - target) * delta / 1000 <= width - target) by (nonlinear_arith)
                requires target < width, delta < 1000;
        }
        width - (width - target) * delta / 1000
    }
}

/// What the audio collaborator is asked to do when the game enters `state`.
pub open spec fn enter_state_spec(state: GameState) -> Seq<AudioRequest> {
    match state {
        GameState::Menu => seq![
            AudioRequest::Stop(StopSoundEvent),
            AudioRequest::Music(PlayMusicEvent { sound: MusicType::Menu, looping: true, fade_in: 1000 }),
        ],
        GameState::Playing => seq![
            AudioRequest::Stop(StopSoundEvent),
            AudioRequest::Music(PlayMusicEvent { sound: MusicType::Game, looping: true, fade_in: 0 }),
        ],
        GameState::Upgrade => seq![
            AudioRequest::Stop(StopSoundEvent),
            AudioRequest::Effect(PlaySoundEffectEvent { sound: SoundEffectType::EnterLevelUp }),
            AudioRequest::Music(PlayMusicEvent { sound: MusicType::Upgrade, looping: true, fade_in: 1000 }),
        ],
        _ => seq![],
    }
}

/// Audio requests on entering `state`; entering the menu also starts a new
/// game's progression.
pub fn enter_state(state: GameState, rules: &mut GameRules) -> (r: Vec<AudioRequest>)
    ensures
        r@ == enter_state_spec(state),
        *final(rules) == if state == GameState::Menu {
            start_rules()
        } else {
            *old(rules)
        },
{
    let mut r: Vec<AudioRequest> = Vec::new();
    match state {
        GameState::Menu => {
            r.push(AudioRequest::Stop(StopSoundEvent));
            r.push(
                AudioRequest::Music(
                    PlayMusicEvent { sound: MusicType::Menu, looping: true, fade_in: 1000 },
                ),
            );
            rules.reset();
        },
        GameState::Playing => {
            r.push(AudioRequest::Stop(StopSoundEvent));
            r.push(
                AudioRequest::Music(
                    PlayMusicEvent { sound: MusicType::Game, looping: true, fade_in: 0 },
                ),
            );
        },
        GameState::Upgrade => {
            r.push(AudioRequest::Stop(StopSoundEvent));
            r.push(
                AudioRequest::Effect(PlaySoundEffectEvent { sound: SoundEffectType::EnterLevelUp }),
            );
            r.push(
                AudioRequest::Music(
                    PlayMusicEvent { sound: MusicType::Upgrade, looping: true, fade_in: 1000 },
                ),
            );
        },
        _ => {},
    }
    proof {
        assert(r@ =~= enter_state_spec(state));
    }
    r
}

} // verus!
