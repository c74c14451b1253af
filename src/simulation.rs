use vstd::prelude::*;
use crate::actor::{Actor, Enemy, MoveInput, Player, Role};
use crate::geometry::Vec2;
use crate::audio::{AudioRequest, PlaySoundEffectEvent, SoundEffectType};
use crate::combat::{Contact, Hit, contacts_spec, despawn_all, drops_spec, lemma_drops_in_bounds};
use crate::progression::{GameRules, GameState, MULTIPLIER_STEP, enter_state, enter_state_spec, start_rules};
use crate::shooting::{AimInput, aim_spec, fired_spec, fires_spec, shoot_timer_after, projectiles_tick};
use crate::spawner::{CameraView, spawn_point_spec};
use crate::timer::{Timer, TimerMode, MAX_DELTA_MS};
use crate::world::{World, WorldState, XPDropEvent, XpOrb, new_enemy_spec, player_index};
use crate::xp::{add_all, attract_spec, orbs_from_drops, orbs_tick, spawn_count};

verus! {

/// What the collaborators report for one tick.
pub struct TickInput {
    /// Time since the previous tick, in milliseconds.
    pub delta: u64,
    pub movement: MoveInput,
    pub aim: AimInput,
    /// The camera, when it could be resolved this tick.
    pub camera: Option<CameraView>,
    /// Contacts between damage-dealing colliders and actors.
    pub contacts: Vec<Contact>,
    /// Ids of the orbs that overlap the player's magnet sensor.
    pub magnet: Vec<u64>,
    /// Ids of the actors whose death animation finished.
    pub finished_animations: Vec<u64>,
}

/// What one tick produced for the collaborators.
pub struct TickOutput {
    pub spawned: Option<u64>,
    pub hits: Vec<Hit>,
    pub drops: Vec<XPDropEvent>,
    pub collected: Vec<u32>,
    pub audio: Vec<AudioRequest>,
    /// The player levelled up: the game enters the upgrade interlude.
    pub level_up: bool,
}

/// The output of a tick, as values.
pub struct TickOutcome {
    pub spawned: Option<u64>,
    pub hits: Seq<Hit>,
    pub drops: Seq<XPDropEvent>,
    pub collected: Seq<u32>,
    pub audio: Seq<AudioRequest>,
    pub level_up: bool,
}

impl TickInput {
    pub open spec fn wf(&self) -> bool {
        &&& self.delta <= MAX_DELTA_MS
        &&& self.camera matches Some(c) ==> c.wf()
    }
}

impl TickOutput {
    pub open spec fn outcome(&self) -> TickOutcome {
        TickOutcome {
            spawned: self.spawned,
            hits: self.hits@,
            drops: self.drops@,
            collected: self.collected@,
            audio: self.audio@,
            level_up: self.level_up,
        }
    }
}

/// `pos` is a point the spawner may pick just outside what `camera` shows.
pub open spec fn spawn_point_ok(camera: Option<CameraView>, pos: Vec2) -> bool {
    camera matches Some(c) ==> exists|horizontal: bool, far: bool, along: u64|
        along < (if horizontal {
            c.width
        } else {
            c.height
        }) && pos == c.to_world_spec(spawn_point_spec(c.width, c.height, horizontal, far, along))
}

/// The spawner's stage: the timer advances, and an enemy appears at `pos`
/// when it completes, the camera is known and ids last.
pub open spec fn spawn_stage(s: WorldState, delta: u64, camera: Option<CameraView>, pos: Vec2) -> (
    WorldState,
    Option<u64>,
) {
    let t = s.spawn_timer.tick_spec(delta);
    if t.just_finished_spec() && camera is Some && s.next_id < u64::MAX {
        (
            WorldState {
                actors: s.actors.push(new_enemy_spec(s.next_id, pos, Enemy::default_spec())),
                spawn_timer: t,
                next_id: (s.next_id + 1) as u64,
                ..s
            },
            Some(s.next_id),
        )
    } else {
        (WorldState { spawn_timer: t, ..s }, None)
    }
}

/// The steering stage: enemies turn toward the player, then the player
/// follows the input.
pub open spec fn steer_stage(s: WorldState, movement: MoveInput) -> WorldState {
    let pi = player_index(s.actors);
    let a1 = if pi < 0 {
        s.actors
    } else {
        s.actors.map_values(|a: Actor| a.steer_enemy_spec(s.actors[pi].position))
    };
    WorldState { actors: a1.map_values(|a: Actor| a.steer_player_spec(movement)), ..s }
}

/// The player's fire control, and the shot sound when a bullet leaves.
pub open spec fn shoot_stage(s: WorldState, aim: AimInput, delta: u64) -> (
    WorldState,
    Option<PlaySoundEffectEvent>,
) {
    let pi = player_index(s.actors);
    if pi < 0 || s.next_id == u64::MAX {
        (s, None)
    } else {
        let a = s.actors[pi];
        let p = a.role->Player_0;
        let actors = s.actors.update(
            pi,
            Actor {
                role: Role::Player(Player { shoot_timer: shoot_timer_after(p, aim, delta), ..p }),
                ..a
            },
        );
        if fires_spec(p, aim) {
            (
                WorldState {
                    actors,
                    projectiles: s.projectiles.push(
                        fired_spec(s.next_id, a.position, aim_spec(aim)->Some_0),
                    ),
                    next_id: (s.next_id + 1) as u64,
                    ..s
                },
                Some(PlaySoundEffectEvent { sound: SoundEffectType::PlayerShoot }),
            )
        } else {
            (WorldState { actors, ..s }, None)
        }
    }
}

/// The combat stage: contacts in order, then every hurt window ticks.
pub open spec fn combat_stage(s: WorldState, contacts: Seq<Contact>, delta: u64) -> (
    WorldState,
    Seq<Hit>,
) {
    let c = contacts_spec(s.actors, s.projectiles, contacts);
    (
        WorldState {
            actors: c.0.map_values(|a: Actor| a.hurt_tick_spec(delta)),
            projectiles: c.1,
            ..s
        },
        c.2,
    )
}

/// The lifecycle stage: actors without health die, enemies drop experience,
/// and dead enemies whose animation finished leave.
pub open spec fn lifecycle_stage(s: WorldState, finished: Seq<u64>) -> (
    WorldState,
    Seq<XPDropEvent>,
) {
    (
        WorldState {
            actors: despawn_all(s.actors.map_values(|a: Actor| a.kill_spec()), finished),
            ..s
        },
        drops_spec(s.actors),
    )
}

/// The experience stage: drops become orbs, the magnet attracts, attracted
/// orbs move and are collected.
pub open spec fn xp_stage(s: WorldState, drops: Seq<XPDropEvent>, magnet: Seq<u64>, delta: u64) -> (
    WorldState,
    Seq<u32>,
) {
    let n = spawn_count(s.next_id, drops.len());
    let orbs = (s.orbs + orbs_from_drops(drops.subrange(0, n), s.next_id as int)).map_values(
        |o: XpOrb| attract_spec(o, magnet),
    );
    let next_id = (s.next_id + n) as u64;
    let pi = player_index(s.actors);
    if pi < 0 {
        (WorldState { orbs, next_id, ..s }, seq![])
    } else {
        let p = s.actors[pi];
        let res = orbs_tick(orbs, p.position, p.role->Player_0.stats.size, delta);
        (
            WorldState {
                orbs: res.0,
                next_id,
                rules: GameRules { xp: add_all(s.rules.xp, res.1), ..s.rules },
                ..s
            },
            res.1,
        )
    }
}

/// The leveling stage: a level-up also restarts the spawner at the new
/// interval.
pub open spec fn level_stage(s: WorldState) -> (WorldState, bool) {
    if s.rules.below_limits() && s.rules.can_level_up() {
        let rules = s.rules.level_up_spec();
        (
            WorldState {
                rules,
                spawn_timer: Timer::fresh(rules.enemy_spawn_interval, TimerMode::Repeating),
                ..s
            },
            true,
        )
    } else {
        (s, false)
    }
}

/// Sound requests of a tick: the shot, then one per hit, then one per
/// collected orb.
pub open spec fn audio_spec(
    shot: Option<PlaySoundEffectEvent>,
    hits: Seq<Hit>,
    collected: nat,
) -> Seq<AudioRequest> {
    let first = match shot {
        Some(e) => seq![AudioRequest::Effect(e)],
        None => Seq::<AudioRequest>::empty(),
    };
    first + Seq::new(
        hits.len(),
        |i: int| AudioRequest::Effect(PlaySoundEffectEvent { sound: hits[i].sound }),
    ) + Seq::new(
        collected,
        |i: int| AudioRequest::Effect(PlaySoundEffectEvent { sound: SoundEffectType::XPCollect }),
    )
}

/// One tick of play, with the spawner picking `pos` if it spawns: the stages
/// in their fixed order, each over the result of the one before.
pub open spec fn step_spec(s: WorldState, input: TickInput, pos: Vec2) -> (WorldState, TickOutcome) {
    let delta = input.delta;
    let (s1, spawned) = spawn_stage(s, delta, input.camera, pos);
    let s2 = steer_stage(s1, input.movement);
    let (s3, shot) = shoot_stage(s2, input.aim, delta);
    let s4 = WorldState { projectiles: projectiles_tick(s3.projectiles, delta), ..s3 };
    let (s5, hits) = combat_stage(s4, input.contacts@, delta);
    let (s6, drops) = lifecycle_stage(s5, input.finished_animations@);
    let (s7, collected) = xp_stage(s6, drops, input.magnet@, delta);
    let (s8, level_up) = level_stage(s7);
    (
        s8,
        TickOutcome {
            spawned,
            hits,
            drops,
            collected,
            audio: audio_spec(shot, hits, collected.len()),
            level_up,
        },
    )
}

impl World {
    /// One tick of play, in the fixed stage order: spawner, steering and fire,
    /// combat, lifecycle, then experience and leveling. Each stage sees what
    /// the earlier ones wrote in this tick; only the spawn point is random.
    pub fn step(&mut self, input: &TickInput) -> (r: TickOutput)
        requires
            old(self).wf(),
            input.wf(),
        ensures
            final(self).wf(),
            exists|pos: Vec2|
                spawn_point_ok(input.camera, pos) && step_spec(old(self).state(), *input, pos) == (
                final(self).state(),
                r.outcome(),
            ),
    {
        let delta = input.delta;
        let ghost s0 = self.state();

        let spawned = self.tick_spawner(delta, input.camera);
        let ghost pos: Vec2 = if spawned is Some {
            self.actors@.last().position
        } else {
            match input.camera {
                Some(c) => c.to_world_spec(spawn_point_spec(c.width, c.height, true, true, 0)),
                None => Vec2 { x: 0, y: 0 },
            }
        };
        proof {
            if spawned is None {
                if let Some(c) = input.camera {
                    assert(spawn_point_ok(input.camera, pos) ) by {
                        assert(0u64 < c.width);
                    }
                }
            }
            assert(self.state() == spawn_stage(s0, delta, input.camera, pos).0);
            assert(spawn_point_ok(input.camera, pos));
        }
        let ghost s1 = self.state();

        self.steer_enemies();
        self.steer_player(input.movement);
        proof {
            assert(self.state() == steer_stage(s1, input.movement));
        }
        let ghost s2 = self.state();

        let shot = self.player_shoot(input.aim, delta);
        proof {
            assert((self.state(), shot) == shoot_stage(s2, input.aim, delta));
        }
        let ghost s3 = self.state();
        self.update_bullets(delta);
        let ghost s4 = self.state();
        proof {
            assert(s4 == WorldState { projectiles: projectiles_tick(s3.projectiles, delta), ..s3 });
        }

        let hits = self.resolve_contacts(&input.contacts);
        self.tick_hurt(delta);
        let ghost s5 = self.state();
        proof {
            assert((s5, hits@) == combat_stage(s4, input.contacts@, delta));
        }

        let drops = self.kill_depleted();
        proof {
            lemma_drops_in_bounds(s5.actors);
        }
        self.despawn_finished(&input.finished_animations);
        let ghost s6 = self.state();
        proof {
            assert((s6, drops@) == lifecycle_stage(s5, input.finished_animations@));
        }

        self.spawn_xp(&drops);
        self.attract_orbs(&input.magnet);
        let collected = self.move_orbs(delta);
        let ghost s7 = self.state();
        proof {
            if collected@.len() == 0 {
                assert(add_all(s6.rules.xp, collected@) == s6.rules.xp);
            }
            assert((s7, collected@) == xp_stage(s6, drops@, input.magnet@, delta));
        }

        let mut level_up = false;
        if self.rules.level < u32::MAX && self.rules.level_xp_multiplier <= u32::MAX - MULTIPLIER_STEP {
            level_up = self.rules.level_up();
            if level_up {
                self.restart_spawner();
            }
        }
        proof {
            assert((self.state(), level_up) == level_stage(s7));
        }

        let mut audio: Vec<AudioRequest> = Vec::new();
        match shot {
            Some(e) => audio.push(AudioRequest::Effect(e)),
            None => {},
        }
        let ghost first = audio@;
        let mut i: usize = 0;
        while i < hits.len()
            invariant
                i <= hits@.len(),
                audio@ == first + Seq::new(
                    i as nat,
                    |k: int| AudioRequest::Effect(PlaySoundEffectEvent { sound: hits@[k].sound }),
                ),
            decreases hits@.len() - i,
        {
            audio.push(AudioRequest::Effect(PlaySoundEffectEvent { sound: hits[i].sound }));
            proof {
                assert(audio@ =~= first + Seq::new(
                    (i + 1) as nat,
                    |k: int| AudioRequest::Effect(PlaySoundEffectEvent { sound: hits@[k].sound }),
                ));
            }
            i = i + 1;
        }
        let ghost second = audio@;
        let mut k: usize = 0;
        while k < collected.len()
            invariant
                k <= collected@.len(),
                audio@ == second + Seq::new(
                    k as nat,
                    |n: int| AudioRequest::Effect(PlaySoundEffectEvent { sound: SoundEffectType::XPCollect }),
                ),
            decreases collected@.len() - k,
        {
            audio.push(
                AudioRequest::Effect(PlaySoundEffectEvent { sound: SoundEffectType::XPCollect }),
            );
            proof {
                assert(audio@ =~= second + Seq::new(
                    (k + 1) as nat,
                    |n: int| AudioRequest::Effect(PlaySoundEffectEvent { sound: SoundEffectType::XPCollect }),
                ));
            }
            k = k + 1;
        }
        let r = TickOutput { spawned, hits, drops, collected, audio, level_up };
        proof {
            assert(r.audio@ =~= audio_spec(shot, r.hits@, r.collected@.len()));
            assert(step_spec(s0, *input, pos) == (self.state(), r.outcome()));
            assert(spawn_point_ok(input.camera, pos));
        }
        r
    }

    /// One tick of the upgrade interlude: enemies stand still, and dead
    /// enemies whose death animation finished leave.
    pub fn step_paused(&mut self, finished_animations: &Vec<u64>)
        requires
            old(self).wf(),
        ensures
            final(self).wf(),
            final(self).actors@ == despawn_all(
                old(self).actors@.map_values(|a: Actor| a.pause_spec()),
                finished_animations@,
            ),
            final(self).projectiles == old(self).projectiles,
            final(self).orbs == old(self).orbs,
            final(self).rules == old(self).rules,
            final(self).spawn_timer == old(self).spawn_timer,
            final(self).next_id == old(self).next_id,
    {
        self.pause_enemies();
        self.despawn_finished(finished_animations);
    }

    /// Enters a mode of the game and returns its audio requests. Entering
    /// the menu starts a new game's progression; entering the menu or play
    /// restarts the spawner at the current interval.
    pub fn enter_state(&mut self, state: GameState) -> (r: Vec<AudioRequest>)
        requires
            old(self).wf(),
        ensures
            final(self).wf(),
            r@ == enter_state_spec(state),
            final(self).rules == if state == GameState::Menu {
                start_rules()
            } else {
                old(self).rules
            },
            final(self).spawn_timer == if state == GameState::Menu || state == GameState::Playing {
                Timer::fresh(final(self).rules.enemy_spawn_interval, TimerMode::Repeating)
            } else {
                old(self).spawn_timer
            },
            final(self).actors == old(self).actors,
            final(self).projectiles == old(self).projectiles,
            final(self).orbs == old(self).orbs,
            final(self).next_id == old(self).next_id,
    {
        let r = enter_state(state, &mut self.rules);
        if state == GameState::Menu || state == GameState::Playing {
            self.restart_spawner();
        }
        r
    }
}

} // verus!
