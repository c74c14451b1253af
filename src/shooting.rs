use vstd::prelude::*;
use crate::actor::{Actor, Player, Role, scale, scale_spec};
use crate::audio::{PlaySoundEffectEvent, SoundEffectType};
use crate::geometry::{Vec2, UNIT};
use crate::timer::{Timer, TimerMode, MAX_DELTA_MS};
use crate::world::{World, Bullet, Projectile, actors_wf, player_index, projectiles_wf, projectile_ids_ok};

verus! {

/// Speed of a fired bullet, in pixels per second.
pub const BULLET_SPEED: i64 = 500;

/// Size of a fired bullet, in pixels.
pub const BULLET_SIZE: i64 = 10;

/// Damage of a fired bullet.
pub const BULLET_DAMAGE: u32 = 10;

/// How long a bullet flies before it is removed, in milliseconds.
pub const BULLET_LIFETIME_MS: u64 = 3000;

/// Distance from the player at which a bullet appears, in pixels.
pub const MUZZLE_OFFSET: i64 = 10;

/// Fire input of one tick: the arrow keys held.
#[derive(Clone, Copy, Debug, PartialEq, Eq, Structural)]
pub struct AimInput {
    pub left: bool,
    pub right: bool,
    pub up: bool,
    pub down: bool,
}

/// Direction of fire at unit scale: of the keys held, down wins over up, up
/// over right and right over left; `None` when none is held.
pub open spec fn aim_spec(aim: AimInput) -> Option<Vec2> {
    if aim.down {
        Some(Vec2 { x: 0, y: (-UNIT) as i64 })
    } else if aim.up {
        Some(Vec2 { x: 0, y: UNIT })
    } else if aim.right {
        Some(Vec2 { x: UNIT, y: 0 })
    } else if aim.left {
        Some(Vec2 { x: (-UNIT) as i64, y: 0 })
    } else {
        None
    }
}

pub fn aim_direction(aim: AimInput) -> (r: Option<Vec2>)
    ensures
        r == aim_spec(aim),
{
    if aim.down {
        Some(Vec2 { x: 0, y: -UNIT })
    } else if aim.up {
        Some(Vec2 { x: 0, y: UNIT })
    } else if aim.right {
        Some(Vec2 { x: UNIT, y: 0 })
    } else if aim.left {
        Some(Vec2 { x: -UNIT, y: 0 })
    } else {
        None
    }
}

/// A bullet fired in direction `dir` from `origin` with id `id`.
pub open spec fn fired_spec(id: u64, origin: Vec2, dir: Vec2) -> Projectile {
    Projectile {
        id,
        bullet: Bullet { direction: dir, speed: BULLET_SPEED, size: BULLET_SIZE, damage: BULLET_DAMAGE },
        position: Vec2 {
            x: (origin.x + dir.x * MUZZLE_OFFSET) as i64,
            y: (origin.y + dir.y * MUZZLE_OFFSET) as i64,
        },
        velocity: Vec2 { x: 0, y: 0 },
        despawn_timer: Timer::fresh(BULLET_LIFETIME_MS, TimerMode::Once),
    }
}

/// The player fires when an arrow key is held and at least `shot_speed`
/// milliseconds have passed on its shoot timer.
pub open spec fn fires_spec(p: Player, aim: AimInput) -> bool {
    aim_spec(aim) is Some && p.shoot_timer.elapsed >= p.stats.shot_speed
}

/// The player's shoot timer after a tick: restarted by a shot, then advanced.
pub open spec fn shoot_timer_after(p: Player, aim: AimInput, delta: u64) -> Timer {
    let t = if fires_spec(p, aim) {
        Timer::fresh(p.shoot_timer.duration, p.shoot_timer.mode)
    } else {
        p.shoot_timer
    };
    t.tick_spec(delta)
}

/// One tick of all projectiles: each despawn timer advances; a projectile
/// whose timer finishes leaves, the others fly at their bullet's speed.
pub open spec fn projectiles_tick(s: Seq<Projectile>, delta: u64) -> Seq<Projectile>
    decreases s.len(),
{
    if s.len() == 0 {
        seq![]
    } else {
        let prev = projectiles_tick(s.drop_last(), delta);
        let p = s.last();
        let t = p.despawn_timer.tick_spec(delta);
        if t.just_finished_spec() {
            prev
        } else {
            prev.push(
                Projectile {
                    despawn_timer: t,
                    velocity: scale_spec(p.bullet.direction, p.bullet.speed),
                    ..p
                },
            )
        }
    }
}

impl World {
    /// The player's fire control for one tick. Returns the shot sound when a
    /// bullet was fired. Nothing happens without a player, or once ids are
    /// spent.
    pub fn player_shoot(&mut self, aim: AimInput, delta: u64) -> (r: Option<PlaySoundEffectEvent>)
        requires
            old(self).wf(),
            delta <= MAX_DELTA_MS,
        ensures
            final(self).wf(),
            ({
                let pi = player_index(old(self).actors@);
                if pi < 0 || old(self).next_id == u64::MAX {
                    r is None && final(self).actors == old(self).actors && final(self).projectiles
                        == old(self).projectiles && final(self).next_id == old(self).next_id
                } else {
                    let a = old(self).actors@[pi];
                    let p = a.role->Player_0;
                    let fires = fires_spec(p, aim);
                    &&& final(self).actors@ == old(self).actors@.update(
                        pi,
                        Actor {
                            role: Role::Player(
                                Player { shoot_timer: shoot_timer_after(p, aim, delta), ..p },
                            ),
                            ..a
                        },
                    )
                    &&& fires ==> r == Some(PlaySoundEffectEvent { sound: SoundEffectType::PlayerShoot })
                        && final(self).projectiles@ == old(self).projectiles@.push(
                        fired_spec(old(self).next_id, a.position, aim_spec(aim)->Some_0),
                    ) && final(self).next_id == old(self).next_id + 1
                    &&& !fires ==> r is None && final(self).projectiles == old(self).projectiles
                        && final(self).next_id == old(self).next_id
                }
            }),
            final(self).orbs == old(self).orbs,
            final(self).rules == old(self).rules,
            final(self).spawn_timer == old(self).spawn_timer,
    {
        if self.next_id == u64::MAX {
            return None;
        }
        let pi = match self.find_player() {
            Some(pi) => pi,
            None => {
                return None;
            },
        };
        let a = self.actors[pi];
        proof {
            assert(a.wf());
        }
        let p = match a.role {
            Role::Player(p) => p,
            Role::Enemy(_) => {
                return None;
            },
        };
        let mut timer = p.shoot_timer;
        let mut sound = None;
        match aim_direction(aim) {
            Some(dir) => {
                if timer.elapsed >= p.stats.shot_speed {
                    timer.reset();
                    let id = self.next_id;
                    self.next_id = self.next_id + 1;
                    let proj = Projectile {
                        id,
                        bullet: Bullet {
                            direction: dir,
                            speed: BULLET_SPEED,
                            size: BULLET_SIZE,
                            damage: BULLET_DAMAGE,
                        },
                        position: Vec2 {
                            x: a.position.x + dir.x * MUZZLE_OFFSET,
                            y: a.position.y + dir.y * MUZZLE_OFFSET,
                        },
                        velocity: Vec2::zero(),
                        despawn_timer: Timer::new(BULLET_LIFETIME_MS, TimerMode::Once),
                    };
                    self.projectiles.push(proj);
                    sound = Some(PlaySoundEffectEvent { sound: SoundEffectType::PlayerShoot });
                    proof {
                        assert(projectiles_wf(self.projectiles@));
                    }
                }
            },
            None => {},
        }
        timer.tick(delta);
        self.actors.set(
            pi,
            Actor { role: Role::Player(Player { shoot_timer: timer, ..p }), ..a },
        );
        proof {
            assert(actors_wf(self.actors@));
        }
        sound
    }

    /// Advances every projectile's despawn timer by `delta` milliseconds and
    /// removes those whose lifetime ran out, however far they flew.
    pub fn update_bullets(&mut self, delta: u64)
        requires
            old(self).wf(),
            delta <= MAX_DELTA_MS,
        ensures
            final(self).wf(),
            final(self).projectiles@ == projectiles_tick(old(self).projectiles@, delta),
            final(self).actors == old(self).actors,
            final(self).orbs == old(self).orbs,
            final(self).rules == old(self).rules,
            final(self).spawn_timer == old(self).spawn_timer,
            final(self).next_id == old(self).next_id,
    {
        let ghost p0 = self.projectiles@;
        let mut kept: Vec<Projectile> = Vec::new();
        let mut i: usize = 0;
        proof {
            assert(p0.subrange(0, 0) =~= Seq::<Projectile>::empty());
        }
        while i < self.projectiles.len()
            invariant
                self.wf(),
                self.projectiles@ == p0,
                i <= p0.len(),
                delta <= MAX_DELTA_MS,
                projectiles_wf(kept@),
                projectile_ids_ok(kept@, self.next_id),
                forall|k: int| 0 <= k < kept@.len() ==> exists|j: int| 0 <= j < i && #[trigger] kept@[k].id == p0[j].id,
                kept@ == projectiles_tick(p0.subrange(0, i as int), delta),
                self.actors == old(self).actors,
                self.orbs == old(self).orbs,
                self.rules == old(self).rules,
                self.spawn_timer == old(self).spawn_timer,
                self.next_id == old(self).next_id,
            decreases p0.len() - i,
        {
            let p = self.projectiles[i];
            proof {
                assert(p.wf());
                let s = p0.subrange(0, i + 1);
                assert(s.drop_last() =~= p0.subrange(0, i as int));
                assert(s.last() == p0[i as int]);
            }
            let mut t = p.despawn_timer;
            t.tick(delta);
            if !t.just_finished() {
                let velocity = scale(p.bullet.direction, p.bullet.speed);
                let ghost before = kept@;
                kept.push(Projectile { despawn_timer: t, velocity, ..p });
                proof {
                    assert forall|k: int| 0 <= k < before.len() implies #[trigger] before[k].id != p.id by {
                        let j = choose|j: int| 0 <= j < i && before[k].id == p0[j].id;
                        assert(p0[j].id != p0[i as int].id);
                    }
                    assert forall|a: int, b: int|
                        0 <= a < kept@.len() && 0 <= b < kept@.len() && a != b implies #[trigger] kept@[a].id != #[trigger] kept@[b].id by {
                        if a < before.len() && b < before.len() {
                            assert(kept@[a] == before[a] && kept@[b] == before[b]);
                        } else if a < before.len() {
                            assert(kept@[a] == before[a]);
                        } else if b < before.len() {
                            assert(kept@[b] == before[b]);
                        }
                    }
                    assert forall|k: int| 0 <= k < kept@.len() implies exists|j: int| 0 <= j < i + 1 && #[trigger] kept@[k].id == p0[j].id by {
                        if k < before.len() {
                            assert(kept@[k] == before[k]);
                        } else {
                            assert(kept@[k].id == p0[i as int].id);
                        }
                    }
                }
            }
            i = i + 1;
        }
        proof {
            assert(p0.subrange(0, p0.len() as int) =~= p0);
        }
        self.projectiles = kept;
    }
}

} // verus!
