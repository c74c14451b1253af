use vstd::prelude::*;
use crate::actor::Enemy;
use crate::chance::{random_below, random_bool};
use crate::geometry::{Vec2, UNIT, COORD_LIMIT};
use crate::timer::{Timer, TimerMode, MAX_DELTA_MS};
use crate::world::{World, new_enemy_spec};

verus! {

/// How far outside the viewport enemies appear, in pixels.
pub const WINDOW_PADDING: i64 = 50;

/// Largest viewport side, in thousandths of a pixel.
pub const MAX_VIEWPORT: i64 = 0x4000_0000;

/// What the camera shows: its centre in the world and the viewport's size,
/// all in thousandths of a pixel. Viewport coordinates start at the top-left
/// corner and grow rightward and downward; world coordinates grow upward.
///
/// The camera is taken to be a 2D orthographic one at unit scale and
/// without rotation, the kind the game uses: one viewport pixel is one world
/// pixel, and the viewport's centre is the camera's position. A camera of
/// any other kind is outside this model.
#[derive(Clone, Copy, Debug, PartialEq, Eq, Structural)]
pub struct CameraView {
    pub center: Vec2,
    pub width: i64,
    pub height: i64,
}

impl CameraView {
    pub open spec fn wf(self) -> bool {
        &&& 0 < self.width <= MAX_VIEWPORT
        &&& 0 < self.height <= MAX_VIEWPORT
        &&& -COORD_LIMIT / 2 <= self.center.x <= COORD_LIMIT / 2
        &&& -COORD_LIMIT / 2 <= self.center.y <= COORD_LIMIT / 2
    }

    /// The world point under viewport point `p`.
    pub open spec fn to_world_spec(self, p: Vec2) -> Vec2 {
        Vec2 {
            x: (self.center.x + p.x - self.width / 2) as i64,
            y: (self.center.y + self.height / 2 - p.y) as i64,
        }
    }

    pub fn to_world(&self, p: Vec2) -> (r: Vec2)
        requires
            self.wf(),
            -2 * MAX_VIEWPORT <= p.x <= 2 * MAX_VIEWPORT,
            -2 * MAX_VIEWPORT <= p.y <= 2 * MAX_VIEWPORT,
        ensures
            r == self.to_world_spec(p),
            r.in_bounds(),
    {
        Vec2 {
            x: self.center.x + p.x - self.width / 2,
            y: self.center.y + self.height / 2 - p.y,
        }
    }
}

/// A viewport point just outside the viewport: past the top or bottom edge
/// when `horizontal` (at `along` across), else past the left or right edge
/// (at `along` down); `far` picks the bottom or right side.
pub open spec fn spawn_point_spec(w: i64, h: i64, horizontal: bool, far: bool, along: u64) -> Vec2 {
    if horizontal {
        Vec2 {
            x: along as i64,
            y: if far {
                (h + WINDOW_PADDING * UNIT) as i64
            } else {
                (-WINDOW_PADDING * UNIT) as i64
            },
        }
    } else {
        Vec2 {
            x: if far {
                (w + WINDOW_PADDING * UNIT) as i64
            } else {
                (-WINDOW_PADDING * UNIT) as i64
            },
            y: along as i64,
        }
    }
}

pub fn spawn_point(w: i64, h: i64, horizontal: bool, far: bool, along: u64) -> (r: Vec2)
    requires
        0 < w <= MAX_VIEWPORT,
        0 < h <= MAX_VIEWPORT,
        along < (if horizontal {
            w
        } else {
            h
        }),
    ensures
        r == spawn_point_spec(w, h, horizontal, far, along),
        -2 * MAX_VIEWPORT <= r.x <= 2 * MAX_VIEWPORT,
        -2 * MAX_VIEWPORT <= r.y <= 2 * MAX_VIEWPORT,
{
    let pad = WINDOW_PADDING * UNIT;
    if horizontal {
        Vec2 {
            x: along as i64,
            y: if far {
                h + pad
            } else {
                -pad
            },
        }
    } else {
        Vec2 {
            x: if far {
                w + pad
            } else {
                -pad
            },
            y: along as i64,
        }
    }
}

/// A random world point just outside what `cam` shows, on a random edge.
pub fn random_spawn_point(cam: &CameraView) -> (r: Vec2)
    requires
        cam.wf(),
    ensures
        r.in_bounds(),
        exists|horizontal: bool, far: bool, along: u64|
            along < (if horizontal {
                cam.width
            } else {
                cam.height
            }) && r == cam.to_world_spec(
                spawn_point_spec(cam.width, cam.height, horizontal, far, along),
            ),
{
    let horizontal = random_bool();
    let far = random_bool();
    let bound = if horizontal {
        cam.width
    } else {
        cam.height
    };
    let along = random_below(bound as u64);
    let p = spawn_point(cam.width, cam.height, horizontal, far, along);
    cam.to_world(p)
}

impl World {
    /// Restarts the spawn timer with the current spawn interval.
    pub fn restart_spawner(&mut self)
        requires
            old(self).wf_parts(),
        ensures
            final(self).wf(),
            final(self).spawn_timer == Timer::fresh(
                old(self).rules.enemy_spawn_interval,
                TimerMode::Repeating,
            ),
            final(self).actors == old(self).actors,
            final(self).projectiles == old(self).projectiles,
            final(self).orbs == old(self).orbs,
            final(self).rules == old(self).rules,
            final(self).next_id == old(self).next_id,
    {
        self.spawn_timer = Timer::new(self.rules.enemy_spawn_interval, TimerMode::Repeating);
    }

    /// Advances the spawn timer; when it completes and the camera is known,
    /// one enemy appears at a random point just outside the view. Returns the
    /// new enemy's id.
    pub fn tick_spawner(&mut self, delta: u64, camera: Option<CameraView>) -> (r: Option<u64>)
        requires
            old(self).wf(),
            delta <= MAX_DELTA_MS,
            camera matches Some(c) ==> c.wf(),
        ensures
            final(self).wf(),
            final(self).spawn_timer == old(self).spawn_timer.tick_spec(delta),
            match r {
                Some(id) => {
                    &&& final(self).spawn_timer.just_finished_spec()
                    &&& camera is Some
                    &&& id == old(self).next_id
                    &&& final(self).next_id == old(self).next_id + 1
                    &&& final(self).actors@.len() == old(self).actors@.len() + 1
                    &&& final(self).actors@ == old(self).actors@.push(
                        new_enemy_spec(id, final(self).actors@.last().position, Enemy::default_spec()),
                    )
                    &&& exists|horizontal: bool, far: bool, along: u64|
                        along < (if horizontal {
                            camera->Some_0.width
                        } else {
                            camera->Some_0.height
                        }) && final(self).actors@.last().position == camera->Some_0.to_world_spec(
                            spawn_point_spec(
                                camera->Some_0.width,
                                camera->Some_0.height,
                                horizontal,
                                far,
                                along,
                            ),
                        )
                },
                None => {
                    &&& final(self).actors@ == old(self).actors@
                    &&& final(self).next_id == old(self).next_id
                    &&& (final(self).spawn_timer.just_finished_spec() && camera is Some)
                        ==> old(self).next_id == u64::MAX
                },
            },
            final(self).projectiles == old(self).projectiles,
            final(self).orbs == old(self).orbs,
            final(self).rules == old(self).rules,
    {
        self.spawn_timer.tick(delta);
        if self.spawn_timer.just_finished() {
            match camera {
                Some(cam) => {
                    let pos = random_spawn_point(&cam);
                    let ghost a0 = self.actors@;
                    let r = self.spawn_enemy(pos);
                    proof {
                        if r is Some {
                            assert(self.actors@ == a0.push(
                                new_enemy_spec(r->Some_0, pos, Enemy::default_spec()),
                            ));
                        }
                    }
                    r
                },
                None => None,
            }
        } else {
            None
        }
    }
}

} // verus!
