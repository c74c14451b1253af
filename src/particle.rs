use vstd::prelude::*;
use crate::chance::random_below;
use crate::combat::Hit;
use crate::geometry::{Vec2, UNIT, COORD_LIMIT, div_trunc};
use crate::actor::unit_bounded;
use crate::timer::MAX_DELTA_MS;

verus! {

/// Fewest particles a hit throws.
pub const MIN_PARTICLES: u64 = 3;

/// Most particles a hit throws.
pub const MAX_PARTICLES: u64 = 8;

/// Drop of a particle per second under gravity: 9.81 times ten pixels, in
/// thousandths of a pixel.
pub const GRAVITY_DROP: i64 = 98_100;

/// How far below its start a particle may fall before it bounces, in
/// thousandths of a pixel.
pub const GROUND_DEPTH: i64 = 50_000;

/// Largest lifetime of a particle, in milliseconds.
pub const MAX_PARTICLE_LIFETIME: i64 = 4000;

/// Largest velocity component of a particle, in thousandths of a pixel per tick.
pub const MAX_PARTICLE_SPEED: i64 = 1000;

/// A short-lived decorative particle. It moves by `velocity` every tick,
/// falls under gravity, and bounces once it is `GROUND_DEPTH` below where it
/// started. Lifetimes are in milliseconds.
#[derive(Clone, Copy, Debug, PartialEq, Eq, Structural)]
pub struct Particle {
    pub initial_position: Vec2,
    pub position: Vec2,
    pub velocity: Vec2,
    pub max_lifetime: i64,
    pub lifetime: i64,
}

impl Particle {
    pub open spec fn wf(self) -> bool {
        &&& self.initial_position.in_bounds()
        &&& self.position.in_bounds()
        &&& -MAX_PARTICLE_SPEED <= self.velocity.x <= MAX_PARTICLE_SPEED
        &&& -MAX_PARTICLE_SPEED <= self.velocity.y <= MAX_PARTICLE_SPEED
        &&& 0 < self.max_lifetime <= MAX_PARTICLE_LIFETIME
        &&& 0 < self.lifetime <= self.max_lifetime
    }

    /// A resting particle at `position` with a four-second lifetime.
    pub open spec fn default_spec(position: Vec2) -> Particle {
        Particle {
            initial_position: position,
            position,
            velocity: Vec2 { x: 0, y: 0 },
            max_lifetime: MAX_PARTICLE_LIFETIME,
            lifetime: MAX_PARTICLE_LIFETIME,
        }
    }

    /// The particle after a tick of `delta` milliseconds, before the checks
    /// for its end.
    pub open spec fn step_spec(self, delta: u64) -> Particle {
        let floor = self.initial_position.y - GROUND_DEPTH;
        let y = self.position.y + self.velocity.y - GRAVITY_DROP * delta / 1000int;
        let bounced = y < floor;
        Particle {
            position: Vec2 {
                x: (self.position.x + self.velocity.x) as i64,
                y: if bounced {
                    floor as i64
                } else {
                    y as i64
                },
            },
            velocity: Vec2 {
                y: if bounced {
                    -div_trunc(self.velocity.y * 7, 10) as i64
                } else {
                    self.velocity.y
                },
                ..self.velocity
            },
            lifetime: (self.lifetime - delta) as i64,
            ..self
        }
    }

    pub fn new(position: Vec2) -> (r: Particle)
        requires
            position.in_bounds(),
        ensures
            r == Particle::default_spec(position),
            r.wf(),
    {
        Particle {
            initial_position: position,
            position,
            velocity: Vec2::zero(),
            max_lifetime: MAX_PARTICLE_LIFETIME,
            lifetime: MAX_PARTICLE_LIFETIME,
        }
    }

    /// Advances the particle by a tick of `delta` milliseconds. Returns `None`
    /// once its lifetime has run out, or when it has left the world.
    pub fn update(self, delta: u64) -> (r: Option<Particle>)
        requires
            self.wf(),
            delta <= MAX_DELTA_MS,
        ensures
            ({
                let n = self.step_spec(delta);
                if n.lifetime <= 0 || !n.position.in_bounds() {
                    r is None
                } else {
                    r == Some(n) && n.wf()
                }
            }),
    {
        let floor = self.initial_position.y - GROUND_DEPTH;
        let drop = GRAVITY_DROP * (delta as i64) / 1000;
        let y = self.position.y + self.velocity.y - drop;
        let bounced = y < floor;
        let lifetime = self.lifetime - delta as i64;
        let x = self.position.x + self.velocity.x;
        let n = Particle {
            position: Vec2 {
                x,
                y: if bounced {
                    floor
                } else {
                    y
                },
            },
            velocity: Vec2 {
                y: if bounced {
                    bounce_speed(self.velocity.y)
                } else {
                    self.velocity.y
                },
                ..self.velocity
            },
            lifetime,
            ..self
        };
        if lifetime <= 0 || x < -COORD_LIMIT || x > COORD_LIMIT || n.position.y < -COORD_LIMIT
            || n.position.y > COORD_LIMIT {
            None
        } else {
            Some(n)
        }
    }

    /// Opacity in thousandths: what is left of the lifetime.
    pub fn alpha(&self) -> (r: i64)
        requires
            self.wf(),
        ensures
            r == self.lifetime * 1000 / (self.max_lifetime as int),
    {
        self.lifetime * 1000 / self.max_lifetime
    }
}

impl Default for Particle {
    /// A resting particle at the origin.
    fn default() -> (r: Particle)
        ensures
            r == Particle::default_spec(Vec2 { x: 0, y: 0 }),
    {
        Particle::new(Vec2::zero())
    }
}

/// Vertical speed after a bounce: reversed, keeping seven tenths, rounded
/// toward zero.
fn bounce_speed(v: i64) -> (r: i64)
    requires
        -MAX_PARTICLE_SPEED <= v <= MAX_PARTICLE_SPEED,
    ensures
        r == -div_trunc(v * 7, 10),
        -MAX_PARTICLE_SPEED <= r <= MAX_PARTICLE_SPEED,
{
    if v >= 0 {
        -(v * 7 / 10)
    } else {
        (-v) * 7 / 10
    }
}

/// The velocity of a particle thrown along `normal` (at unit scale), spread
/// sideways by `spread` thousandths of three times the tangent, at `speed`
/// thousandths of a pixel per tick.
pub open spec fn throw_spec(normal: Vec2, spread: int, speed: int) -> Vec2 {
    Vec2 {
        x: ((normal.x * UNIT + normal.y * spread * 3) * speed / 1_000_000int) as i64,
        y: ((normal.y * UNIT - normal.x * spread * 3) * speed / 1_000_000int) as i64,
    }
}

fn throw(normal: Vec2, spread: i64, speed: i64) -> (r: Vec2)
    requires
        unit_bounded(normal),
        -1000 <= spread < 1000,
        0 <= speed < 50,
    ensures
        r == throw_spec(normal, spread as int, speed as int),
        -MAX_PARTICLE_SPEED <= r.x <= MAX_PARTICLE_SPEED,
        -MAX_PARTICLE_SPEED <= r.y <= MAX_PARTICLE_SPEED,
{
    proof {
        assert(-4_000_000 <= normal.x * UNIT + normal.y * spread * 3 <= 4_000_000) by (nonlinear_arith)
            requires -1000 <= normal.x <= 1000, -1000 <= normal.y <= 1000, -1000 <= spread <= 1000;
        assert(-4_000_000 <= normal.y * UNIT - normal.x * spread * 3 <= 4_000_000) by (nonlinear_arith)
            requires -1000 <= normal.x <= 1000, -1000 <= normal.y <= 1000, -1000 <= spread <= 1000;
    }
    let a = normal.x * UNIT + normal.y * spread * 3;
    let b = normal.y * UNIT - normal.x * spread * 3;
    proof {
        assert(-200_000_000 <= a * speed <= 200_000_000) by (nonlinear_arith)
            requires -4_000_000 <= a <= 4_000_000, 0 <= speed <= 50;
        assert(-200_000_000 <= b * speed <= 200_000_000) by (nonlinear_arith)
            requires -4_000_000 <= b <= 4_000_000, 0 <= speed <= 50;
    }
    let x = div_toward(a * speed, 1_000_000);
    let y = div_toward(b * speed, 1_000_000);
    Vec2 { x, y }
}

/// `a / d` as the spec language divides (rounding down), within small bounds.
fn div_toward(a: i64, d: i64) -> (r: i64)
    requires
        -200_000_000 <= a <= 200_000_000,
        d == 1_000_000,
    ensures
        r == a / d,
        -MAX_PARTICLE_SPEED <= r <= MAX_PARTICLE_SPEED,
{
    if a >= 0 {
        a / d
    } else {
        let q = (-a) / d;
        if q * d == -a {
            -q
        } else {
            -q - 1
        }
    }
}

/// A particle thrown from `position` along `normal`, with the drawn
/// sideways `spread`, `speed` and `lifetime` (see `throw_spec`).
pub open spec fn thrown_spec(position: Vec2, normal: Vec2, spread: int, speed: int, lifetime: int) -> Particle {
    Particle {
        initial_position: position,
        position,
        velocity: throw_spec(normal, spread, speed),
        max_lifetime: lifetime as i64,
        lifetime: lifetime as i64,
    }
}

/// The particle thrown by a hit for given draws of spread (thousandths, in
/// `-1000..1000`), speed (thousandths of a pixel per tick, in `0..50`) and
/// lifetime (milliseconds).
pub fn thrown_particle(position: Vec2, normal: Vec2, spread: i64, speed: i64, lifetime: i64) -> (r: Particle)
    requires
        position.in_bounds(),
        unit_bounded(normal),
        -1000 <= spread < 1000,
        0 <= speed < 50,
        0 < lifetime <= MAX_PARTICLE_LIFETIME,
    ensures
        r == thrown_spec(position, normal, spread as int, speed as int, lifetime as int),
        r.wf(),
{
    let velocity = throw(normal, spread, speed);
    Particle { initial_position: position, position, velocity, max_lifetime: lifetime, lifetime }
}

/// Particles thrown off by a hit on an enemy: between `MIN_PARTICLES` and
/// `MAX_PARTICLES` of them at the hit position, each moving along the contact
/// normal with a random sideways spread and speed, and living from 300 to
/// 800 milliseconds.
pub fn hit_particles(hit: &Hit) -> (r: Vec<Particle>)
    requires
        hit.position.in_bounds(),
        unit_bounded(hit.normal),
    ensures
        MIN_PARTICLES <= r@.len() <= MAX_PARTICLES,
        forall|i: int|
            0 <= i < r@.len() ==> {
                let p = #[trigger] r@[i];
                &&& p.wf()
                &&& exists|spread: int, speed: int, lifetime: int|
                    -1000 <= spread < 1000 && 0 <= speed < 50 && 300 <= lifetime < 800 && p
                        == thrown_spec(hit.position, hit.normal, spread, speed, lifetime)
            },
{
    let count = MIN_PARTICLES + random_below(MAX_PARTICLES - MIN_PARTICLES + 1);
    let mut r: Vec<Particle> = Vec::new();
    let mut i: u64 = 0;
    while i < count
        invariant
            i <= count <= MAX_PARTICLES,
            r@.len() == i,
            hit.position.in_bounds(),
            unit_bounded(hit.normal),
            forall|k: int|
                0 <= k < r@.len() ==> {
                    let p = #[trigger] r@[k];
                    &&& p.wf()
                    &&& exists|spread: int, speed: int, lifetime: int|
                        -1000 <= spread < 1000 && 0 <= speed < 50 && 300 <= lifetime < 800 && p
                            == thrown_spec(hit.position, hit.normal, spread, speed, lifetime)
                },
        decreases count - i,
    {
        let spread = random_below(2000) as i64 - 1000;
        let speed = random_below(50) as i64;
        let lifetime = 300 + random_below(500) as i64;
        let p = thrown_particle(hit.position, hit.normal, spread, speed, lifetime);
        r.push(p);
        i = i + 1;
    }
    r
}

} // verus!
