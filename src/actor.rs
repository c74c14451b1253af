use vstd::prelude::*;
use crate::geometry::{Vec2, UNIT};
use crate::timer::{Timer, TimerMode, MAX_DELTA_MS};

verus! {

/// How long a hurt window stays open before its damage lands, in milliseconds.
pub const HURT_DURATION_MS: u64 = 100;

/// Distance under which an enemy switches to its attack, in pixels.
pub const ATTACK_RADIUS: i64 = 60;

/// Largest health an actor may be given.
pub const MAX_HEALTH: i64 = 0x100_0000_0000;

/// Lowest value that health can reach: one hit on an actor with health left.
pub const MIN_HEALTH: i64 = -0x1_0000_0000;

/// Largest stat value (size, speed), in pixels or pixels per second.
pub const MAX_STAT: i64 = 0x100_0000;

/// Health of an actor. `current` may fall to zero or below before the actor
/// is marked dead.
#[derive(Clone, Copy, Debug, PartialEq, Eq, Structural)]
pub struct Health {
    pub max: i64,
    pub current: i64,
}

/// An open hurt window: the pending damage and the countdown until it lands.
#[derive(Clone, Copy, Debug, PartialEq, Eq, Structural)]
pub struct Hurting {
    pub damage: u32,
    pub timer: Timer,
}

/// First and last frame of an animation in a sprite sheet.
#[derive(Clone, Copy, Debug, PartialEq, Eq, Structural)]
pub struct AnimationIndices {
    pub first: u64,
    pub last: u64,
}

#[derive(Clone, Copy, Debug, PartialEq, Eq, Structural)]
pub struct EnemyState {
    pub moving: bool,
    pub attack: bool,
    pub facing: Vec2,
}

/// Stats of an enemy: sprite scale and speed in pixels per second.
#[derive(Clone, Copy, Debug, PartialEq, Eq, Structural)]
pub struct EnemyStats {
    pub size: i64,
    pub move_speed: i64,
}

#[derive(Clone, Copy, Debug, PartialEq, Eq, Structural)]
pub struct Enemy {
    pub idle: AnimationIndices,
    pub walk: AnimationIndices,
    pub state: EnemyState,
    pub stats: EnemyStats,
}

#[derive(Clone, Copy, Debug, PartialEq, Eq, Structural)]
pub struct PlayerState {
    pub moving: bool,
    pub facing: Vec2,
}

/// Stats of the player. `shot_speed` is the least time between two shots, in
/// milliseconds; speeds are in pixels per second.
#[derive(Clone, Copy, Debug, PartialEq, Eq, Structural)]
pub struct PlayerStats {
    pub size: i64,
    pub shot_speed: u64,
    pub bullet_speed: i64,
    pub bullet_damage: u32,
    pub move_speed: i64,
}

#[derive(Clone, Copy, Debug, PartialEq, Eq, Structural)]
pub struct Player {
    pub idle: AnimationIndices,
    pub walk: AnimationIndices,
    pub state: PlayerState,
    pub stats: PlayerStats,
    pub shoot_timer: Timer,
}

/// What an actor is, with the data of its kind.
#[derive(Clone, Copy, Debug, PartialEq, Eq, Structural)]
pub enum Role {
    Player(Player),
    Enemy(Enemy),
}

/// A player or an enemy in the simulation.
///
/// `dead` is the dead marker: once set it stays set, and the actor has no
/// collider from then on.
#[derive(Clone, Copy, Debug, PartialEq, Eq, Structural)]
pub struct Actor {
    pub id: u64,
    pub role: Role,
    pub position: Vec2,
    pub velocity: Vec2,
    pub health: Health,
    pub hurting: Option<Hurting>,
    pub dead: bool,
    pub has_collider: bool,
}

/// Which animation clip an actor shows.
#[derive(Clone, Copy, Debug, PartialEq, Eq, Structural)]
pub enum MoveState {
    Idle,
    Moving,
    Attacking,
    Dying,
}

/// Directional input of one tick.
#[derive(Clone, Copy, Debug, PartialEq, Eq, Structural)]
pub struct MoveInput {
    pub up: bool,
    pub down: bool,
    pub left: bool,
    pub right: bool,
}

/// Colour a sprite is drawn with.
#[derive(Clone, Copy, Debug, PartialEq, Eq, Structural)]
pub enum SpriteTint {
    White,
    Red,
}

pub open spec fn zero_vec() -> Vec2 {
    Vec2 { x: 0, y: 0 }
}

pub open spec fn unit_bounded(v: Vec2) -> bool {
    -UNIT <= v.x <= UNIT && -UNIT <= v.y <= UNIT
}

/// `v * s`, component by component.
pub open spec fn scale_spec(v: Vec2, s: i64) -> Vec2 {
    Vec2 { x: (v.x * s) as i64, y: (v.y * s) as i64 }
}

pub open spec fn stats_ok(size: i64, speed: i64) -> bool {
    0 <= size <= MAX_STAT && 0 <= speed <= MAX_STAT
}

impl Hurting {
    pub open spec fn wf(self) -> bool {
        &&& self.timer.wf()
        &&& self.timer.mode == TimerMode::Once
        &&& self.timer.duration == HURT_DURATION_MS
        &&& !self.timer.finished
    }
}

impl Actor {
    pub open spec fn is_enemy(self) -> bool {
        self.role is Enemy
    }

    pub open spec fn is_player(self) -> bool {
        self.role is Player
    }

    pub open spec fn wf(self) -> bool {
        &&& MIN_HEALTH <= self.health.current <= self.health.max <= MAX_HEALTH
        &&& self.position.in_bounds()
        &&& (self.hurting matches Some(h) ==> h.wf() && self.health.current > 0)
        &&& (self.dead ==> !self.has_collider && self.health.current <= 0)
        &&& match self.role {
            Role::Player(p) => stats_ok(p.stats.size, p.stats.move_speed) && 0
                <= p.stats.bullet_speed <= MAX_STAT && unit_bounded(p.state.facing)
                && p.shoot_timer.wf() && p.shoot_timer.mode == TimerMode::Once,
            Role::Enemy(e) => stats_ok(e.stats.size, e.stats.move_speed) && unit_bounded(
                e.state.facing,
            ),
        }
    }

    /// The actor has no health left.
    pub open spec fn depleted(self) -> bool {
        self.health.current <= 0
    }

    /// The actor can still be hit: it has a collider and health left.
    pub open spec fn hittable(self) -> bool {
        !self.dead && self.has_collider && self.health.current > 0
    }

    /// A contact carrying `damage` opens a hurt window, or replaces the pending
    /// damage of the one already open; its countdown keeps running.
    pub open spec fn start_hurt_spec(self, damage: u32) -> Actor {
        Actor {
            hurting: Some(
                match self.hurting {
                    Some(h) => Hurting { damage, ..h },
                    None => Hurting {
                        damage,
                        timer: Timer::fresh(HURT_DURATION_MS, TimerMode::Once),
                    },
                },
            ),
            ..self
        }
    }

    /// One tick of the hurt window: the pending damage lands on the tick its
    /// countdown finishes, and the window closes on that same tick.
    pub open spec fn hurt_tick_spec(self, delta: u64) -> Actor {
        match self.hurting {
            None => self,
            Some(h) => {
                let t = h.timer.tick_spec(delta);
                let current = if t.just_finished_spec() {
                    (self.health.current - h.damage) as i64
                } else {
                    self.health.current
                };
                Actor {
                    health: Health { current, ..self.health },
                    hurting: if t.finished {
                        None
                    } else {
                        Some(Hurting { timer: t, ..h })
                    },
                    ..self
                }
            },
        }
    }

    /// The transition to dying: taken once, by a live actor without health.
    pub open spec fn kill_spec(self) -> Actor {
        if !self.dead && self.depleted() {
            Actor { dead: true, has_collider: false, velocity: zero_vec(), ..self }
        } else {
            self
        }
    }

    /// Steering of an enemy toward the player at `target`.
    pub open spec fn steer_enemy_spec(self, target: Vec2) -> Actor {
        match self.role {
            Role::Enemy(e) => {
                let dir = target.sub_spec(self.position);
                let n = dir.normalize_spec();
                let state = EnemyState {
                    moving: n != zero_vec(),
                    attack: dir.len_spec() < ATTACK_RADIUS * UNIT,
                    facing: n,
                };
                Actor {
                    role: Role::Enemy(Enemy { state, ..e }),
                    velocity: if self.health.current > 0 {
                        scale_spec(n, e.stats.move_speed)
                    } else {
                        zero_vec()
                    },
                    ..self
                }
            },
            Role::Player(_) => self,
        }
    }

    /// Steering of the player from the input of one tick; a dead player does
    /// not move.
    pub open spec fn steer_player_spec(self, input: MoveInput) -> Actor {
        match self.role {
            Role::Player(p) => if self.dead {
                self
            } else {
                let intent = intent_spec(input);
                let n = intent.normalize_spec();
                let fx = axis(input.left, input.right);
                let facing = if fx == 0 {
                    p.state.facing
                } else {
                    Vec2 { x: (fx * UNIT) as i64, ..p.state.facing }
                };
                Actor {
                    role: Role::Player(
                        Player { state: PlayerState { moving: intent != zero_vec(), facing }, ..p },
                    ),
                    velocity: scale_spec(n, p.stats.move_speed),
                    ..self
                }
            },
            Role::Enemy(_) => self,
        }
    }

    /// Enemies stand still while the game is paused for an upgrade.
    pub open spec fn pause_spec(self) -> Actor {
        match self.role {
            Role::Enemy(e) => Actor {
                role: Role::Enemy(
                    Enemy { state: EnemyState { moving: false, attack: false, ..e.state }, ..e },
                ),
                velocity: zero_vec(),
                ..self
            },
            Role::Player(_) => self,
        }
    }

    pub open spec fn move_state_spec(self) -> MoveState {
        if self.depleted() {
            MoveState::Dying
        } else {
            match self.role {
                Role::Enemy(e) => if e.state.attack {
                    MoveState::Attacking
                } else if e.state.moving {
                    MoveState::Moving
                } else {
                    MoveState::Idle
                },
                Role::Player(p) => if p.state.moving {
                    MoveState::Moving
                } else {
                    MoveState::Idle
                },
            }
        }
    }
}

/// `+1`, `-1` or `0` from a pair of opposite flags.
pub open spec fn axis(neg: bool, pos: bool) -> int {
    (if pos {
        1int
    } else {
        0int
    }) - (if neg {
        1int
    } else {
        0int
    })
}

/// The movement intent of an input, each axis at `UNIT` scale.
pub open spec fn intent_spec(input: MoveInput) -> Vec2 {
    Vec2 {
        x: (axis(input.left, input.right) * UNIT) as i64,
        y: (axis(input.down, input.up) * UNIT) as i64,
    }
}

fn axis_exec(neg: bool, pos: bool) -> (r: i64)
    ensures
        r == axis(neg, pos),
{
    let p: i64 = if pos {
        1
    } else {
        0
    };
    let n: i64 = if neg {
        1
    } else {
        0
    };
    p - n
}

/// `v * s` for a direction `v` at unit scale.
pub fn scale(v: Vec2, s: i64) -> (r: Vec2)
    requires
        unit_bounded(v),
        0 <= s <= MAX_STAT,
    ensures
        r == scale_spec(v, s),
{
    proof {
        assert(-UNIT * MAX_STAT <= v.x * s <= UNIT * MAX_STAT) by (nonlinear_arith)
            requires -UNIT <= v.x <= UNIT, 0 <= s <= MAX_STAT;
        assert(-UNIT * MAX_STAT <= v.y * s <= UNIT * MAX_STAT) by (nonlinear_arith)
            requires -UNIT <= v.y <= UNIT, 0 <= s <= MAX_STAT;
    }
    Vec2 { x: v.x * s, y: v.y * s }
}

impl Enemy {
    /// A fresh enemy: size 5, 100 pixels per second, facing right.
    pub open spec fn default_spec() -> Enemy {
        Enemy {
            idle: AnimationIndices { first: 321, last: 321 },
            walk: AnimationIndices { first: 322, last: 324 },
            state: EnemyState { moving: false, facing: Vec2 { x: UNIT, y: 0 }, attack: false },
            stats: EnemyStats { size: 5, move_speed: 100 },
        }
    }

    pub fn new() -> (r: Enemy)
        ensures
            r == Enemy::default_spec(),
    {
        Enemy {
            idle: AnimationIndices { first: 321, last: 321 },
            walk: AnimationIndices { first: 322, last: 324 },
            state: EnemyState { moving: false, facing: Vec2 { x: UNIT, y: 0 }, attack: false },
            stats: EnemyStats { size: 5, move_speed: 100 },
        }
    }
}

impl Default for Enemy {
    fn default() -> (r: Enemy)
        ensures
            r == Enemy::default_spec(),
    {
        Enemy::new()
    }
}

impl Player {
    /// A fresh player: size 5, a shot every 400 ms, 300 pixels per second.
    pub open spec fn default_spec() -> Player {
        Player {
            idle: AnimationIndices { first: 6, last: 7 },
            walk: AnimationIndices { first: 0, last: 3 },
            state: PlayerState { moving: false, facing: Vec2 { x: UNIT, y: 0 } },
            stats: PlayerStats {
                size: 5,
                shot_speed: 400,
                move_speed: 300,
                bullet_speed: 500,
                bullet_damage: 1,
            },
            shoot_timer: Timer::fresh(400, TimerMode::Once),
        }
    }

    pub fn new() -> (r: Player)
        ensures
            r == Player::default_spec(),
    {
        Player {
            idle: AnimationIndices { first: 6, last: 7 },
            walk: AnimationIndices { first: 0, last: 3 },
            state: PlayerState { moving: false, facing: Vec2 { x: UNIT, y: 0 } },
            stats: PlayerStats {
                size: 5,
                shot_speed: 400,
                move_speed: 300,
                bullet_speed: 500,
                bullet_damage: 1,
            },
            shoot_timer: Timer::new(400, TimerMode::Once),
        }
    }
}

impl Default for Player {
    fn default() -> (r: Player)
        ensures
            r == Player::default_spec(),
    {
        Player::new()
    }
}

impl Actor {
    pub fn is_enemy_exec(&self) -> (r: bool)
        ensures
            r == self.is_enemy(),
    {
        match self.role {
            Role::Enemy(_) => true,
            Role::Player(_) => false,
        }
    }

    pub fn is_player_exec(&self) -> (r: bool)
        ensures
            r == self.is_player(),
    {
        match self.role {
            Role::Player(_) => true,
            Role::Enemy(_) => false,
        }
    }

    pub fn is_hittable(&self) -> (r: bool)
        ensures
            r == self.hittable(),
    {
        !self.dead && self.has_collider && self.health.current > 0
    }

    /// Opens a hurt window carrying `damage`, or replaces the pending damage.
    pub fn start_hurt(self, damage: u32) -> (r: Actor)
        requires
            self.wf(),
            self.health.current > 0,
        ensures
            r == self.start_hurt_spec(damage),
            r.wf(),
    {
        let h = match self.hurting {
            Some(h) => Hurting { damage, ..h },
            None => Hurting { damage, timer: Timer::new(HURT_DURATION_MS, TimerMode::Once) },
        };
        Actor { hurting: Some(h), ..self }
    }

    /// Advances the hurt window by `delta` milliseconds.
    pub fn hurt_tick(self, delta: u64) -> (r: Actor)
        requires
            self.wf(),
            delta <= MAX_DELTA_MS,
        ensures
            r == self.hurt_tick_spec(delta),
            r.wf(),
            r.health.max == self.health.max,
            r.dead == self.dead,
            r.id == self.id,
    {
        match self.hurting {
            None => self,
            Some(h) => {
                let mut t = h.timer;
                t.tick(delta);
                let current = if t.just_finished() {
                    self.health.current - h.damage as i64
                } else {
                    self.health.current
                };
                let hurting = if t.is_finished() {
                    None
                } else {
                    Some(Hurting { timer: t, ..h })
                };
                Actor { health: Health { current, ..self.health }, hurting, ..self }
            },
        }
    }

    /// Marks an actor without health as dead, strips its collider and stops it.
    pub fn kill(self) -> (r: Actor)
        requires
            self.wf(),
        ensures
            r == self.kill_spec(),
            r.wf(),
    {
        if !self.dead && self.health.current <= 0 {
            Actor { dead: true, has_collider: false, velocity: Vec2::zero(), ..self }
        } else {
            self
        }
    }

    /// Points an enemy at the player, switching to attack when close.
    pub fn steer_enemy(self, target: Vec2) -> (r: Actor)
        requires
            self.wf(),
            target.in_bounds(),
        ensures
            r == self.steer_enemy_spec(target),
            r.wf(),
    {
        match self.role {
            Role::Enemy(e) => {
                let dir = target.sub(&self.position);
                let n = dir.normalize();
                let dist = dir.length();
                let state = EnemyState {
                    moving: !(n.x == 0 && n.y == 0),
                    attack: dist < (ATTACK_RADIUS * UNIT) as u64,
                    facing: n,
                };
                let velocity = if self.health.current > 0 {
                    scale(n, e.stats.move_speed)
                } else {
                    Vec2::zero()
                };
                Actor { role: Role::Enemy(Enemy { state, ..e }), velocity, ..self }
            },
            Role::Player(_) => self,
        }
    }

    /// Moves the player by its directional input.
    pub fn steer_player(self, input: MoveInput) -> (r: Actor)
        requires
            self.wf(),
        ensures
            r == self.steer_player_spec(input),
            r.wf(),
    {
        match self.role {
            Role::Player(p) => {
                if self.dead {
                    self
                } else {
                    let fx = axis_exec(input.left, input.right);
                    let fy = axis_exec(input.down, input.up);
                    let intent = Vec2 { x: fx * UNIT, y: fy * UNIT };
                    let n = intent.normalize();
                    let facing = if fx == 0 {
                        p.state.facing
                    } else {
                        Vec2 { x: fx * UNIT, ..p.state.facing }
                    };
                    let moving = !(intent.x == 0 && intent.y == 0);
                    let velocity = scale(n, p.stats.move_speed);
                    Actor {
                        role: Role::Player(
                            Player { state: PlayerState { moving, facing }, ..p },
                        ),
                        velocity,
                        ..self
                    }
                }
            },
            Role::Enemy(_) => self,
        }
    }

    /// Stops an enemy and clears its moving and attack flags.
    pub fn pause(self) -> (r: Actor)
        requires
            self.wf(),
        ensures
            r == self.pause_spec(),
            r.wf(),
    {
        match self.role {
            Role::Enemy(e) => Actor {
                role: Role::Enemy(
                    Enemy { state: EnemyState { moving: false, attack: false, ..e.state }, ..e },
                ),
                velocity: Vec2::zero(),
                ..self
            },
            Role::Player(_) => self,
        }
    }

    /// The clip the animation collaborator should play.
    pub fn move_state(&self) -> (r: MoveState)
        ensures
            r == self.move_state_spec(),
    {
        if self.health.current <= 0 {
            MoveState::Dying
        } else {
            match self.role {
                Role::Enemy(e) => if e.state.attack {
                    MoveState::Attacking
                } else if e.state.moving {
                    MoveState::Moving
                } else {
                    MoveState::Idle
                },
                Role::Player(p) => if p.state.moving {
                    MoveState::Moving
                } else {
                    MoveState::Idle
                },
            }
        }
    }

    /// Index of the clip in the actor's sprite sheet.
    pub fn anim_index(&self) -> (r: u64)
        ensures
            r == match self.move_state_spec() {
                MoveState::Dying => 4u64,
                MoveState::Attacking => 2u64,
                MoveState::Moving => 0u64,
                MoveState::Idle => if self.is_enemy() {
                    1u64
                } else {
                    2u64
                },
            },
    {
        match self.move_state() {
            MoveState::Dying => 4,
            MoveState::Attacking => 2,
            MoveState::Moving => 0,
            MoveState::Idle => if self.is_enemy_exec() {
                1
            } else {
                2
            },
        }
    }

    /// Horizontal sprite scale: the sprite is mirrored when the actor faces left.
    pub fn sprite_scale_x(&self) -> (r: i64)
        requires
            self.wf(),
        ensures
            ({
                let (facing, size) = match self.role {
                    Role::Enemy(e) => (e.state.facing, e.stats.size),
                    Role::Player(p) => (p.state.facing, p.stats.size),
                };
                r == if facing.x < 0 {
                    -size
                } else {
                    size as int
                }
            }),
    {
        let (facing, size) = match self.role {
            Role::Enemy(e) => (e.state.facing, e.stats.size),
            Role::Player(p) => (p.state.facing, p.stats.size),
        };
        if facing.x < 0 {
            -size
        } else {
            size
        }
    }

    /// Red while a hurt window is open, white otherwise.
    pub fn tint(&self) -> (r: SpriteTint)
        ensures
            r == (if self.hurting.is_some() {
                SpriteTint::Red
            } else {
                SpriteTint::White
            }),
    {
        if self.hurting.is_some() {
            SpriteTint::Red
        } else {
            SpriteTint::White
        }
    }
}

} // verus!
