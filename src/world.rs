use vstd::prelude::*;
use crate::actor::{Actor, Enemy, Health, Player, Role, MAX_STAT, unit_bounded};
use crate::geometry::Vec2;
use crate::progression::GameRules;
use crate::timer::{Timer, TimerMode};

verus! {

/// Health of a freshly spawned enemy.
pub const ENEMY_HEALTH: i64 = 10;

/// Health of a freshly spawned player.
pub const PLAYER_HEALTH: i64 = 3;

/// A bullet's flight parameters: a direction at unit scale, a speed in pixels
/// per second, a size in pixels and the damage it deals.
#[derive(Clone, Copy, Debug, PartialEq, Eq, Structural)]
pub struct Bullet {
    pub direction: Vec2,
    pub speed: i64,
    pub size: i64,
    pub damage: u32,
}

/// A bullet in flight, removed when its despawn timer runs out or when it hits.
#[derive(Clone, Copy, Debug, PartialEq, Eq, Structural)]
pub struct Projectile {
    pub id: u64,
    pub bullet: Bullet,
    pub position: Vec2,
    pub velocity: Vec2,
    pub despawn_timer: Timer,
}

/// Stage of an experience orb. A collected orb leaves the world.
#[derive(Clone, Copy, Debug, PartialEq, Eq, Structural)]
pub enum OrbState {
    Free,
    Attracted,
}

/// An experience pickup; `scale` is in thousandths.
#[derive(Clone, Copy, Debug, PartialEq, Eq, Structural)]
pub struct XpOrb {
    pub id: u64,
    pub amount: u32,
    pub position: Vec2,
    pub scale: i64,
    pub state: OrbState,
}

/// A request to drop experience where an enemy died.
#[derive(Clone, Copy, Debug, PartialEq, Eq, Structural)]
pub struct XPDropEvent {
    pub amount: u32,
    pub location: Vec2,
}

/// Everything the simulation owns. Entities are kept in arenas and named by
/// ids that are never reused.
pub struct World {
    pub actors: Vec<Actor>,
    pub projectiles: Vec<Projectile>,
    pub orbs: Vec<XpOrb>,
    pub rules: GameRules,
    pub spawn_timer: Timer,
    pub next_id: u64,
}

impl Projectile {
    pub open spec fn wf(self) -> bool {
        &&& unit_bounded(self.bullet.direction)
        &&& 0 <= self.bullet.speed <= MAX_STAT
        &&& self.despawn_timer.wf()
        &&& self.despawn_timer.mode == TimerMode::Once
    }
}

impl XpOrb {
    pub open spec fn wf(self) -> bool {
        self.position.in_bounds()
    }
}

/// `i` is the first index of `s` whose actor has id `id`.
pub open spec fn first_actor(s: Seq<Actor>, id: u64, i: int) -> bool {
    0 <= i < s.len() && s[i].id == id && forall|k: int| 0 <= k < i ==> s[k].id != id
}

/// Index of the first actor with id `id`, or `-1`.
pub open spec fn actor_index(s: Seq<Actor>, id: u64) -> int {
    if exists|i: int| first_actor(s, id, i) {
        choose|i: int| first_actor(s, id, i)
    } else {
        -1
    }
}

pub open spec fn first_projectile(s: Seq<Projectile>, id: u64, i: int) -> bool {
    0 <= i < s.len() && s[i].id == id && forall|k: int| 0 <= k < i ==> s[k].id != id
}

/// Index of the first projectile with id `id`, or `-1`.
pub open spec fn projectile_index(s: Seq<Projectile>, id: u64) -> int {
    if exists|i: int| first_projectile(s, id, i) {
        choose|i: int| first_projectile(s, id, i)
    } else {
        -1
    }
}

/// `i` is the first index of an actor that is the player.
pub open spec fn first_player(s: Seq<Actor>, i: int) -> bool {
    0 <= i < s.len() && s[i].is_player() && forall|k: int| 0 <= k < i ==> !s[k].is_player()
}

/// Index of the player, or `-1` when there is none.
pub open spec fn player_index(s: Seq<Actor>) -> int {
    if exists|i: int| first_player(s, i) {
        choose|i: int| first_player(s, i)
    } else {
        -1
    }
}

pub open spec fn actors_wf(s: Seq<Actor>) -> bool {
    forall|i: int| 0 <= i < s.len() ==> #[trigger] s[i].wf()
}

pub open spec fn projectiles_wf(s: Seq<Projectile>) -> bool {
    forall|i: int| 0 <= i < s.len() ==> #[trigger] s[i].wf()
}

pub open spec fn orbs_wf(s: Seq<XpOrb>) -> bool {
    forall|i: int| 0 <= i < s.len() ==> #[trigger] s[i].wf()
}

/// A freshly spawned enemy at `position`.
pub open spec fn new_enemy_spec(id: u64, position: Vec2, e: Enemy) -> Actor {
    Actor {
        id,
        role: Role::Enemy(e),
        position,
        velocity: Vec2 { x: 0, y: 0 },
        health: Health { max: ENEMY_HEALTH, current: ENEMY_HEALTH },
        hurting: None,
        dead: false,
        has_collider: true,
    }
}

/// A freshly spawned player at `position`.
pub open spec fn new_player_spec(id: u64, position: Vec2, p: Player) -> Actor {
    Actor {
        id,
        role: Role::Player(p),
        position,
        velocity: Vec2 { x: 0, y: 0 },
        health: Health { max: PLAYER_HEALTH, current: PLAYER_HEALTH },
        hurting: None,
        dead: false,
        has_collider: true,
    }
}

/// The actors have distinct ids, all handed out before `next`.
pub open spec fn actor_ids_ok(s: Seq<Actor>, next: u64) -> bool {
    &&& forall|i: int| 0 <= i < s.len() ==> #[trigger] s[i].id < next
    &&& forall|i: int, j: int|
        0 <= i < s.len() && 0 <= j < s.len() && i != j ==> #[trigger] s[i].id != #[trigger] s[j].id
}

pub proof fn lemma_actor_ids_update(s: Seq<Actor>, i: int, x: Actor, next: u64)
    requires
        actor_ids_ok(s, next),
        0 <= i < s.len(),
        x.id == s[i].id,
    ensures
        actor_ids_ok(s.update(i, x), next),
{
    let t = s.update(i, x);
    assert forall|k: int| 0 <= k < t.len() implies #[trigger] t[k].id == s[k].id by {}
}

pub proof fn lemma_actor_ids_remove(s: Seq<Actor>, i: int, next: u64)
    requires
        actor_ids_ok(s, next),
        0 <= i < s.len(),
    ensures
        actor_ids_ok(s.remove(i), next),
{
    let t = s.remove(i);
    assert forall|k: int| 0 <= k < t.len() implies #[trigger] t[k].id == s[if k < i { k } else { k + 1 }].id by {}
    assert forall|a: int, b: int|
        0 <= a < t.len() && 0 <= b < t.len() && a != b implies #[trigger] t[a].id != #[trigger] t[b].id by {
        let a2 = if a < i { a } else { a + 1 };
        let b2 = if b < i { b } else { b + 1 };
        assert(t[a].id == s[a2].id && t[b].id == s[b2].id);
    }
}

pub proof fn lemma_actor_ids_push(s: Seq<Actor>, x: Actor, next: u64, bigger: u64)
    requires
        actor_ids_ok(s, next),
        x.id >= next,
        x.id < bigger,
        next <= bigger,
    ensures
        actor_ids_ok(s.push(x), bigger),
{
    let t = s.push(x);
    assert forall|k: int| 0 <= k < s.len() implies #[trigger] t[k] == s[k] by {}
}

pub proof fn lemma_actor_ids_grow(s: Seq<Actor>, next: u64, bigger: u64)
    requires
        actor_ids_ok(s, next),
        next <= bigger,
    ensures
        actor_ids_ok(s, bigger),
{
}

/// The projectiles have distinct ids, all handed out before `next`.
pub open spec fn projectile_ids_ok(s: Seq<Projectile>, next: u64) -> bool {
    &&& forall|i: int| 0 <= i < s.len() ==> #[trigger] s[i].id < next
    &&& forall|i: int, j: int|
        0 <= i < s.len() && 0 <= j < s.len() && i != j ==> #[trigger] s[i].id != #[trigger] s[j].id
}

pub proof fn lemma_projectile_ids_update(s: Seq<Projectile>, i: int, x: Projectile, next: u64)
    requires
        projectile_ids_ok(s, next),
        0 <= i < s.len(),
        x.id == s[i].id,
    ensures
        projectile_ids_ok(s.update(i, x), next),
{
    let t = s.update(i, x);
    assert forall|k: int| 0 <= k < t.len() implies #[trigger] t[k].id == s[k].id by {}
}

pub proof fn lemma_projectile_ids_remove(s: Seq<Projectile>, i: int, next: u64)
    requires
        projectile_ids_ok(s, next),
        0 <= i < s.len(),
    ensures
        projectile_ids_ok(s.remove(i), next),
{
    let t = s.remove(i);
    assert forall|k: int| 0 <= k < t.len() implies #[trigger] t[k].id == s[if k < i { k } else { k + 1 }].id by {}
    assert forall|a: int, b: int|
        0 <= a < t.len() && 0 <= b < t.len() && a != b implies #[trigger] t[a].id != #[trigger] t[b].id by {
        let a2 = if a < i { a } else { a + 1 };
        let b2 = if b < i { b } else { b + 1 };
        assert(t[a].id == s[a2].id && t[b].id == s[b2].id);
    }
}

pub proof fn lemma_projectile_ids_push(s: Seq<Projectile>, x: Projectile, next: u64, bigger: u64)
    requires
        projectile_ids_ok(s, next),
        x.id >= next,
        x.id < bigger,
        next <= bigger,
    ensures
        projectile_ids_ok(s.push(x), bigger),
{
    let t = s.push(x);
    assert forall|k: int| 0 <= k < s.len() implies #[trigger] t[k] == s[k] by {}
}

pub proof fn lemma_projectile_ids_grow(s: Seq<Projectile>, next: u64, bigger: u64)
    requires
        projectile_ids_ok(s, next),
        next <= bigger,
    ensures
        projectile_ids_ok(s, bigger),
{
}

/// The orbs have distinct ids, all handed out before `next`.
pub open spec fn orb_ids_ok(s: Seq<XpOrb>, next: u64) -> bool {
    &&& forall|i: int| 0 <= i < s.len() ==> #[trigger] s[i].id < next
    &&& forall|i: int, j: int|
        0 <= i < s.len() && 0 <= j < s.len() && i != j ==> #[trigger] s[i].id != #[trigger] s[j].id
}

pub proof fn lemma_orb_ids_update(s: Seq<XpOrb>, i: int, x: XpOrb, next: u64)
    requires
        orb_ids_ok(s, next),
        0 <= i < s.len(),
        x.id == s[i].id,
    ensures
        orb_ids_ok(s.update(i, x), next),
{
    let t = s.update(i, x);
    assert forall|k: int| 0 <= k < t.len() implies #[trigger] t[k].id == s[k].id by {}
}

pub proof fn lemma_orb_ids_remove(s: Seq<XpOrb>, i: int, next: u64)
    requires
        orb_ids_ok(s, next),
        0 <= i < s.len(),
    ensures
        orb_ids_ok(s.remove(i), next),
{
    let t = s.remove(i);
    assert forall|k: int| 0 <= k < t.len() implies #[trigger] t[k].id == s[if k < i { k } else { k + 1 }].id by {}
    assert forall|a: int, b: int|
        0 <= a < t.len() && 0 <= b < t.len() && a != b implies #[trigger] t[a].id != #[trigger] t[b].id by {
        let a2 = if a < i { a } else { a + 1 };
        let b2 = if b < i { b } else { b + 1 };
        assert(t[a].id == s[a2].id && t[b].id == s[b2].id);
    }
}

pub proof fn lemma_orb_ids_push(s: Seq<XpOrb>, x: XpOrb, next: u64, bigger: u64)
    requires
        orb_ids_ok(s, next),
        x.id >= next,
        x.id < bigger,
        next <= bigger,
    ensures
        orb_ids_ok(s.push(x), bigger),
{
    let t = s.push(x);
    assert forall|k: int| 0 <= k < s.len() implies #[trigger] t[k] == s[k] by {}
}

pub proof fn lemma_orb_ids_grow(s: Seq<XpOrb>, next: u64, bigger: u64)
    requires
        orb_ids_ok(s, next),
        next <= bigger,
    ensures
        orb_ids_ok(s, bigger),
{
}

/// The contents of a world, as values.
pub struct WorldState {
    pub actors: Seq<Actor>,
    pub projectiles: Seq<Projectile>,
    pub orbs: Seq<XpOrb>,
    pub rules: GameRules,
    pub spawn_timer: Timer,
    pub next_id: u64,
}

impl World {
    pub open spec fn state(&self) -> WorldState {
        WorldState {
            actors: self.actors@,
            projectiles: self.projectiles@,
            orbs: self.orbs@,
            rules: self.rules,
            spawn_timer: self.spawn_timer,
            next_id: self.next_id,
        }
    }

    /// Well-formedness apart from the tie between the spawn timer and the
    /// spawn interval, which a level-up breaks until the spawner restarts.
    pub open spec fn wf_parts(self) -> bool {
        &&& actors_wf(self.actors@)
        &&& projectiles_wf(self.projectiles@)
        &&& orbs_wf(self.orbs@)
        &&& actor_ids_ok(self.actors@, self.next_id)
        &&& projectile_ids_ok(self.projectiles@, self.next_id)
        &&& orb_ids_ok(self.orbs@, self.next_id)
        &&& self.rules.wf()
        &&& self.spawn_timer.wf()
        &&& self.spawn_timer.mode == TimerMode::Repeating
    }

    pub open spec fn wf(self) -> bool {
        &&& self.wf_parts()
        &&& self.spawn_timer.duration == self.rules.enemy_spawn_interval
    }

    /// An empty world at the start of a game.
    pub fn new() -> (r: World)
        ensures
            r.wf(),
            r.actors@.len() == 0,
            r.projectiles@.len() == 0,
            r.orbs@.len() == 0,
            r.rules == crate::progression::start_rules(),
            r.spawn_timer == Timer::fresh(r.rules.enemy_spawn_interval, TimerMode::Repeating),
            r.next_id == 0,
    {
        let rules = GameRules::new();
        World {
            actors: Vec::new(),
            projectiles: Vec::new(),
            orbs: Vec::new(),
            rules,
            spawn_timer: Timer::new(rules.enemy_spawn_interval, TimerMode::Repeating),
            next_id: 0,
        }
    }

    /// Hands out a fresh id, or `None` once all ids are spent.
    fn fresh_id(&mut self) -> (r: Option<u64>)
        ensures
            final(self).actors == old(self).actors,
            final(self).projectiles == old(self).projectiles,
            final(self).orbs == old(self).orbs,
            final(self).rules == old(self).rules,
            final(self).spawn_timer == old(self).spawn_timer,
            old(self).next_id < u64::MAX ==> r == Some(old(self).next_id) && final(self).next_id
                == old(self).next_id + 1,
            old(self).next_id == u64::MAX ==> r is None && final(self).next_id == old(self).next_id,
    {
        if self.next_id < u64::MAX {
            let id = self.next_id;
            self.next_id = self.next_id + 1;
            Some(id)
        } else {
            None
        }
    }

    /// Adds an enemy with default stats and full health at `position`.
    /// Returns its id, or `None` when no id is left.
    pub fn spawn_enemy(&mut self, position: Vec2) -> (r: Option<u64>)
        requires
            old(self).wf(),
            position.in_bounds(),
        ensures
            final(self).wf(),
            final(self).projectiles == old(self).projectiles,
            final(self).orbs == old(self).orbs,
            final(self).rules == old(self).rules,
            final(self).spawn_timer == old(self).spawn_timer,
            old(self).next_id < u64::MAX ==> r == Some(old(self).next_id) && final(self).actors@
                == old(self).actors@.push(
                new_enemy_spec(old(self).next_id, position, Enemy::default_spec()),
            ) && final(self).next_id == old(self).next_id + 1,
            old(self).next_id == u64::MAX ==> r is None && final(self).actors@ == old(self).actors@
                && final(self).next_id == old(self).next_id,
    {
        match self.fresh_id() {
            Some(id) => {
                let e = Enemy::new();
                let a = Actor {
                    id,
                    role: Role::Enemy(e),
                    position,
                    velocity: Vec2::zero(),
                    health: Health { max: ENEMY_HEALTH, current: ENEMY_HEALTH },
                    hurting: None,
                    dead: false,
                    has_collider: true,
                };
                self.actors.push(a);
                Some(id)
            },
            None => None,
        }
    }

    /// Adds the player with default stats and full health at `position`.
    pub fn spawn_player(&mut self, position: Vec2) -> (r: Option<u64>)
        requires
            old(self).wf(),
            position.in_bounds(),
        ensures
            final(self).wf(),
            final(self).projectiles == old(self).projectiles,
            final(self).orbs == old(self).orbs,
            final(self).rules == old(self).rules,
            final(self).spawn_timer == old(self).spawn_timer,
            old(self).next_id < u64::MAX ==> r == Some(old(self).next_id) && final(self).actors@
                == old(self).actors@.push(
                new_player_spec(old(self).next_id, position, Player::default_spec()),
            ) && final(self).next_id == old(self).next_id + 1,
            old(self).next_id == u64::MAX ==> r is None && final(self).actors@ == old(self).actors@
                && final(self).next_id == old(self).next_id,
    {
        match self.fresh_id() {
            Some(id) => {
                let p = Player::new();
                let a = Actor {
                    id,
                    role: Role::Player(p),
                    position,
                    velocity: Vec2::zero(),
                    health: Health { max: PLAYER_HEALTH, current: PLAYER_HEALTH },
                    hurting: None,
                    dead: false,
                    has_collider: true,
                };
                self.actors.push(a);
                Some(id)
            },
            None => None,
        }
    }

    /// Index of the first actor with id `id`.
    pub fn find_actor(&self, id: u64) -> (r: Option<usize>)
        ensures
            match r {
                Some(i) => first_actor(self.actors@, id, i as int) && actor_index(self.actors@, id)
                    == i,
                None => actor_index(self.actors@, id) == -1 && forall|k: int|
                    0 <= k < self.actors@.len() ==> self.actors@[k].id != id,
            },
    {
        let mut i: usize = 0;
        while i < self.actors.len()
            invariant
                i <= self.actors@.len(),
                forall|k: int| 0 <= k < i ==> self.actors@[k].id != id,
            decreases self.actors@.len() - i,
        {
            if self.actors[i].id == id {
                proof {
                    assert(first_actor(self.actors@, id, i as int));
                    let j = actor_index(self.actors@, id);
                    assert(first_actor(self.actors@, id, j));
                    if j < i {
                        assert(self.actors@[j].id != id);
                    }
                    if j > i {
                        assert(self.actors@[i as int].id != id);
                    }
                }
                return Some(i);
            }
            i = i + 1;
        }
        None
    }

    /// Index of the first projectile with id `id`.
    pub fn find_projectile(&self, id: u64) -> (r: Option<usize>)
        ensures
            match r {
                Some(i) => first_projectile(self.projectiles@, id, i as int) && projectile_index(
                    self.projectiles@,
                    id,
                ) == i,
                None => projectile_index(self.projectiles@, id) == -1,
            },
    {
        let mut i: usize = 0;
        while i < self.projectiles.len()
            invariant
                i <= self.projectiles@.len(),
                forall|k: int| 0 <= k < i ==> self.projectiles@[k].id != id,
            decreases self.projectiles@.len() - i,
        {
            if self.projectiles[i].id == id {
                proof {
                    assert(first_projectile(self.projectiles@, id, i as int));
                    let j = projectile_index(self.projectiles@, id);
                    assert(first_projectile(self.projectiles@, id, j));
                    if j < i {
                        assert(self.projectiles@[j].id != id);
                    }
                    if j > i {
                        assert(self.projectiles@[i as int].id != id);
                    }
                }
                return Some(i);
            }
            i = i + 1;
        }
        None
    }

    /// Index of the player, the first actor that is one.
    pub fn find_player(&self) -> (r: Option<usize>)
        ensures
            match r {
                Some(i) => first_player(self.actors@, i as int) && player_index(self.actors@) == i,
                None => player_index(self.actors@) == -1,
            },
    {
        let mut i: usize = 0;
        while i < self.actors.len()
            invariant
                i <= self.actors@.len(),
                forall|k: int| 0 <= k < i ==> !self.actors@[k].is_player(),
            decreases self.actors@.len() - i,
        {
            if self.actors[i].is_player_exec() {
                proof {
                    assert(first_player(self.actors@, i as int));
                    let j = player_index(self.actors@);
                    assert(first_player(self.actors@, j));
                    if j < i {
                        assert(!self.actors@[j].is_player());
                    }
                    if j > i {
                        assert(!self.actors@[i as int].is_player());
                    }
                }
                return Some(i);
            }
            i = i + 1;
        }
        None
    }
}

} // verus!
