use vstd::prelude::*;
use crate::actor::{Actor, HURT_DURATION_MS};
use crate::audio::SoundEffectType;
use crate::geometry::Vec2;
use crate::timer::MAX_DELTA_MS;
use crate::world::{
    World, Projectile, XPDropEvent, actor_index, actors_wf, projectile_index, first_actor,
    first_projectile, projectile_ids_ok,
};

verus! {

/// Damage that an enemy's body deals to the player on contact.
pub const ENEMY_CONTACT_DAMAGE: u32 = 1;

/// Experience dropped by one enemy.
pub const XP_PER_ENEMY: u32 = 1;

/// A contact reported by the physics collaborator: the collider that deals
/// damage, the actor it touched, and the contact normal (for effects only).
#[derive(Clone, Copy, Debug, PartialEq, Eq, Structural)]
pub struct Contact {
    pub source: u64,
    pub target: u64,
    pub normal: Vec2,
}

/// A contact that opened or refreshed a hurt window.
#[derive(Clone, Copy, Debug, PartialEq, Eq, Structural)]
pub struct Hit {
    pub target: u64,
    pub position: Vec2,
    pub normal: Vec2,
    pub sound: SoundEffectType,
}

/// The effect of one contact on the actors and the projectiles.
///
/// A projectile that touches a live enemy is consumed and hands its damage to
/// the enemy's hurt window. An enemy body that still has its collider and
/// touches the live player hands the player its contact damage. Any other
/// contact changes nothing.
pub open spec fn contact_step(a: Seq<Actor>, p: Seq<Projectile>, c: Contact) -> (
    Seq<Actor>,
    Seq<Projectile>,
    Option<Hit>,
) {
    let pi = projectile_index(p, c.source);
    let ti = actor_index(a, c.target);
    if pi >= 0 {
        if ti >= 0 && a[ti].is_enemy() && a[ti].hittable() {
            (
                a.update(ti, a[ti].start_hurt_spec(p[pi].bullet.damage)),
                p.remove(pi),
                Some(
                    Hit {
                        target: c.target,
                        position: a[ti].position,
                        normal: c.normal,
                        sound: SoundEffectType::EnemyHurt,
                    },
                ),
            )
        } else {
            (a, p, None)
        }
    } else {
        let si = actor_index(a, c.source);
        if si >= 0 && a[si].is_enemy() && a[si].has_collider && ti >= 0 && a[ti].is_player()
            && a[ti].hittable() {
            (
                a.update(ti, a[ti].start_hurt_spec(ENEMY_CONTACT_DAMAGE)),
                p,
                Some(
                    Hit {
                        target: c.target,
                        position: a[ti].position,
                        normal: c.normal,
                        sound: SoundEffectType::PlayerHurt,
                    },
                ),
            )
        } else {
            (a, p, None)
        }
    }
}

/// The effect of a batch of contacts, taken in order.
pub open spec fn contacts_spec(a: Seq<Actor>, p: Seq<Projectile>, cs: Seq<Contact>) -> (
    Seq<Actor>,
    Seq<Projectile>,
    Seq<Hit>,
)
    decreases cs.len(),
{
    if cs.len() == 0 {
        (a, p, seq![])
    } else {
        let prev = contacts_spec(a, p, cs.drop_last());
        let step = contact_step(prev.0, prev.1, cs.last());
        (
            step.0,
            step.1,
            match step.2 {
                Some(h) => prev.2.push(h),
                None => prev.2,
            },
        )
    }
}

/// The experience drops of the actors that enter the dying state now.
pub open spec fn drops_spec(s: Seq<Actor>) -> Seq<XPDropEvent>
    decreases s.len(),
{
    if s.len() == 0 {
        seq![]
    } else {
        let prev = drops_spec(s.drop_last());
        let a = s.last();
        if a.is_enemy() && !a.dead && a.depleted() {
            prev.push(XPDropEvent { amount: XP_PER_ENEMY, location: a.position })
        } else {
            prev
        }
    }
}

/// The actors left after the death animations of `ids` finished, in order:
/// each names a dead enemy that leaves, or changes nothing.
pub open spec fn despawn_all(s: Seq<Actor>, ids: Seq<u64>) -> Seq<Actor>
    decreases ids.len(),
{
    if ids.len() == 0 {
        s
    } else {
        let prev = despawn_all(s, ids.drop_last());
        let i = actor_index(prev, ids.last());
        if i >= 0 && prev[i].is_enemy() && prev[i].dead {
            prev.remove(i)
        } else {
            prev
        }
    }
}

/// The hurt window of an actor after a run of ticks.
pub open spec fn hurt_run(a: Actor, deltas: Seq<u64>) -> Actor
    decreases deltas.len(),
{
    if deltas.len() == 0 {
        a
    } else {
        hurt_run(a.hurt_tick_spec(deltas[0]), deltas.drop_first())
    }
}

pub open spec fn total(deltas: Seq<u64>) -> int
    decreases deltas.len(),
{
    if deltas.len() == 0 {
        0
    } else {
        deltas[0] + total(deltas.drop_first())
    }
}

pub open spec fn deltas_ok(deltas: Seq<u64>) -> bool {
    forall|i: int| 0 <= i < deltas.len() ==> deltas[i] <= MAX_DELTA_MS
}

proof fn lemma_start_hurt_wf(a: Actor, damage: u32)
    requires
        a.wf(),
        a.hittable(),
    ensures
        a.start_hurt_spec(damage).wf(),
{
}

impl World {
    /// Applies one contact, as `contact_step` says.
    pub fn apply_contact(&mut self, c: Contact) -> (r: Option<Hit>)
        requires
            old(self).wf(),
        ensures
            final(self).wf(),
            (final(self).actors@, final(self).projectiles@, r) == contact_step(
                old(self).actors@,
                old(self).projectiles@,
                c,
            ),
            final(self).orbs == old(self).orbs,
            final(self).rules == old(self).rules,
            final(self).spawn_timer == old(self).spawn_timer,
            final(self).next_id == old(self).next_id,
    {
        let ghost p0 = self.projectiles@;
        let pi = self.find_projectile(c.source);
        let ti = self.find_actor(c.target);
        match pi {
            Some(pi) => {
                match ti {
                    Some(ti) => {
                        let t = self.actors[ti];
                        if t.is_enemy_exec() && t.is_hittable() {
                            let damage = self.projectiles[pi].bullet.damage;
                            proof {
                                lemma_start_hurt_wf(t, damage);
                            }
                            self.actors.set(ti, t.start_hurt(damage));
                            self.projectiles.remove(pi);
                            proof {
                                assert forall|k: int|
                                    0 <= k < self.projectiles@.len() implies #[trigger] self.projectiles@[k].wf() by {
                                    if k < pi {
                                        assert(self.projectiles@[k] == p0[k]);
                                    } else {
                                        assert(self.projectiles@[k] == p0[k + 1]);
                                    }
                                }
                                assert(actors_wf(self.actors@));
                            }
                            return Some(
                                Hit {
                                    target: c.target,
                                    position: t.position,
                                    normal: c.normal,
                                    sound: SoundEffectType::EnemyHurt,
                                },
                            );
                        }
                        None
                    },
                    None => None,
                }
            },
            None => {
                let si = self.find_actor(c.source);
                match (si, ti) {
                    (Some(si), Some(ti)) => {
                        let s = self.actors[si];
                        let t = self.actors[ti];
                        if s.is_enemy_exec() && s.has_collider && t.is_player_exec()
                            && t.is_hittable() {
                            proof {
                                lemma_start_hurt_wf(t, ENEMY_CONTACT_DAMAGE);
                            }
                            self.actors.set(ti, t.start_hurt(ENEMY_CONTACT_DAMAGE));
                            proof {
                                assert(actors_wf(self.actors@));
                            }
                            Some(
                                Hit {
                                    target: c.target,
                                    position: t.position,
                                    normal: c.normal,
                                    sound: SoundEffectType::PlayerHurt,
                                },
                            )
                        } else {
                            None
                        }
                    },
                    _ => None,
                }
            },
        }
    }

    /// Applies a batch of contacts in order, absorbing repeats: a projectile
    /// is consumed by its first hit, and a repeated contact on an open window
    /// only rewrites its pending damage.
    pub fn resolve_contacts(&mut self, contacts: &Vec<Contact>) -> (r: Vec<Hit>)
        requires
            old(self).wf(),
        ensures
            final(self).wf(),
            (final(self).actors@, final(self).projectiles@, r@) == contacts_spec(
                old(self).actors@,
                old(self).projectiles@,
                contacts@,
            ),
            final(self).orbs == old(self).orbs,
            final(self).rules == old(self).rules,
            final(self).spawn_timer == old(self).spawn_timer,
            final(self).next_id == old(self).next_id,
    {
        let ghost a0 = self.actors@;
        let ghost p0 = self.projectiles@;
        let mut hits: Vec<Hit> = Vec::new();
        let mut i: usize = 0;
        proof {
            assert(contacts@.subrange(0, 0) =~= Seq::<Contact>::empty());
        }
        while i < contacts.len()
            invariant
                self.wf(),
                i <= contacts@.len(),
                (self.actors@, self.projectiles@, hits@) == contacts_spec(
                    a0,
                    p0,
                    contacts@.subrange(0, i as int),
                ),
                self.orbs == old(self).orbs,
                self.rules == old(self).rules,
                self.spawn_timer == old(self).spawn_timer,
                self.next_id == old(self).next_id,
            decreases contacts@.len() - i,
        {
            let h = self.apply_contact(contacts[i]);
            match h {
                Some(h) => hits.push(h),
                None => {},
            }
            proof {
                let cs = contacts@.subrange(0, i + 1);
                assert(cs.drop_last() =~= contacts@.subrange(0, i as int));
                assert(cs.last() == contacts@[i as int]);
            }
            i = i + 1;
        }
        proof {
            assert(contacts@.subrange(0, contacts@.len() as int) =~= contacts@);
        }
        hits
    }

    /// Advances every open hurt window by `delta` milliseconds; a window whose
    /// countdown finishes this tick applies its damage and closes.
    pub fn tick_hurt(&mut self, delta: u64)
        requires
            old(self).wf(),
            delta <= MAX_DELTA_MS,
        ensures
            final(self).wf(),
            final(self).actors@ == old(self).actors@.map_values(
                |a: Actor| a.hurt_tick_spec(delta),
            ),
            final(self).projectiles == old(self).projectiles,
            final(self).orbs == old(self).orbs,
            final(self).rules == old(self).rules,
            final(self).spawn_timer == old(self).spawn_timer,
            final(self).next_id == old(self).next_id,
    {
        let ghost a0 = self.actors@;
        let mut i: usize = 0;
        while i < self.actors.len()
            invariant
                self.wf(),
                self.actors@.len() == a0.len(),
                i <= a0.len(),
                delta <= MAX_DELTA_MS,
                forall|k: int| 0 <= k < i ==> self.actors@[k] == a0[k].hurt_tick_spec(delta),
                forall|k: int| i <= k < a0.len() ==> self.actors@[k] == a0[k],
                self.projectiles == old(self).projectiles,
                self.orbs == old(self).orbs,
                self.rules == old(self).rules,
                self.spawn_timer == old(self).spawn_timer,
                self.next_id == old(self).next_id,
            decreases a0.len() - i,
        {
            let a = self.actors[i];
            let b = a.hurt_tick(delta);
            self.actors.set(i, b);
            proof {
                assert(actors_wf(self.actors@));
            }
            i = i + 1;
        }
        proof {
            assert(self.actors@ =~= a0.map_values(|a: Actor| a.hurt_tick_spec(delta)));
        }
    }

    /// The transition to dying: every live actor without health gets the dead
    /// marker, loses its collider and stops; each such enemy drops experience
    /// where it stands. Returns the drops in actor order.
    pub fn kill_depleted(&mut self) -> (r: Vec<XPDropEvent>)
        requires
            old(self).wf(),
        ensures
            final(self).wf(),
            final(self).actors@ == old(self).actors@.map_values(|a: Actor| a.kill_spec()),
            r@ == drops_spec(old(self).actors@),
            final(self).projectiles == old(self).projectiles,
            final(self).orbs == old(self).orbs,
            final(self).rules == old(self).rules,
            final(self).spawn_timer == old(self).spawn_timer,
            final(self).next_id == old(self).next_id,
    {
        let ghost a0 = self.actors@;
        let mut drops: Vec<XPDropEvent> = Vec::new();
        let mut i: usize = 0;
        proof {
            assert(a0.subrange(0, 0) =~= Seq::<Actor>::empty());
        }
        while i < self.actors.len()
            invariant
                self.wf(),
                self.actors@.len() == a0.len(),
                i <= a0.len(),
                forall|k: int| 0 <= k < i ==> self.actors@[k] == a0[k].kill_spec(),
                forall|k: int| i <= k < a0.len() ==> self.actors@[k] == a0[k],
                drops@ == drops_spec(a0.subrange(0, i as int)),
                self.projectiles == old(self).projectiles,
                self.orbs == old(self).orbs,
                self.rules == old(self).rules,
                self.spawn_timer == old(self).spawn_timer,
                self.next_id == old(self).next_id,
            decreases a0.len() - i,
        {
            let a = self.actors[i];
            if a.is_enemy_exec() && !a.dead && a.health.current <= 0 {
                drops.push(XPDropEvent { amount: XP_PER_ENEMY, location: a.position });
            }
            self.actors.set(i, a.kill());
            proof {
                assert(actors_wf(self.actors@));
                let s = a0.subrange(0, i + 1);
                assert(s.drop_last() =~= a0.subrange(0, i as int));
                assert(s.last() == a0[i as int]);
            }
            i = i + 1;
        }
        proof {
            assert(a0.subrange(0, a0.len() as int) =~= a0);
            assert(self.actors@ =~= a0.map_values(|a: Actor| a.kill_spec()));
        }
        drops
    }

    /// Removes each dead enemy whose death animation finished, in the order
    /// the ids come.
    pub fn despawn_finished(&mut self, ids: &Vec<u64>)
        requires
            old(self).wf(),
        ensures
            final(self).wf(),
            final(self).actors@ == despawn_all(old(self).actors@, ids@),
            final(self).projectiles == old(self).projectiles,
            final(self).orbs == old(self).orbs,
            final(self).rules == old(self).rules,
            final(self).spawn_timer == old(self).spawn_timer,
            final(self).next_id == old(self).next_id,
    {
        let ghost a0 = self.actors@;
        let mut j: usize = 0;
        proof {
            assert(ids@.subrange(0, 0) =~= Seq::<u64>::empty());
        }
        while j < ids.len()
            invariant
                self.wf(),
                j <= ids@.len(),
                self.actors@ == despawn_all(a0, ids@.subrange(0, j as int)),
                self.projectiles == old(self).projectiles,
                self.orbs == old(self).orbs,
                self.rules == old(self).rules,
                self.spawn_timer == old(self).spawn_timer,
                self.next_id == old(self).next_id,
            decreases ids@.len() - j,
        {
            self.despawn_dead(ids[j]);
            proof {
                let t = ids@.subrange(0, j + 1);
                assert(t.drop_last() =~= ids@.subrange(0, j as int));
                assert(t.last() == ids@[j as int]);
            }
            j = j + 1;
        }
        proof {
            assert(ids@.subrange(0, ids@.len() as int) =~= ids@);
        }
    }

    /// Removes an enemy once the death animation of `id` has finished: only a
    /// dead enemy leaves, together with everything it owns. Returns whether
    /// one did.
    pub fn despawn_dead(&mut self, id: u64) -> (r: bool)
        requires
            old(self).wf(),
        ensures
            final(self).wf(),
            ({
                let i = actor_index(old(self).actors@, id);
                &&& r == (i >= 0 && old(self).actors@[i].is_enemy() && old(self).actors@[i].dead)
                &&& r ==> final(self).actors@ == old(self).actors@.remove(i)
                &&& !r ==> final(self).actors@ == old(self).actors@
            }),
            final(self).projectiles == old(self).projectiles,
            final(self).orbs == old(self).orbs,
            final(self).rules == old(self).rules,
            final(self).spawn_timer == old(self).spawn_timer,
            final(self).next_id == old(self).next_id,
    {
        let ghost a0 = self.actors@;
        match self.find_actor(id) {
            Some(i) => {
                if self.actors[i].is_enemy_exec() && self.actors[i].dead {
                    self.actors.remove(i);
                    proof {
                        assert forall|k: int|
                            0 <= k < self.actors@.len() implies #[trigger] self.actors@[k].wf() by {
                            if k < i {
                                assert(self.actors@[k] == a0[k]);
                            } else {
                                assert(self.actors@[k] == a0[k + 1]);
                            }
                        }
                    }
                    true
                } else {
                    false
                }
            },
            None => false,
        }
    }
}

/// Health never exceeds its maximum, for every actor of a well-formed world,
/// and each stage that changes health keeps it so.
pub proof fn lemma_health_bounded(w: &World, delta: u64, damage: u32)
    requires
        w.wf(),
    ensures
        forall|i: int| 0 <= i < w.actors@.len() ==> #[trigger] w.actors@[i].health.current <= w.actors@[i].health.max,
        forall|i: int|
            0 <= i < w.actors@.len() && delta <= MAX_DELTA_MS ==> #[trigger] w.actors@[i].hurt_tick_spec(delta).health.current
                <= w.actors@[i].hurt_tick_spec(delta).health.max,
        forall|i: int|
            0 <= i < w.actors@.len() ==> #[trigger] w.actors@[i].kill_spec().health.current
                <= w.actors@[i].kill_spec().health.max,
        forall|i: int|
            0 <= i < w.actors@.len() ==> #[trigger] w.actors@[i].start_hurt_spec(damage).health
                == w.actors@[i].health,
{
    assert forall|i: int| 0 <= i < w.actors@.len() implies #[trigger] w.actors@[i].health.current
        <= w.actors@[i].health.max by {
        assert(w.actors@[i].wf());
    }
    assert forall|i: int|
        0 <= i < w.actors@.len() && delta <= MAX_DELTA_MS implies #[trigger] w.actors@[i].hurt_tick_spec(delta).health.current
            <= w.actors@[i].hurt_tick_spec(delta).health.max by {
        assert(w.actors@[i].wf());
    }
    assert forall|i: int| 0 <= i < w.actors@.len() implies #[trigger] w.actors@[i].kill_spec().health.current
        <= w.actors@[i].kill_spec().health.max by {
        assert(w.actors@[i].wf());
    }
}

proof fn lemma_no_drops(s: Seq<Actor>)
    requires
        forall|i: int| 0 <= i < s.len() ==> !(#[trigger] s[i].is_enemy() && !s[i].dead && s[i].depleted()),
    ensures
        drops_spec(s) == Seq::<XPDropEvent>::empty(),
    decreases s.len(),
{
    if s.len() > 0 {
        lemma_no_drops(s.drop_last());
        assert(!(s[s.len() - 1].is_enemy() && !s[s.len() - 1].dead && s[s.len() - 1].depleted()));
    }
}

/// The dying transition happens at most once per actor: after one pass, a
/// second pass changes nothing and drops nothing, and a dead actor's hurt
/// window can neither reopen nor change its health again.
pub proof fn lemma_dying_once(s: Seq<Actor>, delta: u64, damage: u32)
    requires
        forall|i: int| 0 <= i < s.len() ==> #[trigger] s[i].wf(),
    ensures
        s.map_values(|a: Actor| a.kill_spec()).map_values(|a: Actor| a.kill_spec()) == s.map_values(
            |a: Actor| a.kill_spec(),
        ),
        drops_spec(s.map_values(|a: Actor| a.kill_spec())) == Seq::<XPDropEvent>::empty(),
        forall|i: int|
            0 <= i < s.len() && #[trigger] s[i].dead ==> s[i].hurt_tick_spec(delta) == s[i]
                && !s[i].hittable() && s[i].kill_spec() == s[i],
{
    let k = s.map_values(|a: Actor| a.kill_spec());
    assert(k.map_values(|a: Actor| a.kill_spec()) =~= k);
    assert forall|i: int| 0 <= i < k.len() implies !(#[trigger] k[i].is_enemy() && !k[i].dead
        && k[i].depleted()) by {
        assert(k[i] == s[i].kill_spec());
    }
    lemma_no_drops(k);
    assert forall|i: int| 0 <= i < s.len() && #[trigger] s[i].dead implies s[i].hurt_tick_spec(
        delta,
    ) == s[i] && !s[i].hittable() && s[i].kill_spec() == s[i] by {
        assert(s[i].wf());
    }
}

/// Every drop lies where a well-formed actor stands, so in bounds.
pub proof fn lemma_drops_in_bounds(s: Seq<Actor>)
    requires
        actors_wf(s),
    ensures
        forall|i: int| 0 <= i < drops_spec(s).len() ==> (#[trigger] drops_spec(s)[i]).location.in_bounds(),
    decreases s.len(),
{
    if s.len() > 0 {
        let t = s.drop_last();
        assert(actors_wf(t)) by {
            assert forall|i: int| 0 <= i < t.len() implies #[trigger] t[i].wf() by {
                assert(t[i] == s[i]);
            }
        }
        lemma_drops_in_bounds(t);
        assert(s[s.len() - 1].wf());
        let d = drops_spec(s);
        let prev = drops_spec(t);
        assert forall|i: int| 0 <= i < d.len() implies (#[trigger] d[i]).location.in_bounds() by {
            if i < prev.len() {
                assert(d[i] == prev[i]);
            }
        }
    }
}

/// A repeated report of a projectile's contact is absorbed: once the
/// projectile has been consumed by its hit on an enemy, the same contact again
/// changes nothing and reports no hit.
pub proof fn lemma_repeated_contact_absorbed(a: Seq<Actor>, p: Seq<Projectile>, c: Contact, next: u64)
    requires
        projectile_ids_ok(p, next),
        projectile_index(p, c.source) >= 0,
        actor_index(a, c.target) >= 0,
        a[actor_index(a, c.target)].is_enemy(),
    ensures
        ({
            let once = contact_step(a, p, c);
            contact_step(once.0, once.1, c) == (once.0, once.1, None::<Hit>)
        }),
{
    let pi = projectile_index(p, c.source);
    let ti = actor_index(a, c.target);
    assert(first_projectile(p, c.source, pi));
    assert(first_actor(a, c.target, ti));
    let once = contact_step(a, p, c);
    let p1 = once.1;
    let a1 = once.0;
    if once.2 is Some {
        assert forall|i: int| !first_projectile(p1, c.source, i) by {
            if 0 <= i < p1.len() && p1[i].id == c.source {
                let j = if i < pi { i } else { i + 1 };
                assert(p1[i] == p[j]);
                assert(p[j].id != p[pi].id);
            }
        }
        assert(a1.len() == a.len());
        assert(first_actor(a1, c.target, ti)) by {
            assert forall|k: int| 0 <= k < ti implies a1[k].id != c.target by {
                assert(a1[k] == a[k]);
            }
        }
        let tj = actor_index(a1, c.target);
        assert(first_actor(a1, c.target, tj));
        if tj < ti {
            assert(a1[tj] == a[tj]);
        }
        if tj > ti {
            assert(a1[ti].id == c.target);
        }
        assert(tj == ti);
        assert(a1[ti].is_enemy());
    }
}

proof fn lemma_total_nonneg(deltas: Seq<u64>)
    ensures
        total(deltas) >= 0,
    decreases deltas.len(),
{
    if deltas.len() > 0 {
        lemma_total_nonneg(deltas.drop_first());
    }
}

proof fn lemma_run_closed(a: Actor, deltas: Seq<u64>)
    requires
        a.hurting is None,
    ensures
        hurt_run(a, deltas) == a,
    decreases deltas.len(),
{
    if deltas.len() > 0 {
        lemma_run_closed(a.hurt_tick_spec(deltas[0]), deltas.drop_first());
    }
}

/// A hurt window applies its damage exactly once: over any run of ticks, the
/// health drops by the pending damage if the countdown completes during the
/// run (and the window is then closed), and is untouched otherwise.
pub proof fn lemma_damage_once(a: Actor, deltas: Seq<u64>)
    requires
        a.wf(),
        a.hurting is Some,
        deltas_ok(deltas),
    ensures
        ({
            let h = a.hurting->Some_0;
            let r = hurt_run(a, deltas);
            if h.timer.elapsed + total(deltas) >= HURT_DURATION_MS {
                r.health.current == a.health.current - h.damage && r.hurting is None
            } else {
                r.health == a.health && r.hurting is Some && r.hurting->Some_0.damage == h.damage
                    && r.hurting->Some_0.timer.elapsed == h.timer.elapsed + total(deltas)
            }
        }),
    decreases deltas.len(),
{
    if deltas.len() > 0 {
        let b = a.hurt_tick_spec(deltas[0]);
        let rest = deltas.drop_first();
        assert(deltas_ok(rest)) by {
            assert forall|i: int| 0 <= i < rest.len() implies rest[i] <= MAX_DELTA_MS by {
                assert(rest[i] == deltas[i + 1]);
            }
        }
        lemma_total_nonneg(rest);
        assert(total(deltas) == deltas[0] + total(rest));
        if b.hurting is None {
            lemma_run_closed(b, rest);
        } else {
            lemma_damage_once(b, rest);
        }
    }
}

} // verus!
