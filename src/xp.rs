use vstd::prelude::*;
use crate::actor::Role;
use crate::geometry::{Vec2, UNIT, COORD_LIMIT, abs, div_trunc, sqrt_floor, lemma_sqrt_floor, lemma_le_sqrt};
use crate::timer::MAX_DELTA_MS;
use crate::world::{World, XpOrb, OrbState, XPDropEvent, orbs_wf, orb_ids_ok, player_index};

verus! {

/// An attracted orb covers, per tick, the fraction
/// `ATTRACT_RATE * delta * distance / ATTRACT_SCALE` of its distance to the
/// player (capped at all of it): an acceleration of 5 per second, scaled by
/// the distance over 35 pixels and divided by a smoothing factor of 0.9,
/// with `delta` in milliseconds and the distance in thousandths of a pixel.
pub const ATTRACT_RATE: u64 = 50;

pub const ATTRACT_SCALE: i64 = 315_000_000;

/// Distance beyond the player's size within which an orb is collected, in pixels.
pub const COLLECT_MARGIN: i64 = 40;

/// Scale of an orb at rest, in thousandths.
pub const ORB_SCALE: i64 = 1000;

/// Part of the remaining distance covered by an attracted orb in one tick, in
/// units of `1 / ATTRACT_SCALE`.
pub open spec fn attract_fraction(distance: int, delta: int) -> int {
    let f = ATTRACT_RATE * delta * distance;
    if f < ATTRACT_SCALE {
        f
    } else {
        ATTRACT_SCALE as int
    }
}

/// An attracted orb after one tick of moving toward the player at `target`;
/// its scale shrinks with the distance it had.
pub open spec fn orb_step_spec(o: XpOrb, target: Vec2, delta: u64) -> XpOrb {
    let off = o.position.sub_spec(target);
    let d = off.len_spec();
    let keep = ATTRACT_SCALE - attract_fraction(d, delta as int);
    XpOrb {
        position: Vec2 {
            x: (target.x + div_trunc(off.x * keep, ATTRACT_SCALE as int)) as i64,
            y: (target.y + div_trunc(off.y * keep, ATTRACT_SCALE as int)) as i64,
        },
        scale: (d / 100) as i64,
        ..o
    }
}

/// The orb is close enough to a player of size `size` to be collected.
pub open spec fn collected_spec(o: XpOrb, target: Vec2, size: i64) -> bool {
    o.position.sub_spec(target).len_spec() < (size + COLLECT_MARGIN) * UNIT
}

/// One tick of all orbs: attracted orbs move, and those that arrive leave the
/// world, their amounts collected in order. Free orbs stay put.
pub open spec fn orbs_tick(s: Seq<XpOrb>, target: Vec2, size: i64, delta: u64) -> (
    Seq<XpOrb>,
    Seq<u32>,
)
    decreases s.len(),
{
    if s.len() == 0 {
        (seq![], seq![])
    } else {
        let prev = orbs_tick(s.drop_last(), target, size, delta);
        let o = s.last();
        if o.state == OrbState::Attracted {
            let n = orb_step_spec(o, target, delta);
            if collected_spec(n, target, size) {
                (prev.0, prev.1.push(o.amount))
            } else {
                (prev.0.push(n), prev.1)
            }
        } else {
            (prev.0.push(o), prev.1)
        }
    }
}

/// `xp` plus each amount in turn, saturating at `u32::MAX`.
pub open spec fn add_all(xp: u32, amounts: Seq<u32>) -> u32
    decreases amounts.len(),
{
    if amounts.len() == 0 {
        xp
    } else {
        let prev = add_all(xp, amounts.drop_last());
        if prev + amounts.last() <= u32::MAX {
            (prev + amounts.last()) as u32
        } else {
            u32::MAX
        }
    }
}

/// Orbs spawned from drops, with consecutive ids from `first_id`.
pub open spec fn orbs_from_drops(drops: Seq<XPDropEvent>, first_id: int) -> Seq<XpOrb> {
    Seq::new(
        drops.len(),
        |i: int|
            XpOrb {
                id: (first_id + i) as u64,
                amount: drops[i].amount,
                position: drops[i].location,
                scale: ORB_SCALE,
                state: OrbState::Free,
            },
    )
}

/// How many drops become orbs when ids start at `next_id`: all of them, as
/// long as ids last.
pub open spec fn spawn_count(next_id: u64, drops: nat) -> int {
    if next_id + drops <= u64::MAX {
        drops as int
    } else {
        u64::MAX - next_id
    }
}

/// The state of an orb after the magnet sensor reported the orbs in `touching`.
pub open spec fn attract_spec(o: XpOrb, touching: Seq<u64>) -> XpOrb {
    if touching.contains(o.id) {
        XpOrb { state: OrbState::Attracted, ..o }
    } else {
        o
    }
}

/// `c * keep / ATTRACT_SCALE` rounded toward zero, for `0 <= keep <= ATTRACT_SCALE`.
fn shrink(c: i64, keep: i64) -> (r: i64)
    requires
        -2 * COORD_LIMIT <= c <= 2 * COORD_LIMIT,
        0 <= keep <= ATTRACT_SCALE,
    ensures
        r == div_trunc(c * keep, ATTRACT_SCALE as int),
        c >= 0 ==> 0 <= r <= c,
        c < 0 ==> c <= r <= 0,
{
    let m: i128 = if c >= 0 { c as i128 } else { -(c as i128) };
    proof {
        assert(m * keep <= m * ATTRACT_SCALE) by (nonlinear_arith)
            requires 0 <= m, 0 <= keep <= ATTRACT_SCALE;
        assert(m * ATTRACT_SCALE <= 2 * COORD_LIMIT * ATTRACT_SCALE) by (nonlinear_arith)
            requires 0 <= m <= 2 * COORD_LIMIT;
        assert((m * keep) / (ATTRACT_SCALE as int) <= m) by (nonlinear_arith)
            requires 0 <= m, 0 <= keep <= ATTRACT_SCALE;
        assert(0 <= m * keep) by (nonlinear_arith)
            requires 0 <= m, 0 <= keep;
    }
    let q: i128 = (m * (keep as i128)) / (ATTRACT_SCALE as i128);
    if c >= 0 {
        proof {
            assert(m == c);
        }
        q as i64
    } else {
        proof {
            assert(-(c * keep) == m * keep) by (nonlinear_arith)
                requires m == -c;
        }
        -(q as i64)
    }
}

proof fn lemma_sqrt_mono(a: int, b: int)
    requires
        0 <= a <= b,
    ensures
        sqrt_floor(a) <= sqrt_floor(b),
{
    lemma_sqrt_floor(a);
    lemma_sqrt_floor(b);
    lemma_le_sqrt(sqrt_floor(a), b, sqrt_floor(b));
}

proof fn lemma_square_le(a: int, b: int)
    requires
        abs(a) <= abs(b),
    ensures
        a * a <= b * b,
{
    assert(abs(a) * abs(a) <= abs(b) * abs(b)) by (nonlinear_arith)
        requires 0 <= abs(a) <= abs(b);
    assert(a * a == abs(a) * abs(a)) by (nonlinear_arith);
    assert(b * b == abs(b) * abs(b)) by (nonlinear_arith);
}

/// Facts about one step of an attracted orb: it stays on the segment between
/// where it was and the player, so in bounds and no farther away.
proof fn lemma_orb_step(o: XpOrb, target: Vec2, delta: u64)
    requires
        o.wf(),
        target.in_bounds(),
    ensures
        orb_step_spec(o, target, delta).wf(),
        orb_step_spec(o, target, delta).position.sub_spec(target).len_spec() <= o.position.sub_spec(
            target,
        ).len_spec(),
{
    let off = o.position.sub_spec(target);
    let d = off.len_spec();
    assert(off.norm_sq() >= 0) by (nonlinear_arith)
        requires off.norm_sq() == off.x * off.x + off.y * off.y;
    lemma_sqrt_floor(off.norm_sq());
    let keep = ATTRACT_SCALE - attract_fraction(d, delta as int);
    assert(0 <= attract_fraction(d, delta as int)) by (nonlinear_arith)
        requires d >= 0, delta >= 0;
    let nx = div_trunc(off.x * keep, ATTRACT_SCALE as int);
    let ny = div_trunc(off.y * keep, ATTRACT_SCALE as int);
    assert(abs(nx) <= abs(off.x as int) && (off.x >= 0 ==> 0 <= nx) && (off.x < 0 ==> nx <= 0))
        by (nonlinear_arith)
        requires
            nx == div_trunc(off.x * keep, ATTRACT_SCALE as int),
            0 <= keep <= ATTRACT_SCALE,
    {
        if off.x >= 0 {
            assert(off.x * keep <= off.x * ATTRACT_SCALE) by (nonlinear_arith)
                requires off.x >= 0, keep <= ATTRACT_SCALE;
            assert(0 <= off.x * keep) by (nonlinear_arith)
                requires off.x >= 0, keep >= 0;
        } else {
            assert((-off.x) * keep <= (-off.x) * ATTRACT_SCALE) by (nonlinear_arith)
                requires off.x < 0, keep <= ATTRACT_SCALE;
            assert(0 <= (-off.x) * keep) by (nonlinear_arith)
                requires off.x < 0, keep >= 0;
            assert(-(off.x * keep) == (-off.x) * keep) by (nonlinear_arith);
        }
    }
    assert(abs(ny) <= abs(off.y as int) && (off.y >= 0 ==> 0 <= ny) && (off.y < 0 ==> ny <= 0))
        by (nonlinear_arith)
        requires
            ny == div_trunc(off.y * keep, ATTRACT_SCALE as int),
            0 <= keep <= ATTRACT_SCALE,
    {
        if off.y >= 0 {
            assert(off.y * keep <= off.y * ATTRACT_SCALE) by (nonlinear_arith)
                requires off.y >= 0, keep <= ATTRACT_SCALE;
            assert(0 <= off.y * keep) by (nonlinear_arith)
                requires off.y >= 0, keep >= 0;
        } else {
            assert((-off.y) * keep <= (-off.y) * ATTRACT_SCALE) by (nonlinear_arith)
                requires off.y < 0, keep <= ATTRACT_SCALE;
            assert(0 <= (-off.y) * keep) by (nonlinear_arith)
                requires off.y < 0, keep >= 0;
            assert(-(off.y * keep) == (-off.y) * keep) by (nonlinear_arith);
        }
    }
    let n = orb_step_spec(o, target, delta);
    let noff = n.position.sub_spec(target);
    assert(noff.x == nx && noff.y == ny);
    lemma_square_le(nx, off.x as int);
    lemma_square_le(ny, off.y as int);
    assert(noff.norm_sq() >= 0) by (nonlinear_arith)
        requires noff.norm_sq() == noff.x * noff.x + noff.y * noff.y;
    lemma_sqrt_mono(noff.norm_sq(), off.norm_sq());
}

/// An attracted orb never moves away from the player: its distance after a
/// tick is at most its distance before, and an orb already within reach is
/// collected on that same tick.
pub proof fn lemma_attracted_distance_non_increasing(o: XpOrb, target: Vec2, delta: u64, size: i64)
    requires
        o.wf(),
        target.in_bounds(),
    ensures
        orb_step_spec(o, target, delta).position.sub_spec(target).len_spec() <= o.position.sub_spec(
            target,
        ).len_spec(),
        collected_spec(o, target, size) ==> collected_spec(
            orb_step_spec(o, target, delta),
            target,
            size,
        ),
{
    lemma_orb_step(o, target, delta);
}

impl World {
    /// Spawns a free orb at each drop, with fresh ids, as long as ids last.
    pub fn spawn_xp(&mut self, drops: &Vec<XPDropEvent>)
        requires
            old(self).wf(),
            forall|i: int| 0 <= i < drops@.len() ==> (#[trigger] drops@[i]).location.in_bounds(),
        ensures
            final(self).wf(),
            ({
                let n = spawn_count(old(self).next_id, drops@.len());
                &&& final(self).orbs@ == old(self).orbs@ + orbs_from_drops(
                    drops@.subrange(0, n),
                    old(self).next_id as int,
                )
                &&& final(self).next_id == old(self).next_id + n
            }),
            final(self).actors == old(self).actors,
            final(self).projectiles == old(self).projectiles,
            final(self).rules == old(self).rules,
            final(self).spawn_timer == old(self).spawn_timer,
    {
        let ghost o0 = self.orbs@;
        let ghost id0 = self.next_id;
        let mut i: usize = 0;
        while i < drops.len() && self.next_id < u64::MAX
            invariant
                self.wf(),
                i <= drops@.len(),
                forall|k: int| 0 <= k < drops@.len() ==> (#[trigger] drops@[k]).location.in_bounds(),
                self.orbs@ == o0 + orbs_from_drops(drops@.subrange(0, i as int), id0 as int),
                self.next_id == id0 + i,
                self.actors == old(self).actors,
                self.projectiles == old(self).projectiles,
                self.rules == old(self).rules,
                self.spawn_timer == old(self).spawn_timer,
            decreases drops@.len() - i,
        {
            let d = drops[i];
            let o = XpOrb {
                id: self.next_id,
                amount: d.amount,
                position: d.location,
                scale: ORB_SCALE,
                state: OrbState::Free,
            };
            self.next_id = self.next_id + 1;
            self.orbs.push(o);
            proof {
                assert(orbs_wf(self.orbs@));
                assert(self.orbs@ =~= o0 + orbs_from_drops(drops@.subrange(0, i + 1), id0 as int));
            }
            i = i + 1;
        }
        proof {
            assert(i == spawn_count(id0, drops@.len()));
        }
    }

    /// Orbs touched by the player's magnet sensor start moving toward the
    /// player; an attracted orb never goes back to rest.
    pub fn attract_orbs(&mut self, touching: &Vec<u64>)
        requires
            old(self).wf(),
        ensures
            final(self).wf(),
            final(self).orbs@ == old(self).orbs@.map_values(|o: XpOrb| attract_spec(o, touching@)),
            final(self).actors == old(self).actors,
            final(self).projectiles == old(self).projectiles,
            final(self).rules == old(self).rules,
            final(self).spawn_timer == old(self).spawn_timer,
            final(self).next_id == old(self).next_id,
    {
        let ghost o0 = self.orbs@;
        let mut i: usize = 0;
        while i < self.orbs.len()
            invariant
                self.wf(),
                self.orbs@.len() == o0.len(),
                i <= o0.len(),
                forall|k: int| 0 <= k < i ==> self.orbs@[k] == attract_spec(o0[k], touching@),
                forall|k: int| i <= k < o0.len() ==> self.orbs@[k] == o0[k],
                self.actors == old(self).actors,
                self.projectiles == old(self).projectiles,
                self.rules == old(self).rules,
                self.spawn_timer == old(self).spawn_timer,
                self.next_id == old(self).next_id,
            decreases o0.len() - i,
        {
            let o = self.orbs[i];
            let mut hit = false;
            let mut j: usize = 0;
            while j < touching.len()
                invariant
                    j <= touching@.len(),
                    hit <==> exists|k: int| 0 <= k < j && touching@[k] == o.id,
                decreases touching@.len() - j,
            {
                if touching[j] == o.id {
                    hit = true;
                }
                j = j + 1;
            }
            proof {
                assert(o.wf());
            }
            if hit {
                self.orbs.set(i, XpOrb { state: OrbState::Attracted, ..o });
            }
            proof {
                assert(hit == touching@.contains(o.id));
                assert(orbs_wf(self.orbs@));
            }
            i = i + 1;
        }
        proof {
            assert(self.orbs@ =~= o0.map_values(|o: XpOrb| attract_spec(o, touching@)));
        }
    }

    /// One tick of the attracted orbs toward the player: each moves, and each
    /// that comes within the player's size plus `COLLECT_MARGIN` is removed
    /// and its amount added to the experience. Returns the collected amounts,
    /// one collection sound each. Nothing happens without a player.
    pub fn move_orbs(&mut self, delta: u64) -> (r: Vec<u32>)
        requires
            old(self).wf(),
            delta <= MAX_DELTA_MS,
        ensures
            final(self).wf(),
            ({
                let pi = player_index(old(self).actors@);
                if pi < 0 {
                    r@.len() == 0 && final(self).orbs == old(self).orbs && final(self).rules
                        == old(self).rules
                } else {
                    let p = old(self).actors@[pi];
                    let res = orbs_tick(
                        old(self).orbs@,
                        p.position,
                        p.role->Player_0.stats.size,
                        delta,
                    );
                    &&& final(self).orbs@ == res.0
                    &&& r@ == res.1
                    &&& final(self).rules.xp == add_all(old(self).rules.xp, r@)
                    &&& final(self).rules.level == old(self).rules.level
                    &&& final(self).rules.level_xp_base == old(self).rules.level_xp_base
                    &&& final(self).rules.level_xp_multiplier == old(self).rules.level_xp_multiplier
                    &&& final(self).rules.enemy_spawn_interval == old(self).rules.enemy_spawn_interval
                }
            }),
            final(self).actors == old(self).actors,
            final(self).projectiles == old(self).projectiles,
            final(self).spawn_timer == old(self).spawn_timer,
            final(self).next_id == old(self).next_id,
    {
        let mut collected: Vec<u32> = Vec::new();
        let pi = match self.find_player() {
            Some(pi) => pi,
            None => {
                return collected;
            },
        };
        let p = self.actors[pi];
        proof {
            assert(p.wf());
        }
        let size = match p.role {
            Role::Player(pl) => pl.stats.size,
            Role::Enemy(_) => 0,
        };
        let target = p.position;
        let ghost o0 = self.orbs@;
        let ghost xp0 = self.rules.xp;
        let mut kept: Vec<XpOrb> = Vec::new();
        let mut i: usize = 0;
        proof {
            assert(o0.subrange(0, 0) =~= Seq::<XpOrb>::empty());
        }
        while i < self.orbs.len()
            invariant
                self.wf(),
                self.orbs@ == o0,
                i <= o0.len(),
                target.in_bounds(),
                0 <= size <= crate::actor::MAX_STAT,
                delta <= MAX_DELTA_MS,
                orbs_wf(kept@),
                orb_ids_ok(kept@, self.next_id),
                forall|k: int| 0 <= k < kept@.len() ==> exists|j: int| 0 <= j < i && #[trigger] kept@[k].id == o0[j].id,
                (kept@, collected@) == orbs_tick(o0.subrange(0, i as int), target, size, delta),
                self.rules.xp == add_all(xp0, collected@),
                self.rules.level == old(self).rules.level,
                self.rules.level_xp_base == old(self).rules.level_xp_base,
                self.rules.level_xp_multiplier == old(self).rules.level_xp_multiplier,
                self.rules.enemy_spawn_interval == old(self).rules.enemy_spawn_interval,
                self.actors == old(self).actors,
                self.projectiles == old(self).projectiles,
                self.spawn_timer == old(self).spawn_timer,
                self.next_id == old(self).next_id,
            decreases o0.len() - i,
        {
            let o = self.orbs[i];
            proof {
                assert(o.wf());
                let s = o0.subrange(0, i + 1);
                assert(s.drop_last() =~= o0.subrange(0, i as int));
                assert(s.last() == o0[i as int]);
            }
            if o.state == OrbState::Attracted {
                let n = step_orb(o, target, delta);
                let off = n.position.sub(&target);
                let dist = off.length();
                if (dist as i64) < (size + COLLECT_MARGIN) * UNIT {
                    let ghost before = collected@;
                    collected.push(o.amount);
                    self.rules.add_xp(o.amount);
                    proof {
                        assert(collected@.drop_last() =~= before);
                    }
                } else {
                    let ghost before = kept@;
                    kept.push(n);
                    proof {
                        assert forall|k: int| 0 <= k < before.len() implies #[trigger] before[k].id != o.id by {
                            let j = choose|j: int| 0 <= j < i && before[k].id == o0[j].id;
                            assert(o0[j].id != o0[i as int].id);
                        }
                        assert forall|a: int, b: int|
                            0 <= a < kept@.len() && 0 <= b < kept@.len() && a != b implies #[trigger] kept@[a].id != #[trigger] kept@[b].id by {
                            if a < before.len() && b < before.len() {
                                assert(kept@[a] == before[a] && kept@[b] == before[b]);
                            } else if a < before.len() {
                                assert(kept@[a] == before[a]);
                            } else if b < before.len() {
                                assert(kept@[b] == before[b]);
                            }
                        }
                        assert forall|k: int| 0 <= k < kept@.len() implies exists|j: int| 0 <= j < i + 1 && #[trigger] kept@[k].id == o0[j].id by {
                            if k < before.len() {
                                assert(kept@[k] == before[k]);
                            } else {
                                assert(kept@[k].id == o0[i as int].id);
                            }
                        }
                    }
                }
            } else {
                let ghost before = kept@;
                kept.push(o);
                proof {
                    assert forall|k: int| 0 <= k < before.len() implies #[trigger] before[k].id != o.id by {
                        let j = choose|j: int| 0 <= j < i && before[k].id == o0[j].id;
                        assert(o0[j].id != o0[i as int].id);
                    }
                    assert forall|a: int, b: int|
                        0 <= a < kept@.len() && 0 <= b < kept@.len() && a != b implies #[trigger] kept@[a].id != #[trigger] kept@[b].id by {
                        if a < before.len() && b < before.len() {
                            assert(kept@[a] == before[a] && kept@[b] == before[b]);
                        } else if a < before.len() {
                            assert(kept@[a] == before[a]);
                        } else if b < before.len() {
                            assert(kept@[b] == before[b]);
                        }
                    }
                    assert forall|k: int| 0 <= k < kept@.len() implies exists|j: int| 0 <= j < i + 1 && #[trigger] kept@[k].id == o0[j].id by {
                        if k < before.len() {
                            assert(kept@[k] == before[k]);
                        } else {
                            assert(kept@[k].id == o0[i as int].id);
                        }
                    }
                }
            }
            i = i + 1;
        }
        proof {
            assert(o0.subrange(0, o0.len() as int) =~= o0);
        }
        self.orbs = kept;
        collected
    }
}

/// Moves an attracted orb one tick toward the player at `target`.
pub fn step_orb(o: XpOrb, target: Vec2, delta: u64) -> (r: XpOrb)
    requires
        o.wf(),
        target.in_bounds(),
        delta <= MAX_DELTA_MS,
    ensures
        r == orb_step_spec(o, target, delta),
        r.wf(),
{
    proof {
        lemma_orb_step(o, target, delta);
    }
    let off = o.position.sub(&target);
    let d = off.length();
    proof {
        assert(50 * delta * d <= 50 * 0x1_0000_0000 * 0x400_0000_0000int) by (nonlinear_arith)
            requires delta <= 0x1_0000_0000u64, d <= 0x400_0000_0000u64;
    }
    let raw: u128 = (ATTRACT_RATE as u128) * (delta as u128) * (d as u128);
    let f: i64 = if raw < ATTRACT_SCALE as u128 {
        raw as i64
    } else {
        ATTRACT_SCALE
    };
    let keep = ATTRACT_SCALE - f;
    let nx = shrink(off.x, keep);
    let ny = shrink(off.y, keep);
    XpOrb { position: Vec2 { x: target.x + nx, y: target.y + ny }, scale: (d / 100) as i64, ..o }
}

} // verus!
