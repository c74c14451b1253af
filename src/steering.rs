use vstd::prelude::*;
use crate::actor::{Actor, MoveInput};
use crate::geometry::Vec2;
use crate::world::{World, actor_index, actors_wf, player_index};

verus! {

impl World {
    /// Points every enemy at the player. Nothing changes without a player.
    pub fn steer_enemies(&mut self)
        requires
            old(self).wf(),
        ensures
            final(self).wf(),
            ({
                let pi = player_index(old(self).actors@);
                if pi < 0 {
                    final(self).actors == old(self).actors
                } else {
                    final(self).actors@ == old(self).actors@.map_values(
                        |a: Actor| a.steer_enemy_spec(old(self).actors@[pi].position),
                    )
                }
            }),
            final(self).projectiles == old(self).projectiles,
            final(self).orbs == old(self).orbs,
            final(self).rules == old(self).rules,
            final(self).spawn_timer == old(self).spawn_timer,
            final(self).next_id == old(self).next_id,
    {
        let pi = match self.find_player() {
            Some(pi) => pi,
            None => {
                return;
            },
        };
        let target = self.actors[pi].position;
        proof {
            assert(self.actors@[pi as int].wf());
        }
        let ghost a0 = self.actors@;
        let mut i: usize = 0;
        while i < self.actors.len()
            invariant
                self.wf(),
                target.in_bounds(),
                target == a0[pi as int].position,
                pi < a0.len(),
                self.actors@.len() == a0.len(),
                i <= a0.len(),
                forall|k: int| 0 <= k < i ==> self.actors@[k] == a0[k].steer_enemy_spec(target),
                forall|k: int| i <= k < a0.len() ==> self.actors@[k] == a0[k],
                self.projectiles == old(self).projectiles,
                self.orbs == old(self).orbs,
                self.rules == old(self).rules,
                self.spawn_timer == old(self).spawn_timer,
                self.next_id == old(self).next_id,
            decreases a0.len() - i,
        {
            let a = self.actors[i];
            self.actors.set(i, a.steer_enemy(target));
            proof {
                assert(actors_wf(self.actors@));
            }
            i = i + 1;
        }
        proof {
            assert(self.actors@ =~= a0.map_values(|a: Actor| a.steer_enemy_spec(target)));
        }
    }

    /// Applies the directional input to the player.
    pub fn steer_player(&mut self, input: MoveInput)
        requires
            old(self).wf(),
        ensures
            final(self).wf(),
            final(self).actors@ == old(self).actors@.map_values(
                |a: Actor| a.steer_player_spec(input),
            ),
            final(self).projectiles == old(self).projectiles,
            final(self).orbs == old(self).orbs,
            final(self).rules == old(self).rules,
            final(self).spawn_timer == old(self).spawn_timer,
            final(self).next_id == old(self).next_id,
    {
        let ghost a0 = self.actors@;
        let mut i: usize = 0;
        while i < self.actors.len()
            invariant
                self.wf(),
                self.actors@.len() == a0.len(),
                i <= a0.len(),
                forall|k: int| 0 <= k < i ==> self.actors@[k] == a0[k].steer_player_spec(input),
                forall|k: int| i <= k < a0.len() ==> self.actors@[k] == a0[k],
                self.projectiles == old(self).projectiles,
                self.orbs == old(self).orbs,
                self.rules == old(self).rules,
                self.spawn_timer == old(self).spawn_timer,
                self.next_id == old(self).next_id,
            decreases a0.len() - i,
        {
            let a = self.actors[i];
            self.actors.set(i, a.steer_player(input));
            proof {
                assert(actors_wf(self.actors@));
            }
            i = i + 1;
        }
        proof {
            assert(self.actors@ =~= a0.map_values(|a: Actor| a.steer_player_spec(input)));
        }
    }

    /// Stops every enemy while the game waits in the upgrade interlude.
    pub fn pause_enemies(&mut self)
        requires
            old(self).wf(),
        ensures
            final(self).wf(),
            final(self).actors@ == old(self).actors@.map_values(|a: Actor| a.pause_spec()),
            final(self).projectiles == old(self).projectiles,
            final(self).orbs == old(self).orbs,
            final(self).rules == old(self).rules,
            final(self).spawn_timer == old(self).spawn_timer,
            final(self).next_id == old(self).next_id,
    {
        let ghost a0 = self.actors@;
        let mut i: usize = 0;
        while i < self.actors.len()
            invariant
                self.wf(),
                self.actors@.len() == a0.len(),
                i <= a0.len(),
                forall|k: int| 0 <= k < i ==> self.actors@[k] == a0[k].pause_spec(),
                forall|k: int| i <= k < a0.len() ==> self.actors@[k] == a0[k],
                self.projectiles == old(self).projectiles,
                self.orbs == old(self).orbs,
                self.rules == old(self).rules,
                self.spawn_timer == old(self).spawn_timer,
                self.next_id == old(self).next_id,
            decreases a0.len() - i,
        {
            let a = self.actors[i];
            self.actors.set(i, a.pause());
            proof {
                assert(actors_wf(self.actors@));
            }
            i = i + 1;
        }
        proof {
            assert(self.actors@ =~= a0.map_values(|a: Actor| a.pause_spec()));
        }
    }

    /// Records where the physics collaborator moved actor `id`. Returns
    /// whether such an actor exists.
    pub fn set_position(&mut self, id: u64, position: Vec2) -> (r: bool)
        requires
            old(self).wf(),
            position.in_bounds(),
        ensures
            final(self).wf(),
            ({
                let i = actor_index(old(self).actors@, id);
                &&& r == (i >= 0)
                &&& r ==> final(self).actors@ == old(self).actors@.update(
                    i,
                    Actor { position, ..old(self).actors@[i] },
                )
                &&& !r ==> final(self).actors == old(self).actors
            }),
            final(self).projectiles == old(self).projectiles,
            final(self).orbs == old(self).orbs,
            final(self).rules == old(self).rules,
            final(self).spawn_timer == old(self).spawn_timer,
            final(self).next_id == old(self).next_id,
    {
        match self.find_actor(id) {
            Some(i) => {
                let a = self.actors[i];
                proof {
                    assert(a.wf());
                }
                self.actors.set(i, Actor { position, ..a });
                proof {
                    assert(actors_wf(self.actors@));
                }
                true
            },
            None => false,
        }
    }
}

} // verus!
