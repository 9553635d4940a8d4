use vstd::prelude::*;

use crate::constants::{MAX_AGE_ON_START, N_CELLS, N_ENTITIES};
use crate::entity::{
    contact_step, dies, end_of_day, fertile, is_newborn_of, max_immunity, min_immunity, moved,
    Age, Entity, MAX_SPEED,
};
use crate::position::within_contact;
use crate::sampling::valid_counter;
use rand::rngs::StdRng;

verus! {

/// The entity after its move and one more year of age.
pub open spec fn aged(e: Entity) -> Entity {
    Entity { age: Age((e.age.0 + 1) as usize), ..moved(e) }
}

/// `e` after checking the first `j` entities of the snapshot, in order.
pub open spec fn contacts_upto(e: Entity, snap: Seq<Entity>, j: nat) -> Entity
    decreases j,
{
    if j == 0 {
        e
    } else {
        contact_step(contacts_upto(e, snap, (j - 1) as nat), snap[j - 1])
    }
}

/// What a turn makes of `e`, apart from its offspring: move and age, every
/// contact with the snapshot in order, then the health effect and one day of
/// the health state.
pub open spec fn turned(e: Entity, snap: Seq<Entity>) -> Entity {
    end_of_day(contacts_upto(aged(e), snap, snap.len()))
}

/// The entities of `s` that are not removed, in order.
pub open spec fn survivors(s: Seq<Entity>) -> Seq<Entity>
    decreases s.len(),
{
    if s.len() == 0 {
        s
    } else {
        survivors(s.drop_last()) + if dies(s.last()) {
            Seq::<Entity>::empty()
        } else {
            seq![s.last()]
        }
    }
}

/// `c` is a newborn of `m` and of an entity of the snapshot that `m` is in
/// contact with, both of fertile age.
pub open spec fn born_of_contact(m: Entity, snap: Seq<Entity>, c: Entity) -> bool {
    exists|j: int|
        0 <= j < snap.len() && within_contact(m.position, snap[j].position) && fertile(m.age.0)
            && fertile(snap[j].age.0) && #[trigger] is_newborn_of(c, m.position, snap[j].position)
}

/// Every entity of `kids` is born of a contact of `m`.
pub open spec fn valid_offspring(m: Entity, snap: Seq<Entity>, kids: Seq<Entity>) -> bool {
    forall|k: int| 0 <= k < kids.len() ==> born_of_contact(m, snap, #[trigger] kids[k])
}

/// The next population built from the first `n` entities of `prev`: for each,
/// its offspring and then itself after the turn, with the removed left out.
pub open spec fn generation_upto(prev: Seq<Entity>, broods: Seq<Seq<Entity>>, n: nat) -> Seq<Entity>
    decreases n,
{
    if n == 0 {
        Seq::empty()
    } else {
        generation_upto(prev, broods, (n - 1) as nat) + survivors(
            broods[n - 1].push(turned(prev[n - 1], prev)),
        )
    }
}

/// `next` is a turn's outcome from `prev`, for some offspring of each entity.
pub open spec fn is_next_generation(prev: Seq<Entity>, next: Seq<Entity>) -> bool {
    exists|broods: Seq<Seq<Entity>>|
        #![trigger generation_upto(prev, broods, prev.len())]
        broods.len() == prev.len() && (forall|k: int|
            0 <= k < prev.len() ==> valid_offspring(aged(prev[k]), prev, #[trigger] broods[k]))
            && next == generation_upto(prev, broods, prev.len())
}

impl Entity {
    /// A member of a population: well formed, not due for removal, and with
    /// immunity at most the maximum of its age.
    pub open spec fn viable(self) -> bool {
        &&& self.wf()
        &&& !dies(self)
        &&& self.immunity.0 <= max_immunity(self.age.0)
    }
}

/// One snapshot of the agents.
#[derive(Debug, Clone)]
pub struct Population {
    pub entities: Vec<Entity>,
}

impl Population {
    /// Every entity is a viable member.
    pub open spec fn wf(&self) -> bool {
        forall|i: int| 0 <= i < self.entities@.len() ==> (#[trigger] self.entities@[i]).viable()
    }

    /// The initial population: `N_ENTITIES` entities drawn independently.
    pub fn new(rng: &mut StdRng) -> (r: Population)
        ensures
            r.entities@.len() == N_ENTITIES,
            r.wf(),
            forall|i: int|
                0 <= i < r.entities@.len() ==> {
                    let e = #[trigger] r.entities@[i];
                    &&& e.direction.is_compass()
                    &&& e.age.0 <= MAX_AGE_ON_START
                    &&& min_immunity(e.age.0) <= e.immunity.0 <= max_immunity(e.age.0)
                    &&& valid_counter(e.health)
                },
    {
        let mut entities: Vec<Entity> = Vec::new();
        for i in 0..N_ENTITIES
            invariant
                entities@.len() == i,
                forall|k: int|
                    0 <= k < entities@.len() ==> {
                        let e = #[trigger] entities@[k];
                        &&& e.viable()
                        &&& e.direction.is_compass()
                        &&& e.age.0 <= MAX_AGE_ON_START
                        &&& min_immunity(e.age.0) <= e.immunity.0 <= max_immunity(e.age.0)
                        &&& valid_counter(e.health)
                    },
        {
            entities.push(Entity::new_random(rng));
        }
        Population { entities }
    }

    /// Whether every entity is a viable member, as `advance` requires.
    pub fn is_well_formed(&self) -> (r: bool)
        ensures
            r == self.wf(),
    {
        let n = self.entities.len();
        for i in 0..n
            invariant
                n == self.entities@.len(),
                forall|k: int| 0 <= k < i ==> (#[trigger] self.entities@[k]).viable(),
        {
            let e = &self.entities[i];
            let in_grid = e.position.x < N_CELLS && e.position.y < N_CELLS;
            let unit = -1 <= e.direction.x && e.direction.x <= 1 && -1 <= e.direction.y
                && e.direction.y <= 1;
            let speed = 1 <= e.speed.0 && e.speed.0 <= MAX_SPEED;
            if !(in_grid && unit && speed && !e.should_die()
                && e.immunity.0 <= e.get_maximum_immunity_for_age()) {
                return false;
            }
        }
        true
    }

    /// The next turn: each entity, copied from this snapshot, moves and ages,
    /// reacts to every entity of this snapshot within contact (itself
    /// included) in order, takes its health effect and one day of its health
    /// state; then each entity's offspring and the entity itself are listed,
    /// leaving out those too old or without immunity.
    pub fn advance(&self, rng: &mut StdRng) -> (r: Population)
        requires
            self.wf(),
        ensures
            r.wf(),
            is_next_generation(self.entities@, r.entities@),
    {
        let prev = &self.entities;
        let n = prev.len();
        let mut next: Vec<Entity> = Vec::new();
        let ghost mut broods: Seq<Seq<Entity>> = Seq::empty();
        for i in 0..n
            invariant
                n == prev@.len(),
                prev@ == self.entities@,
                self.wf(),
                broods.len() == i,
                forall|k: int|
                    0 <= k < i ==> valid_offspring(aged(prev@[k]), prev@, #[trigger] broods[k]),
                next@ == generation_upto(prev@, broods, i as nat),
                forall|k: int| 0 <= k < next@.len() ==> (#[trigger] next@[k]).viable(),
        {
            let mut entity = prev[i];
            assert(self.entities@[i as int].viable());
            entity.make_move();
            entity.age = Age(entity.age.0 + 1);
            let ghost m = entity;
            let mut children: Vec<Entity> = Vec::new();
            for j in 0..n
                invariant
                    n == prev@.len(),
                    prev@ == self.entities@,
                    self.wf(),
                    entity == contacts_upto(m, prev@, j as nat),
                    entity.wf(),
                    entity.position == m.position,
                    entity.age == m.age,
                    m.wf(),
                    valid_offspring(m, prev@, children@),
                    forall|k: int| 0 <= k < children@.len() ==> (#[trigger] children@[k]).viable(),
            {
                let ghost before = children@;
                let ghost e_before = entity;
                assert(self.entities@[j as int].viable());
                entity.check_contact(&prev[j], rng, &mut children);
                assert forall|k: int| 0 <= k < children@.len() implies {
                    &&& (#[trigger] children@[k]).viable()
                    &&& born_of_contact(m, prev@, children@[k])
                } by {
                    if k < before.len() {
                        assert(children@[k] == before[k]);
                        assert(before[k] == children@.subrange(0, before.len() as int)[k]);
                    } else {
                        assert(is_newborn_of(children@[k], m.position, prev@[j as int].position));
                        assert(within_contact(e_before.position, prev@[j as int].position));
                    }
                }
            }
            entity.apply_health_effect();
            entity.advance_health_by_day();
            assert(entity == turned(prev@[i as int], prev@));
            let ghost base = next@;
            let c = children.len();
            for k in 0..c
                invariant
                    c == children@.len(),
                    next@ == base + survivors(children@.take(k as int)),
                    forall|q: int| 0 <= q < children@.len() ==> (#[trigger] children@[q]).viable(),
                    forall|q: int| 0 <= q < next@.len() ==> (#[trigger] next@[q]).viable(),
            {
                assert(children@.take(k + 1).drop_last() =~= children@.take(k as int));
                if !children[k].should_die() {
                    next.push(children[k]);
                    assert(next@ =~= base + survivors(children@.take(k + 1)));
                } else {
                    assert(next@ =~= base + survivors(children@.take(k + 1)));
                }
            }
            assert(children@.take(c as int) =~= children@);
            let ghost brood = children@.push(entity);
            assert(brood.drop_last() =~= children@);
            if !entity.should_die() {
                next.push(entity);
            }
            proof {
                let ghost old_broods = broods;
                broods = broods.push(children@);
                assert(broods.drop_last() =~= old_broods);
                assert(survivors(brood) == survivors(children@) + if dies(entity) {
                    Seq::<Entity>::empty()
                } else {
                    seq![entity]
                });
                assert(broods[i as int] == children@);
                assert(generation_upto(prev@, broods, i as nat) == generation_upto(
                    prev@,
                    broods.drop_last(),
                    i as nat,
                )) by {
                    lemma_generation_prefix(prev@, broods.drop_last(), broods, i as nat);
                }
                assert(generation_upto(prev@, broods, (i + 1) as nat) == generation_upto(
                    prev@,
                    broods,
                    i as nat,
                ) + survivors(brood));
                assert(next@ =~= generation_upto(prev@, broods, (i + 1) as nat));
            }
        }
        Population { entities: next }
    }
}

/// `generation_upto` reads only the first `n` broods.
proof fn lemma_generation_prefix(
    prev: Seq<Entity>,
    a: Seq<Seq<Entity>>,
    b: Seq<Seq<Entity>>,
    n: nat,
)
    requires
        n <= a.len(),
        n <= b.len(),
        forall|k: int| 0 <= k < n ==> a[k] == b[k],
    ensures
        generation_upto(prev, a, n) == generation_upto(prev, b, n),
    decreases n,
{
    if n > 0 {
        lemma_generation_prefix(prev, a, b, (n - 1) as nat);
    }
}

} // verus!
