use vstd::prelude::*;

use crate::constants::MAX_AGE;
use crate::entity::{
    contact_outcome, dies, is_newborn_of, max_immunity, min_immunity, Entity,
};
use crate::health::{fresh_sick, HealthState};
use crate::immunity::bracket_for_age;
use crate::population::{
    aged, born_of_contact, contacts_upto, generation_upto, is_next_generation, survivors, turned,
    valid_offspring,
};

verus! {

/// Every entity of a snapshot after its turn, offspring aside.
pub open spec fn all_turned(prev: Seq<Entity>) -> Seq<Entity> {
    Seq::new(prev.len(), |i: int| turned(prev[i], prev))
}

/// Number of offspring in the first `n` broods.
pub open spec fn offspring_count(broods: Seq<Seq<Entity>>, n: nat) -> nat
    decreases n,
{
    if n == 0 {
        0
    } else {
        offspring_count(broods, (n - 1) as nat) + broods[n - 1].len()
    }
}

/// The removal filter distributes over concatenation.
pub proof fn lemma_survivors_concat(a: Seq<Entity>, b: Seq<Entity>)
    ensures
        survivors(a + b) == survivors(a) + survivors(b),
    decreases b.len(),
{
    if b.len() == 0 {
        assert(a + b =~= a);
        assert(survivors(a) + survivors(b) =~= survivors(a));
    } else {
        assert((a + b).drop_last() =~= a + b.drop_last());
        assert((a + b).last() == b.last());
        lemma_survivors_concat(a, b.drop_last());
    }
}

/// Newborns are never removed in the turn of their birth.
proof fn lemma_newborns_survive(s: Seq<Entity>, m: Entity, snap: Seq<Entity>)
    requires
        valid_offspring(m, snap, s),
    ensures
        survivors(s) == s,
    decreases s.len(),
{
    if s.len() > 0 {
        assert(born_of_contact(m, snap, s[s.len() - 1]));
        let j = choose|j: int|
            0 <= j < snap.len() && #[trigger] is_newborn_of(
                s[s.len() - 1],
                m.position,
                snap[j].position,
            );
        assert(!dies(s.last()));
        assert(valid_offspring(m, snap, s.drop_last())) by {
            assert forall|k: int| 0 <= k < s.drop_last().len() implies born_of_contact(
                m,
                snap,
                #[trigger] s.drop_last()[k],
            ) by {
                assert(s.drop_last()[k] == s[k]);
            }
        }
        lemma_newborns_survive(s.drop_last(), m, snap);
        assert(s.drop_last().push(s.last()) =~= s);
    }
}

proof fn lemma_generation_size_upto(prev: Seq<Entity>, broods: Seq<Seq<Entity>>, n: nat)
    requires
        n <= prev.len(),
        broods.len() == prev.len(),
        forall|k: int| 0 <= k < prev.len() ==> valid_offspring(aged(prev[k]), prev, #[trigger] broods[k]),
    ensures
        generation_upto(prev, broods, n).len() == survivors(all_turned(prev).take(n as int)).len()
            + offspring_count(broods, n),
    decreases n,
{
    if n == 0 {
        assert(all_turned(prev).take(0) =~= Seq::<Entity>::empty());
    } else {
        let t = turned(prev[n - 1], prev);
        let kids = broods[n - 1];
        lemma_generation_size_upto(prev, broods, (n - 1) as nat);
        assert(kids.push(t).drop_last() =~= kids);
        lemma_newborns_survive(kids, aged(prev[n - 1]), prev);
        assert(all_turned(prev).take(n as int).drop_last() =~= all_turned(prev).take(n - 1));
    }
}

/// The size of a turn's outcome is the number of entities that survive the
/// turn plus the number of their offspring.
pub proof fn lemma_generation_size(prev: Seq<Entity>, broods: Seq<Seq<Entity>>)
    requires
        broods.len() == prev.len(),
        forall|k: int| 0 <= k < prev.len() ==> valid_offspring(aged(prev[k]), prev, #[trigger] broods[k]),
    ensures
        generation_upto(prev, broods, prev.len()).len() == survivors(all_turned(prev)).len()
            + offspring_count(broods, prev.len()),
{
    lemma_generation_size_upto(prev, broods, prev.len());
    assert(all_turned(prev).take(prev.len() as int) =~= all_turned(prev));
}

proof fn lemma_contacts_keep_age(e: Entity, snap: Seq<Entity>, j: nat)
    requires
        j <= snap.len(),
    ensures
        contacts_upto(e, snap, j).age == e.age,
        contacts_upto(e, snap, j).position == e.position,
    decreases j,
{
    if j > 0 {
        lemma_contacts_keep_age(e, snap, (j - 1) as nat);
    }
}

/// A turn makes an entity one year older, so one of age `MAX_AGE - 1` is
/// removed at the end of it.
pub proof fn lemma_turn_ages(e: Entity, snap: Seq<Entity>)
    requires
        e.age.0 < MAX_AGE,
    ensures
        turned(e, snap).age.0 == e.age.0 + 1,
        e.age.0 == MAX_AGE - 1 ==> dies(turned(e, snap)),
{
    lemma_contacts_keep_age(aged(e), snap, snap.len());
}

/// Contact is directional: with both entities healthy the acting one's
/// immunity becomes the maximum of its age; with both sick it becomes the
/// minimum of its age and the acting one's sickness starts over.
pub proof fn lemma_directional_rules(e: Entity, o: Entity)
    ensures
        e.health == HealthState::Healthy && o.health == HealthState::Healthy ==> {
            &&& contact_outcome(e, o).immunity.0 == max_immunity(e.age.0)
            &&& contact_outcome(e, o).health == HealthState::Healthy
        },
        e.health is Sick && o.health is Sick ==> {
            &&& contact_outcome(e, o).immunity.0 == min_immunity(e.age.0)
            &&& contact_outcome(e, o).health == fresh_sick()
        },
{
}

proof fn lemma_generation_members(prev: Seq<Entity>, broods: Seq<Seq<Entity>>, n: nat)
    requires
        n <= prev.len(),
        broods.len() == prev.len(),
        forall|k: int| 0 <= k < prev.len() ==> valid_offspring(aged(prev[k]), prev, #[trigger] broods[k]),
        forall|k: int| 0 <= k < prev.len() ==> (#[trigger] prev[k]).age.0 < MAX_AGE,
    ensures
        forall|x: int|
            0 <= x < generation_upto(prev, broods, n).len() ==> {
                let y = #[trigger] generation_upto(prev, broods, n)[x];
                &&& !dies(y)
                &&& (y.age.0 == 0 || exists|i: int|
                    0 <= i < prev.len() && y.age.0 == (#[trigger] prev[i]).age.0 + 1)
            },
    decreases n,
{
    if n > 0 {
        lemma_generation_members(prev, broods, (n - 1) as nat);
        let t = turned(prev[n - 1], prev);
        let kids = broods[n - 1];
        lemma_turn_ages(prev[n - 1], prev);
        lemma_newborns_survive(kids, aged(prev[n - 1]), prev);
        assert(kids.push(t).drop_last() =~= kids);
        let g = generation_upto(prev, broods, n);
        let g0 = generation_upto(prev, broods, (n - 1) as nat);
        let tail = if dies(t) {
            Seq::<Entity>::empty()
        } else {
            seq![t]
        };
        assert(g == g0 + kids + tail);
        assert forall|x: int| 0 <= x < g.len() implies {
            let y = #[trigger] g[x];
            &&& !dies(y)
            &&& (y.age.0 == 0 || exists|i: int|
                0 <= i < prev.len() && y.age.0 == (#[trigger] prev[i]).age.0 + 1)
        } by {
            if x < g0.len() {
                assert(g[x] == g0[x]);
            } else if x < g0.len() + kids.len() {
                assert(g[x] == kids[x - g0.len()]);
                assert(born_of_contact(aged(prev[n - 1]), prev, kids[x - g0.len()]));
                let j = choose|j: int|
                    0 <= j < prev.len() && #[trigger] is_newborn_of(
                        kids[x - g0.len()],
                        aged(prev[n - 1]).position,
                        prev[j].position,
                    );
            } else {
                assert(g[x] == t);
                assert(t.age.0 == prev[n - 1].age.0 + 1);
            }
        }
    }
}

/// Every entity after `t` turns was either present at the start, `t` years
/// older now, or born during the run and younger than `t`.
pub open spec fn founder_or_young(pops: Seq<Seq<Entity>>, t: int, y: Entity) -> bool {
    y.age.0 < t || exists|i: int|
        0 <= i < pops[0].len() && y.age.0 == (#[trigger] pops[0][i]).age.0 + t
}

proof fn lemma_founder_ages(pops: Seq<Seq<Entity>>, t: int)
    requires
        0 <= t < pops.len(),
        forall|k: int| 0 <= k < pops.len() - 1 ==> is_next_generation(#[trigger] pops[k], pops[k + 1]),
        forall|i: int| 0 <= i < pops[0].len() ==> !dies(#[trigger] pops[0][i]),
    ensures
        forall|x: int| 0 <= x < pops[t].len() ==> founder_or_young(pops, t, #[trigger] pops[t][x]),
    decreases t,
{
    if t > 0 {
        lemma_founder_ages(pops, t - 1);
        let prev = pops[t - 1];
        let next = pops[t];
        assert(is_next_generation(prev, next));
        let broods = choose|broods: Seq<Seq<Entity>>|
            #![trigger generation_upto(prev, broods, prev.len())]
            broods.len() == prev.len() && (forall|k: int|
                0 <= k < prev.len() ==> valid_offspring(aged(prev[k]), prev, #[trigger] broods[k]))
                && next == generation_upto(prev, broods, prev.len());
        assert forall|k: int| 0 <= k < prev.len() implies (#[trigger] prev[k]).age.0 < MAX_AGE by {
            if t - 1 == 0 {
                assert(!dies(pops[0][k]));
            } else {
                lemma_members_alive(pops, t - 1, k);
            }
        }
        lemma_generation_members(prev, broods, prev.len());
        assert forall|x: int| 0 <= x < next.len() implies founder_or_young(
            pops,
            t,
            #[trigger] next[x],
        ) by {
            let y = next[x];
            if y.age.0 != 0 {
                let i = choose|i: int| 0 <= i < prev.len() && y.age.0 == (#[trigger] prev[i]).age.0 + 1;
                assert(founder_or_young(pops, t - 1, prev[i]));
            }
        }
    }
}

/// Every entity after `t` turns was either present at the start, `t` years
/// older now, or born during the run and younger than `t`; once `t` reaches
/// `MAX_AGE`, none of the starting entities is left.
pub proof fn lemma_founders_removed(pops: Seq<Seq<Entity>>)
    requires
        pops.len() >= 1,
        forall|k: int| 0 <= k < pops.len() - 1 ==> is_next_generation(#[trigger] pops[k], pops[k + 1]),
        forall|i: int| 0 <= i < pops[0].len() ==> !dies(#[trigger] pops[0][i]),
    ensures
        forall|t: int, x: int|
            0 <= t < pops.len() && 0 <= x < pops[t].len() ==> founder_or_young(
                pops,
                t,
                #[trigger] pops[t][x],
            ),
        forall|t: int, x: int|
            MAX_AGE <= t < pops.len() && 0 <= x < pops[t].len() ==> {
                let y = #[trigger] pops[t][x];
                y.age.0 < t && !exists|i: int|
                    0 <= i < pops[0].len() && y.age.0 == (#[trigger] pops[0][i]).age.0 + t
            },
{
    assert forall|t: int, x: int|
        0 <= t < pops.len() && 0 <= x < pops[t].len() implies founder_or_young(
            pops,
            t,
            #[trigger] pops[t][x],
        ) by {
        lemma_founder_ages(pops, t);
    }
    assert forall|t: int, x: int| MAX_AGE <= t < pops.len() && 0 <= x < pops[t].len() implies {
        let y = #[trigger] pops[t][x];
        y.age.0 < t && !exists|i: int|
            0 <= i < pops[0].len() && y.age.0 == (#[trigger] pops[0][i]).age.0 + t
    } by {
        lemma_members_alive(pops, t, x);
    }
}

/// Entities after at least one turn are never due for removal.
proof fn lemma_members_alive(pops: Seq<Seq<Entity>>, t: int, x: int)
    requires
        1 <= t < pops.len(),
        0 <= x < pops[t].len(),
        forall|k: int| 0 <= k < pops.len() - 1 ==> is_next_generation(#[trigger] pops[k], pops[k + 1]),
    ensures
        !dies(pops[t][x]),
{
    let prev = pops[t - 1];
    let next = pops[t];
    assert(is_next_generation(prev, next));
    let broods = choose|broods: Seq<Seq<Entity>>|
        #![trigger generation_upto(prev, broods, prev.len())]
        broods.len() == prev.len() && (forall|k: int|
            0 <= k < prev.len() ==> valid_offspring(aged(prev[k]), prev, #[trigger] broods[k]))
            && next == generation_upto(prev, broods, prev.len());
    lemma_generation_survivors(prev, broods, prev.len());
}

proof fn lemma_survivors_alive(s: Seq<Entity>)
    ensures
        forall|x: int| 0 <= x < survivors(s).len() ==> !dies(#[trigger] survivors(s)[x]),
    decreases s.len(),
{
    if s.len() > 0 {
        lemma_survivors_alive(s.drop_last());
        let a = survivors(s.drop_last());
        assert forall|x: int| 0 <= x < survivors(s).len() implies !dies(#[trigger] survivors(s)[x]) by {
            if x < a.len() {
                assert(survivors(s)[x] == a[x]);
            }
        }
    }
}

proof fn lemma_generation_survivors(prev: Seq<Entity>, broods: Seq<Seq<Entity>>, n: nat)
    requires
        n <= broods.len(),
        n <= prev.len(),
    ensures
        forall|x: int|
            0 <= x < generation_upto(prev, broods, n).len() ==> !dies(
                #[trigger] generation_upto(prev, broods, n)[x],
            ),
    decreases n,
{
    if n > 0 {
        lemma_generation_survivors(prev, broods, (n - 1) as nat);
        let s = broods[n - 1].push(turned(prev[n - 1], prev));
        lemma_survivors_alive(s);
        let g0 = generation_upto(prev, broods, (n - 1) as nat);
        let g = generation_upto(prev, broods, n);
        assert forall|x: int| 0 <= x < g.len() implies !dies(#[trigger] g[x]) by {
            if x < g0.len() {
                assert(g[x] == g0[x]);
            } else {
                assert(g[x] == survivors(s)[x - g0.len()]);
            }
        }
    }
}

/// The entity after `n` turns alone, with no one to meet.
pub open spec fn isolated(e: Entity, n: nat) -> Entity
    decreases n,
{
    if n == 0 {
        e
    } else {
        turned(isolated(e, (n - 1) as nat), Seq::empty())
    }
}

/// A healthy entity alone, with immunity at the maximum of its age, keeps its
/// health and immunity turn after turn while only its age grows, as long as
/// its age stays in the same bracket.
pub proof fn lemma_isolated_healthy_stable(e: Entity, n: nat)
    requires
        e.health == HealthState::Healthy,
        e.immunity.0 == max_immunity(e.age.0),
        e.age.0 + n < MAX_AGE,
        forall|k: nat| k <= n ==> #[trigger] bracket_for_age((e.age.0 + k) as usize) == bracket_for_age(
            e.age.0,
        ),
    ensures
        isolated(e, n).health == HealthState::Healthy,
        isolated(e, n).immunity == e.immunity,
        isolated(e, n).age.0 == e.age.0 + n,
    decreases n,
{
    if n > 0 {
        lemma_isolated_healthy_stable(e, (n - 1) as nat);
        assert(bracket_for_age((e.age.0 + n) as usize) == bracket_for_age(e.age.0));
        assert(bracket_for_age((e.age.0 + (n - 1) as nat) as usize) == bracket_for_age(e.age.0));
    }
}

} // verus!
