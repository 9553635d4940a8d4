use vstd::prelude::*;

use crate::constants::{
    BIRTH_ON_CONTACT_DENOMINATOR, BIRTH_ON_CONTACT_NUMERATOR, MAX_AGE, MAX_AGE_ON_START,
    MAX_BIRTH_AGE, MAX_CHILDREN_PER_BIRTH, MIN_BIRTH_AGE, N_CELLS,
};
use crate::health::{fresh_infected, fresh_sick, next_day, HealthState};
use crate::immunity::{
    bracket_for_age, low, medium, range_max, range_min, shifted, Immunity, ImmunityRange,
};
use crate::position::{in_grid, is_within_contact, midpoint, within_contact, Direction, Position};
use crate::random::bernoulli_trial;
use crate::sampling::{
    random_age, random_direction, random_health, random_position, random_speed, valid_counter,
};
use rand::rngs::StdRng;

verus! {

/// Age in turns.
#[derive(Debug, Clone, Copy, PartialEq, Eq, Structural)]
pub struct Age(pub usize);

/// Steps taken per turn.
#[derive(Debug, Clone, Copy, PartialEq, Eq, Structural)]
pub struct Speed(pub usize);

/// Fastest speed an entity can have.
pub const MAX_SPEED: usize = 3;

/// A single agent of the population.
#[derive(Debug, Clone, Copy, PartialEq, Eq, Structural)]
pub struct Entity {
    pub position: Position,
    pub speed: Speed,
    pub direction: Direction,
    pub health: HealthState,
    pub age: Age,
    pub immunity: Immunity,
}

/// Direction after the border check made before each step: on the left or
/// right edge the x step becomes +1; on the bottom edge the y step becomes +1,
/// on the top edge -1.
pub open spec fn reflected(p: Position, d: Direction) -> Direction {
    Direction {
        x: if p.x == 0 || p.x == N_CELLS {
            1
        } else {
            d.x
        },
        y: if p.y == 0 {
            1
        } else if p.y == N_CELLS {
            -1i32
        } else {
            d.y
        },
    }
}

/// One unit step: reflect on the border, then move by the direction.
pub open spec fn step(p: Position, d: Direction) -> (Position, Direction) {
    let nd = reflected(p, d);
    (Position { x: (p.x + nd.x) as usize, y: (p.y + nd.y) as usize }, nd)
}

/// Position and direction after `n` unit steps.
pub open spec fn walk(p: Position, d: Direction, n: nat) -> (Position, Direction)
    decreases n,
{
    if n == 0 {
        (p, d)
    } else {
        let prev = walk(p, d, (n - 1) as nat);
        step(prev.0, prev.1)
    }
}

/// A coordinate past the grid is brought back to its last cell.
pub open spec fn clamped(v: usize) -> usize {
    if v >= N_CELLS {
        (N_CELLS - 1) as usize
    } else {
        v
    }
}

/// The entity after its move of `speed` unit steps.
pub open spec fn moved(e: Entity) -> Entity {
    let w = walk(e.position, e.direction, e.speed.0 as nat);
    Entity { position: Position { x: clamped(w.0.x), y: clamped(w.0.y) }, direction: w.1, ..e }
}

/// Largest immunity allowed at an age, in hundredths.
pub open spec fn max_immunity(age: usize) -> i64 {
    range_max(bracket_for_age(age))
}

/// Smallest immunity of the bracket of an age, in hundredths.
pub open spec fn min_immunity(age: usize) -> i64 {
    range_min(bracket_for_age(age))
}

/// Change of immunity per turn that a health state brings, in hundredths.
pub open spec fn health_delta(h: HealthState) -> int {
    match h {
        HealthState::Infected { .. } => -10,
        HealthState::Sick { .. } => -50,
        HealthState::Recovering { .. } => 10,
        HealthState::Healthy => 5,
    }
}

/// Immunity kept at or below the maximum of the entity's age.
pub open spec fn capped(v: i64, age: usize) -> i64 {
    if v > max_immunity(age) {
        max_immunity(age)
    } else {
        v
    }
}

/// The entity after the health effect on immunity, with the cap applied.
pub open spec fn with_health_effect(e: Entity) -> Entity {
    Entity { immunity: Immunity(capped(shifted(e.immunity.0, health_delta(e.health)), e.age.0)), ..e }
}

/// End of a turn's health work: the health effect on immunity, then one day
/// of the health state.
pub open spec fn end_of_day(e: Entity) -> Entity {
    let h = with_health_effect(e);
    Entity { health: next_day(h.health), ..h }
}

/// Whether an entity is removed at the end of a turn.
pub open spec fn dies(e: Entity) -> bool {
    e.age.0 >= MAX_AGE || e.immunity.0 <= 0
}

impl Entity {
    /// On the grid, with a unit direction and a speed from 1 to `MAX_SPEED`.
    pub open spec fn wf(self) -> bool {
        &&& in_grid(self.position)
        &&& self.direction.wf()
        &&& 1 <= self.speed.0 <= MAX_SPEED
    }

    /// Moves `speed` unit steps, reflecting on the border before each, then
    /// brings a coordinate that left the grid back to its last cell.
    pub fn make_move(&mut self)
        requires
            old(self).wf(),
        ensures
            *final(self) == moved(*old(self)),
            final(self).wf(),
    {
        let ghost start = *self;
        let n = self.speed.0;
        for i in 0..n
            invariant
                n == start.speed.0,
                1 <= n <= MAX_SPEED,
                (self.position, self.direction) == walk(start.position, start.direction, i as nat),
                self.position.x <= N_CELLS + i,
                self.position.y <= N_CELLS + i,
                self.direction.wf(),
                *self == (Entity { position: self.position, direction: self.direction, ..start }),
        {
            self.revert_direction_if_on_border();
            let x = self.position.x;
            let y = self.position.y;
            let new_x = if self.direction.x == 1 {
                x + 1
            } else if self.direction.x == -1 {
                x - 1
            } else {
                x
            };
            let new_y = if self.direction.y == 1 {
                y + 1
            } else if self.direction.y == -1 {
                y - 1
            } else {
                y
            };
            self.position = Position { x: new_x, y: new_y };
        }
        if self.position.x >= N_CELLS {
            self.position.x = N_CELLS - 1;
        }
        if self.position.y >= N_CELLS {
            self.position.y = N_CELLS - 1;
        }
    }

    fn revert_direction_if_on_border(&mut self)
        requires
            old(self).direction.wf(),
        ensures
            final(self).direction == reflected(old(self).position, old(self).direction),
            final(self).direction.wf(),
            *final(self) == (Entity { direction: final(self).direction, ..*old(self) }),
    {
        if self.position.x == 0 {
            self.direction.x = 1;
        }
        if self.position.x == N_CELLS {
            self.direction.x = 1;
        }
        if self.position.y == 0 {
            self.direction.y = 1;
        }
        if self.position.y == N_CELLS {
            self.direction.y = -1;
        }
    }

    /// The immunity bracket of an age.
    pub fn get_immunity_for_age(age: Age) -> (r: ImmunityRange)
        ensures
            r == bracket_for_age(age.0),
    {
        if 15 <= age.0 && age.0 <= 39 {
            ImmunityRange::Normal
        } else if 40 <= age.0 && age.0 <= 69 {
            ImmunityRange::High
        } else {
            ImmunityRange::Low
        }
    }

    /// Whether the entity is too old or has no immunity left.
    pub fn should_die(&self) -> (r: bool)
        ensures
            r == dies(*self),
    {
        self.age.0 >= MAX_AGE || self.immunity.0 <= 0
    }

    /// Lowers the immunity to the maximum of the entity's age where it is above.
    pub fn clamp_immunity_by_age(&mut self)
        ensures
            *final(self) == (Entity {
                immunity: Immunity(capped(old(self).immunity.0, old(self).age.0)),
                ..*old(self)
            }),
    {
        let max = self.get_maximum_immunity_for_age();
        if self.immunity.0 > max {
            self.immunity = Immunity(max);
        }
    }

    pub fn get_maximum_immunity_for_age(&self) -> (r: i64)
        ensures
            r == max_immunity(self.age.0),
    {
        Self::get_immunity_for_age(self.age).max()
    }

    pub fn get_minimum_immunity_for_age(&self) -> (r: i64)
        ensures
            r == min_immunity(self.age.0),
    {
        Self::get_immunity_for_age(self.age).min()
    }

    /// Applies the turn's health-driven change of immunity, then the cap of
    /// the entity's age.
    pub fn apply_health_effect(&mut self)
        ensures
            *final(self) == with_health_effect(*old(self)),
    {
        let delta: i64 = match self.health {
            HealthState::Infected { .. } => -10,
            HealthState::Sick { .. } => -50,
            HealthState::Recovering { .. } => 10,
            HealthState::Healthy => 5,
        };
        self.immunity = self.immunity.shifted_by(delta);
        self.clamp_immunity_by_age();
    }

    /// Advances the health state by one day.
    pub fn advance_health_by_day(&mut self)
        ensures
            *final(self) == (Entity { health: next_day(old(self).health), ..*old(self) }),
    {
        self.health = self.health.next();
    }
}

/// The contagion table: the acting entity's new health and immunity after a
/// contact, from its own health, the other's health, its immunity and its age.
pub open spec fn contact_rule(own: HealthState, other: HealthState, imm: i64, age: usize) -> (
    HealthState,
    i64,
) {
    let exposed = low(imm) || medium(imm);
    match (own, other) {
        (HealthState::Healthy, HealthState::Healthy) => (own, max_immunity(age)),
        (HealthState::Healthy, HealthState::Infected { .. }) => if low(imm) {
            (fresh_sick(), imm)
        } else {
            (own, imm)
        },
        (HealthState::Healthy, HealthState::Sick { .. }) => if exposed {
            (fresh_infected(), imm)
        } else {
            (own, shifted(imm, -300))
        },
        (HealthState::Healthy, HealthState::Recovering { .. }) => (own, imm),
        (HealthState::Infected { .. }, HealthState::Healthy) => (own, imm),
        (HealthState::Infected { .. }, HealthState::Infected { .. }) => (own, shifted(imm, -100)),
        (HealthState::Infected { .. }, HealthState::Sick { .. }) => if exposed {
            (fresh_sick(), imm)
        } else {
            (own, imm)
        },
        (HealthState::Infected { .. }, HealthState::Recovering { .. }) => (own, shifted(imm, -100)),
        (HealthState::Sick { .. }, HealthState::Healthy) => (own, imm),
        (HealthState::Sick { .. }, HealthState::Infected { .. }) => (fresh_sick(), imm),
        (HealthState::Sick { .. }, HealthState::Sick { .. }) => (fresh_sick(), min_immunity(age)),
        (HealthState::Sick { .. }, HealthState::Recovering { .. }) => if exposed {
            (fresh_infected(), imm)
        } else {
            (own, imm)
        },
        (HealthState::Recovering { .. }, HealthState::Healthy) => (own, shifted(imm, 100)),
        (HealthState::Recovering { .. }, HealthState::Infected { .. }) => (own, shifted(imm, -100)),
        (HealthState::Recovering { .. }, HealthState::Sick { .. }) => if exposed {
            (fresh_infected(), imm)
        } else {
            (own, imm)
        },
        (HealthState::Recovering { .. }, HealthState::Recovering { .. }) => (own, imm),
    }
}

/// The acting entity after a contact with `o`: its direction reversed, its
/// health and immunity by the contagion table.
pub open spec fn contact_outcome(e: Entity, o: Entity) -> Entity {
    let r = contact_rule(e.health, o.health, e.immunity.0, e.age.0);
    Entity { direction: e.direction.reversed(), health: r.0, immunity: Immunity(r.1), ..e }
}

/// The acting entity after checking `o`: the contact outcome when the two are
/// in contact, else unchanged.
pub open spec fn contact_step(e: Entity, o: Entity) -> Entity {
    if within_contact(e.position, o.position) {
        contact_outcome(e, o)
    } else {
        e
    }
}

/// Whether an age allows having offspring.
pub open spec fn fertile(age: usize) -> bool {
    MIN_BIRTH_AGE <= age <= MAX_BIRTH_AGE
}

/// Whether `c` is a fresh newborn of parents standing on `p` and `q`: at their
/// midpoint, healthy, of age 0, with the maximum immunity of the low bracket,
/// and with a drawn speed and compass direction.
pub open spec fn is_newborn_of(c: Entity, p: Position, q: Position) -> bool {
    &&& c.position == midpoint(p, q)
    &&& c.health == HealthState::Healthy
    &&& c.age.0 == 0
    &&& c.immunity.0 == range_max(ImmunityRange::Low)
    &&& 1 <= c.speed.0 <= MAX_SPEED
    &&& c.direction.is_compass()
}

/// `after` is `before` followed by newborns of `e` and `o`, and holds more
/// only where `may_birth` holds.
pub open spec fn offspring_added(
    before: Seq<Entity>,
    after: Seq<Entity>,
    e: Entity,
    o: Entity,
    may_birth: bool,
) -> bool {
    &&& before.len() <= after.len()
    &&& after.subrange(0, before.len() as int) == before
    &&& forall|k: int|
        before.len() <= k < after.len() ==> is_newborn_of(#[trigger] after[k], e.position, o.position)
    &&& after.len() > before.len() ==> may_birth
}

impl Entity {
    /// A new entity drawn at random: position, age, immunity within the
    /// bracket of its age, health, speed and direction.
    pub fn new_random(rng: &mut StdRng) -> (r: Entity)
        ensures
            r.wf(),
            r.direction.is_compass(),
            r.age.0 <= MAX_AGE_ON_START,
            min_immunity(r.age.0) <= r.immunity.0 <= max_immunity(r.age.0),
            valid_counter(r.health),
    {
        let position = random_position(rng);
        let age = random_age(rng);
        let immunity = Self::get_immunity_for_age(age).random_in_range(rng);
        let health = random_health(rng);
        let speed = random_speed(rng);
        let direction = random_direction(rng);
        Entity { position, speed, direction, health, age, immunity }
    }

    /// Offspring of a birth with `other`: `MAX_CHILDREN_PER_BIRTH` newborns at
    /// the parents' midpoint when both ages lie from `MIN_BIRTH_AGE` to
    /// `MAX_BIRTH_AGE`, none otherwise.
    pub fn give_birth_if_suitable(&self, other: &Entity, rng: &mut StdRng) -> (r: Vec<Entity>)
        requires
            in_grid(self.position),
            in_grid(other.position),
        ensures
            fertile(self.age.0) && fertile(other.age.0) ==> r@.len() == MAX_CHILDREN_PER_BIRTH,
            !(fertile(self.age.0) && fertile(other.age.0)) ==> r@.len() == 0,
            forall|k: int|
                0 <= k < r@.len() ==> is_newborn_of(#[trigger] r@[k], self.position, other.position),
    {
        let mut newborns: Vec<Entity> = Vec::new();
        if !(MIN_BIRTH_AGE <= self.age.0 && self.age.0 <= MAX_BIRTH_AGE) || !(MIN_BIRTH_AGE
            <= other.age.0 && other.age.0 <= MAX_BIRTH_AGE) {
            return newborns;
        }
        for i in 0..MAX_CHILDREN_PER_BIRTH
            invariant
                in_grid(self.position),
                in_grid(other.position),
                newborns@.len() == i,
                forall|k: int|
                    0 <= k < newborns@.len() ==> is_newborn_of(
                        #[trigger] newborns@[k],
                        self.position,
                        other.position,
                    ),
        {
            let child_position = Position {
                x: (self.position.x + other.position.x) / 2,
                y: (self.position.y + other.position.y) / 2,
            };
            let speed = random_speed(rng);
            let direction = random_direction(rng);
            newborns.push(
                Entity {
                    position: child_position,
                    speed,
                    direction,
                    health: HealthState::Healthy,
                    age: Age(0),
                    immunity: Immunity(ImmunityRange::Low.max()),
                },
            );
        }
        newborns
    }

    /// Reacts to a contact with `other`: reverses direction, attempts a birth
    /// with chance `BIRTH_ON_CONTACT_NUMERATOR / BIRTH_ON_CONTACT_DENOMINATOR`,
    /// adding any newborns to `children`, then applies the contagion table.
    fn on_contact(&mut self, other: &Entity, rng: &mut StdRng, children: &mut Vec<Entity>)
        requires
            old(self).wf(),
            in_grid(other.position),
        ensures
            *final(self) == contact_outcome(*old(self), *other),
            offspring_added(
                old(children)@,
                final(children)@,
                *old(self),
                *other,
                fertile(old(self).age.0) && fertile(other.age.0),
            ),
    {
        let ghost start = *self;
        let ghost before = children@;
        self.direction = Direction { x: -self.direction.x, y: -self.direction.y };
        if bernoulli_trial(rng, BIRTH_ON_CONTACT_NUMERATOR, BIRTH_ON_CONTACT_DENOMINATOR) {
            let mut born = self.give_birth_if_suitable(other, rng);
            let ghost added = born@;
            children.append(&mut born);
            assert(children@ == before + added);
            assert(children@.subrange(0, before.len() as int) =~= before);
            assert forall|k: int| before.len() <= k < children@.len() implies is_newborn_of(
                #[trigger] children@[k],
                start.position,
                other.position,
            ) by {
                assert(children@[k] == added[k - before.len()]);
            }
        } else {
            assert(children@.subrange(0, before.len() as int) =~= before);
        }
        assert(offspring_added(
            old(children)@,
            children@,
            start,
            *other,
            fertile(start.age.0) && fertile(other.age.0),
        ));
        let exposed = self.immunity.is_low() || self.immunity.is_medium();
        match (self.health, other.health) {
            (HealthState::Healthy, HealthState::Healthy) => {
                self.immunity = Immunity(self.get_maximum_immunity_for_age());
            },
            (HealthState::Healthy, HealthState::Infected { .. }) => {
                if self.immunity.is_low() {
                    self.health = HealthState::new_sick();
                }
            },
            (HealthState::Healthy, HealthState::Sick { .. }) => {
                if exposed {
                    self.health = HealthState::new_infected();
                } else {
                    self.immunity = self.immunity.shifted_by(-300);
                }
            },
            (HealthState::Infected { .. }, HealthState::Infected { .. })
            | (HealthState::Infected { .. }, HealthState::Recovering { .. })
            | (HealthState::Recovering { .. }, HealthState::Infected { .. }) => {
                self.immunity = self.immunity.shifted_by(-100);
            },
            (HealthState::Infected { .. }, HealthState::Sick { .. }) => {
                if exposed {
                    self.health = HealthState::new_sick();
                }
            },
            (HealthState::Sick { .. }, HealthState::Infected { .. }) => {
                self.health = HealthState::new_sick();
            },
            (HealthState::Sick { .. }, HealthState::Sick { .. }) => {
                self.immunity = Immunity(self.get_minimum_immunity_for_age());
                self.health = HealthState::new_sick();
            },
            (HealthState::Sick { .. }, HealthState::Recovering { .. })
            | (HealthState::Recovering { .. }, HealthState::Sick { .. }) => {
                if exposed {
                    self.health = HealthState::new_infected();
                }
            },
            (HealthState::Recovering { .. }, HealthState::Healthy) => {
                self.immunity = self.immunity.shifted_by(100);
            },
            (HealthState::Healthy, HealthState::Recovering { .. })
            | (HealthState::Infected { .. }, HealthState::Healthy)
            | (HealthState::Sick { .. }, HealthState::Healthy)
            | (HealthState::Recovering { .. }, HealthState::Recovering { .. }) => {},
        }
    }

    /// Checks for a contact with `other` (Chebyshev distance at most
    /// `CONTACT_DISTANCE`) and reacts to it when there is one.
    pub fn check_contact(&mut self, other: &Entity, rng: &mut StdRng, children: &mut Vec<Entity>)
        requires
            old(self).wf(),
            in_grid(other.position),
        ensures
            *final(self) == contact_step(*old(self), *other),
            offspring_added(
                old(children)@,
                final(children)@,
                *old(self),
                *other,
                within_contact(old(self).position, other.position) && fertile(old(self).age.0)
                    && fertile(other.age.0),
            ),
    {
        if is_within_contact(self.position, other.position) {
            self.on_contact(other, rng, children);
        } else {
            assert(children@.subrange(0, children@.len() as int) == children@);
        }
    }
}

} // verus!
