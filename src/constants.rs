use vstd::prelude::*;

verus! {

/// Number of entities sampled for the initial population.
pub const N_ENTITIES: usize = 100;

/// Side length of the square grid; coordinates lie in `0..N_CELLS`.
pub const N_CELLS: usize = 100;

/// Number of population snapshots produced by a full run.
pub const N_TURNS: usize = 110;

/// Entities of this age or older are removed at the end of a turn.
pub const MAX_AGE: usize = 100;

/// Upper bound (inclusive) of the age sampled for the initial population.
pub const MAX_AGE_ON_START: usize = 60;

/// Chance, in percent, that an initial entity starts infected.
pub const INFECTED_ON_START_PERCENT: usize = 10;

/// Chance, in percent, that an initial entity starts sick.
pub const SICK_ON_START_PERCENT: usize = 5;

/// Chance, in percent, that an initial entity starts recovering.
pub const RECOVERING_ON_START_PERCENT: usize = 0;

/// Numerator of the chance of a birth attempt on each contact.
pub const BIRTH_ON_CONTACT_NUMERATOR: u32 = 1;

/// Denominator of the chance of a birth attempt on each contact.
pub const BIRTH_ON_CONTACT_DENOMINATOR: u32 = 20;

/// Offspring produced by one successful birth.
pub const MAX_CHILDREN_PER_BIRTH: usize = 2;

/// Initial counter of a fresh `Infected` state.
pub const INFECTED_DAYS: usize = 2;

/// Length of the sick stage; a fresh `Sick` state counts down from `SICK_DAYS - 1`.
pub const SICK_DAYS: usize = 7;

/// Length of the recovery stage; a fresh `Recovering` state counts down from `RECOVERY_DAYS - 1`.
pub const RECOVERY_DAYS: usize = 5;

/// Youngest age (inclusive) at which an entity can have offspring.
pub const MIN_BIRTH_AGE: usize = 20;

/// Oldest age (inclusive) at which an entity can have offspring.
pub const MAX_BIRTH_AGE: usize = 40;

/// Largest Chebyshev distance at which two entities are in contact.
pub const CONTACT_DISTANCE: usize = 2;

} // verus!
