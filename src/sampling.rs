use vstd::prelude::*;

use crate::constants::{
    INFECTED_ON_START_PERCENT, MAX_AGE_ON_START, N_CELLS, RECOVERING_ON_START_PERCENT,
    SICK_ON_START_PERCENT,
};
use crate::entity::{Age, Speed, MAX_SPEED};
use crate::health::{days_left, fresh_infected, fresh_recovering, fresh_sick, HealthState};
use crate::position::{in_grid, Direction, Position};
use crate::random::{choose_direction, rand_inclusive};
use rand::rngs::StdRng;

verus! {

/// Percentage of initial entities that start healthy.
pub open spec fn healthy_on_start_percent() -> int {
    100 - SICK_ON_START_PERCENT - INFECTED_ON_START_PERCENT - RECOVERING_ON_START_PERCENT
}

/// Initial stage picked by a roll in `0..100`: the first 85 values are
/// `Healthy`, the next 5 `Sick`, the next 10 `Infected`, the rest `Recovering`.
pub open spec fn stage_of_roll(roll: int) -> HealthState {
    if roll < healthy_on_start_percent() {
        HealthState::Healthy
    } else if roll < healthy_on_start_percent() + SICK_ON_START_PERCENT {
        fresh_sick()
    } else if roll < healthy_on_start_percent() + SICK_ON_START_PERCENT
        + INFECTED_ON_START_PERCENT {
        fresh_infected()
    } else {
        fresh_recovering()
    }
}

/// The state with its counter replaced by `n` (`Healthy` has none).
pub open spec fn with_days_left(h: HealthState, n: usize) -> HealthState {
    match h {
        HealthState::Infected { .. } => HealthState::Infected { days_until_sick: n },
        HealthState::Sick { .. } => HealthState::Sick { days_until_recovering: n },
        HealthState::Recovering { .. } => HealthState::Recovering { days_until_healthy: n },
        HealthState::Healthy => HealthState::Healthy,
    }
}

/// The fresh form of the state's stage.
pub open spec fn fresh_stage(h: HealthState) -> HealthState {
    match h {
        HealthState::Infected { .. } => fresh_infected(),
        HealthState::Sick { .. } => fresh_sick(),
        HealthState::Recovering { .. } => fresh_recovering(),
        HealthState::Healthy => HealthState::Healthy,
    }
}

/// A counter within the range of its stage: at most that of the fresh stage.
pub open spec fn valid_counter(h: HealthState) -> bool {
    days_left(h) <= days_left(fresh_stage(h))
}

/// The initial stage chosen by a percentage roll.
pub fn stage_for_roll(roll: usize) -> (r: HealthState)
    ensures
        r == stage_of_roll(roll as int),
{
    let healthy = 100 - SICK_ON_START_PERCENT - INFECTED_ON_START_PERCENT
        - RECOVERING_ON_START_PERCENT;
    if roll < healthy {
        HealthState::new_healthy()
    } else if roll < healthy + SICK_ON_START_PERCENT {
        HealthState::new_sick()
    } else if roll < healthy + SICK_ON_START_PERCENT + INFECTED_ON_START_PERCENT {
        HealthState::new_infected()
    } else {
        HealthState::new_recovering()
    }
}

fn stage_days(h: HealthState) -> (r: usize)
    ensures
        r as nat == days_left(h),
{
    match h {
        HealthState::Infected { days_until_sick } => days_until_sick,
        HealthState::Sick { days_until_recovering } => days_until_recovering,
        HealthState::Recovering { days_until_healthy } => days_until_healthy,
        HealthState::Healthy => 0,
    }
}

fn set_days_left(h: HealthState, n: usize) -> (r: HealthState)
    ensures
        r == with_days_left(h, n),
{
    match h {
        HealthState::Infected { .. } => HealthState::Infected { days_until_sick: n },
        HealthState::Sick { .. } => HealthState::Sick { days_until_recovering: n },
        HealthState::Recovering { .. } => HealthState::Recovering { days_until_healthy: n },
        HealthState::Healthy => HealthState::Healthy,
    }
}

/// A cell drawn uniformly from the grid.
pub fn random_position(rng: &mut StdRng) -> (r: Position)
    ensures
        in_grid(r),
{
    let x = rand_inclusive(rng, 0, N_CELLS - 1);
    let y = rand_inclusive(rng, 0, N_CELLS - 1);
    Position { x, y }
}

/// One of the eight compass directions, drawn uniformly.
pub fn random_direction(rng: &mut StdRng) -> (r: Direction)
    ensures
        r.is_compass(),
{
    let options = vec![
        Direction { x: -1, y: -1 },
        Direction { x: -1, y: 0 },
        Direction { x: -1, y: 1 },
        Direction { x: 0, y: -1 },
        Direction { x: 0, y: 1 },
        Direction { x: 1, y: -1 },
        Direction { x: 1, y: 0 },
        Direction { x: 1, y: 1 },
    ];
    assert(forall|i: int| 0 <= i < options@.len() ==> (#[trigger] options@[i]).is_compass());
    choose_direction(rng, options.as_slice())
}

/// A speed drawn uniformly from 1 to `MAX_SPEED`.
pub fn random_speed(rng: &mut StdRng) -> (r: Speed)
    ensures
        1 <= r.0 <= MAX_SPEED,
{
    Speed(rand_inclusive(rng, 1, MAX_SPEED))
}

/// An age drawn uniformly from 0 to `MAX_AGE_ON_START`.
pub fn random_age(rng: &mut StdRng) -> (r: Age)
    ensures
        r.0 <= MAX_AGE_ON_START,
{
    Age(rand_inclusive(rng, 0, MAX_AGE_ON_START))
}

/// An initial health state: the stage by its weight, then a counter drawn
/// uniformly from the stage's range.
pub fn random_health(rng: &mut StdRng) -> (r: HealthState)
    ensures
        valid_counter(r),
        exists|roll: int| 0 <= roll < 100 && fresh_stage(r) == stage_of_roll(roll),
{
    let roll = rand_inclusive(rng, 0, 99);
    let stage = stage_for_roll(roll);
    let counter = rand_inclusive(rng, 0, stage_days(stage));
    let r = set_days_left(stage, counter);
    assert(fresh_stage(r) == stage_of_roll(roll as int));
    r
}

} // verus!
