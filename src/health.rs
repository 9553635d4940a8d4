use vstd::prelude::*;

use crate::constants::{INFECTED_DAYS, RECOVERY_DAYS, SICK_DAYS};

verus! {

/// Stage of an entity's illness, with the days left in the current stage.
#[derive(Debug, Clone, Copy, PartialEq, Eq, Structural)]
pub enum HealthState {
    Infected { days_until_sick: usize },
    Sick { days_until_recovering: usize },
    Recovering { days_until_healthy: usize },
    Healthy,
}

/// A fresh `Sick` state.
pub open spec fn fresh_sick() -> HealthState {
    HealthState::Sick { days_until_recovering: (SICK_DAYS - 1) as usize }
}

/// A fresh `Infected` state.
pub open spec fn fresh_infected() -> HealthState {
    HealthState::Infected { days_until_sick: INFECTED_DAYS }
}

/// A fresh `Recovering` state.
pub open spec fn fresh_recovering() -> HealthState {
    HealthState::Recovering { days_until_healthy: (RECOVERY_DAYS - 1) as usize }
}

/// The state one day later: the counter goes down by one, and a stage whose
/// counter is zero gives way to the fresh next stage.
pub open spec fn next_day(h: HealthState) -> HealthState {
    match h {
        HealthState::Infected { days_until_sick: n } => if n == 0 {
            fresh_sick()
        } else {
            HealthState::Infected { days_until_sick: (n - 1) as usize }
        },
        HealthState::Sick { days_until_recovering: n } => if n == 0 {
            fresh_recovering()
        } else {
            HealthState::Sick { days_until_recovering: (n - 1) as usize }
        },
        HealthState::Recovering { days_until_healthy: n } => if n == 0 {
            HealthState::Healthy
        } else {
            HealthState::Recovering { days_until_healthy: (n - 1) as usize }
        },
        HealthState::Healthy => HealthState::Healthy,
    }
}

/// The state after `k` days.
pub open spec fn after_days(h: HealthState, k: nat) -> HealthState
    decreases k,
{
    if k == 0 {
        h
    } else {
        next_day(after_days(h, (k - 1) as nat))
    }
}

/// Days left in the current stage (zero for `Healthy`).
pub open spec fn days_left(h: HealthState) -> nat {
    match h {
        HealthState::Infected { days_until_sick: n } => n as nat,
        HealthState::Sick { days_until_recovering: n } => n as nat,
        HealthState::Recovering { days_until_healthy: n } => n as nat,
        HealthState::Healthy => 0,
    }
}

/// The stage that follows the current one, in its fresh form.
pub open spec fn following_stage(h: HealthState) -> HealthState {
    match h {
        HealthState::Infected { .. } => fresh_sick(),
        HealthState::Sick { .. } => fresh_recovering(),
        HealthState::Recovering { .. } => HealthState::Healthy,
        HealthState::Healthy => HealthState::Healthy,
    }
}

impl HealthState {
    pub fn new_sick() -> (r: Self)
        ensures
            r == fresh_sick(),
    {
        HealthState::Sick { days_until_recovering: SICK_DAYS - 1 }
    }

    pub fn new_infected() -> (r: Self)
        ensures
            r == fresh_infected(),
    {
        HealthState::Infected { days_until_sick: INFECTED_DAYS }
    }

    pub fn new_recovering() -> (r: Self)
        ensures
            r == fresh_recovering(),
    {
        HealthState::Recovering { days_until_healthy: RECOVERY_DAYS - 1 }
    }

    pub fn new_healthy() -> (r: Self)
        ensures
            r == HealthState::Healthy,
    {
        HealthState::Healthy
    }

    /// Advances the state by one day.
    pub fn next(self) -> (r: Self)
        ensures
            r == next_day(self),
    {
        match self {
            HealthState::Infected { days_until_sick } => {
                if days_until_sick == 0 {
                    Self::new_sick()
                } else {
                    HealthState::Infected { days_until_sick: days_until_sick - 1 }
                }
            },
            HealthState::Sick { days_until_recovering } => {
                if days_until_recovering == 0 {
                    Self::new_recovering()
                } else {
                    HealthState::Sick { days_until_recovering: days_until_recovering - 1 }
                }
            },
            HealthState::Recovering { days_until_healthy } => {
                if days_until_healthy == 0 {
                    Self::new_healthy()
                } else {
                    HealthState::Recovering { days_until_healthy: days_until_healthy - 1 }
                }
            },
            HealthState::Healthy => HealthState::Healthy,
        }
    }
}

/// Within a stage the counter goes down by exactly one per day: after `k`
/// days, with `k` at most the days left, the stage is the same and `k` fewer
/// days are left.
pub proof fn lemma_counter_decreases(h: HealthState, k: nat)
    requires
        k <= days_left(h),
    ensures
        after_days(h, k) == (match h {
            HealthState::Infected { days_until_sick: n } => HealthState::Infected {
                days_until_sick: (n - k) as usize,
            },
            HealthState::Sick { days_until_recovering: n } => HealthState::Sick {
                days_until_recovering: (n - k) as usize,
            },
            HealthState::Recovering { days_until_healthy: n } => HealthState::Recovering {
                days_until_healthy: (n - k) as usize,
            },
            HealthState::Healthy => HealthState::Healthy,
        }),
    decreases k,
{
    if k > 0 {
        lemma_counter_decreases(h, (k - 1) as nat);
    }
}

/// A state whose counter is `n` reaches the fresh following stage after
/// exactly `n + 1` days, and `Healthy` stays `Healthy` day after day.
pub proof fn lemma_stage_progression(h: HealthState)
    ensures
        after_days(h, days_left(h) + 1) == following_stage(h),
        forall|k: nat| after_days(HealthState::Healthy, k) == HealthState::Healthy,
{
    lemma_counter_decreases(h, days_left(h));
    assert forall|k: nat| after_days(HealthState::Healthy, k) == HealthState::Healthy by {
        lemma_healthy_fixed(k);
    }
}

proof fn lemma_healthy_fixed(k: nat)
    ensures
        after_days(HealthState::Healthy, k) == HealthState::Healthy,
    decreases k,
{
    if k > 0 {
        lemma_healthy_fixed((k - 1) as nat);
    }
}

} // verus!
