//! A population of agents on a bounded grid: contagion, immunity, aging,
//! reproduction and death, advanced one turn at a time.

pub mod constants;
pub mod health;
pub mod immunity;
pub mod position;
pub mod random;
pub mod entity;
pub mod sampling;
pub mod population;
pub mod laws;
