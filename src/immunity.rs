use vstd::prelude::*;

use crate::random::rand_inclusive;
use rand::rngs::StdRng;

verus! {

/// Age bracket of immunity, with its bounds.
#[derive(Debug, Clone, Copy, PartialEq, Eq, Structural)]
pub enum ImmunityRange {
    Low,
    Normal,
    High,
}

/// Upper bound of a bracket, in hundredths.
pub open spec fn range_max(r: ImmunityRange) -> i64 {
    match r {
        ImmunityRange::Low => 300,
        ImmunityRange::Normal => 600,
        ImmunityRange::High => 1000,
    }
}

/// Lower bound of a bracket, in hundredths.
pub open spec fn range_min(r: ImmunityRange) -> i64 {
    match r {
        ImmunityRange::Low => 100,
        ImmunityRange::Normal => 400,
        ImmunityRange::High => 700,
    }
}

/// The bracket of an age: 15 to 39 is Normal, 40 to 69 High, any other Low.
pub open spec fn bracket_for_age(age: usize) -> ImmunityRange {
    if 15 <= age <= 39 {
        ImmunityRange::Normal
    } else if 40 <= age <= 69 {
        ImmunityRange::High
    } else {
        ImmunityRange::Low
    }
}

impl ImmunityRange {
    /// An immunity drawn uniformly from the bracket's bounds.
    pub fn random_in_range(&self, rng: &mut StdRng) -> (r: Immunity)
        ensures
            range_min(*self) <= r.0 <= range_max(*self),
    {
        let lo = self.min();
        let hi = self.max();
        let v = rand_inclusive(rng, lo as usize, hi as usize);
        Immunity(v as i64)
    }

    pub fn max(&self) -> (r: i64)
        ensures
            r == range_max(*self),
    {
        match self {
            ImmunityRange::Low => 300,
            ImmunityRange::Normal => 600,
            ImmunityRange::High => 1000,
        }
    }

    pub fn min(&self) -> (r: i64)
        ensures
            r == range_min(*self),
    {
        match self {
            ImmunityRange::Low => 100,
            ImmunityRange::Normal => 400,
            ImmunityRange::High => 700,
        }
    }
}

/// Resistance to illness, in hundredths of a point.
#[derive(Debug, Clone, Copy, PartialEq, Eq, Structural)]
pub struct Immunity(pub i64);

/// Low immunity: strictly between 0 and 3 points.
pub open spec fn low(v: i64) -> bool {
    0 < v < 300
}

/// Medium immunity: from 3 points up to, but not including, 6.
pub open spec fn medium(v: i64) -> bool {
    300 <= v < 600
}

/// `v + d`, saturated at the bounds of `i64`.
pub open spec fn shifted(v: i64, d: int) -> i64 {
    if v + d > i64::MAX {
        i64::MAX
    } else if v + d < i64::MIN {
        i64::MIN
    } else {
        (v + d) as i64
    }
}

impl Immunity {
    pub fn is_low(&self) -> (r: bool)
        ensures
            r == low(self.0),
    {
        self.0 > 0 && self.0 < 300
    }

    pub fn is_medium(&self) -> (r: bool)
        ensures
            r == medium(self.0),
    {
        self.0 >= 300 && self.0 < 600
    }

    /// The immunity moved by `d` hundredths, saturating rather than wrapping.
    pub fn shifted_by(self, d: i64) -> (r: Immunity)
        ensures
            r.0 == shifted(self.0, d as int),
    {
        if d >= 0 {
            if self.0 > i64::MAX - d {
                Immunity(i64::MAX)
            } else {
                Immunity(self.0 + d)
            }
        } else {
            if self.0 < i64::MIN - d {
                Immunity(i64::MIN)
            } else {
                Immunity(self.0 + d)
            }
        }
    }
}

} // verus!
