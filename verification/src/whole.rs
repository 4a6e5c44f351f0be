//! A whole-number scalar with exact arithmetic.

use std::cmp::Ordering;
use std::ops::{Add, Div, Mul, Sub};
use vstd::prelude::*;
use vstd::std_specs::cmp::{PartialEqSpecImpl, PartialOrdSpecImpl};
use vstd::std_specs::convert::FromSpecImpl;
use vstd::std_specs::ops::{AddSpecImpl, DivSpecImpl, MulSpecImpl, SubSpecImpl};

verus! {

/// A whole number. Sum, difference and product are the exact ones and are defined where
/// they fit; the quotient is rounded towards zero.
#[derive(Clone, Copy, Debug)]
pub struct Whole(pub i64);

/// Whether `v` is the value of some whole number.
pub open spec fn in_range(v: int) -> bool {
    i64::MIN <= v <= i64::MAX
}

impl Add for Whole {
    type Output = Whole;

    fn add(self, rhs: Whole) -> (r: Whole) {
        Whole(self.0 + rhs.0)
    }
}

impl AddSpecImpl for Whole {
    open spec fn obeys_add_spec() -> bool {
        true
    }

    open spec fn add_req(self, rhs: Whole) -> bool {
        in_range(self.0 + rhs.0)
    }

    open spec fn add_spec(self, rhs: Whole) -> Whole {
        Whole((self.0 + rhs.0) as i64)
    }
}

impl Sub for Whole {
    type Output = Whole;

    fn sub(self, rhs: Whole) -> (r: Whole) {
        Whole(self.0 - rhs.0)
    }
}

impl SubSpecImpl for Whole {
    open spec fn obeys_sub_spec() -> bool {
        true
    }

    open spec fn sub_req(self, rhs: Whole) -> bool {
        in_range(self.0 - rhs.0)
    }

    open spec fn sub_spec(self, rhs: Whole) -> Whole {
        Whole((self.0 - rhs.0) as i64)
    }
}

impl Mul for Whole {
    type Output = Whole;

    fn mul(self, rhs: Whole) -> (r: Whole) {
        Whole(self.0 * rhs.0)
    }
}

impl MulSpecImpl for Whole {
    open spec fn obeys_mul_spec() -> bool {
        true
    }

    open spec fn mul_req(self, rhs: Whole) -> bool {
        in_range(self.0 * rhs.0)
    }

    open spec fn mul_spec(self, rhs: Whole) -> Whole {
        Whole((self.0 * rhs.0) as i64)
    }
}

/// The quotient of `a` by `b` rounded towards zero.
pub open spec fn quotient(a: int, b: int) -> int {
    if a >= 0 {
        a / b
    } else {
        -((-a) / b)
    }
}

impl Div for Whole {
    type Output = Whole;

    fn div(self, rhs: Whole) -> (r: Whole) {
        Whole(self.0 / rhs.0)
    }
}

impl DivSpecImpl for Whole {
    open spec fn obeys_div_spec() -> bool {
        true
    }

    open spec fn div_req(self, rhs: Whole) -> bool {
        rhs.0 != 0 && !(self.0 == i64::MIN && rhs.0 == -1)
    }

    open spec fn div_spec(self, rhs: Whole) -> Whole {
        Whole(quotient(self.0 as int, rhs.0 as int) as i64)
    }
}

impl From<u32> for Whole {
    fn from(n: u32) -> (r: Whole) {
        Whole(n as i64)
    }
}

impl FromSpecImpl<u32> for Whole {
    open spec fn obeys_from_spec() -> bool {
        true
    }

    open spec fn from_spec(n: u32) -> Whole {
        Whole(n as i64)
    }
}

impl PartialEq for Whole {
    fn eq(&self, other: &Whole) -> (r: bool) {
        self.0 == other.0
    }
}

impl PartialEqSpecImpl for Whole {
    open spec fn obeys_eq_spec() -> bool {
        true
    }

    open spec fn eq_spec(&self, other: &Whole) -> bool {
        self.0 == other.0
    }
}

impl PartialOrd for Whole {
    fn partial_cmp(&self, other: &Whole) -> (r: Option<Ordering>) {
        if self.0 < other.0 {
            Some(Ordering::Less)
        } else if self.0 > other.0 {
            Some(Ordering::Greater)
        } else {
            Some(Ordering::Equal)
        }
    }
}

impl PartialOrdSpecImpl for Whole {
    open spec fn obeys_partial_cmp_spec() -> bool {
        true
    }

    open spec fn partial_cmp_spec(&self, other: &Whole) -> Option<Ordering> {
        if self.0 < other.0 {
            Some(Ordering::Less)
        } else if self.0 > other.0 {
            Some(Ordering::Greater)
        } else {
            Some(Ordering::Equal)
        }
    }
}

} // verus!
