//! The range mapper: an affine map from one interval onto another.

use std::ops::{Add, Div, Mul, Sub};
use vstd::prelude::*;
use vstd::std_specs::ops::{AddSpec, DivSpec, MulSpec, SubSpec};

use crate::scalar::exact_arith;

verus! {

/// The value that `s` takes when the interval `from_range` is mapped onto `to_range`:
/// `to.0 + (s - from.0) * (to.1 - to.0) / (from.1 - from.0)`, evaluated left to right.
pub open spec fn map_range_spec<T>(from_range: (T, T), to_range: (T, T), s: T) -> T where
    T: Add<T, Output = T> + Sub<T, Output = T> + Mul<T, Output = T> + Div<T, Output = T>,
{
    to_range.0.add_spec(
        s.sub_spec(from_range.0).mul_spec(to_range.1.sub_spec(to_range.0)).div_spec(
            from_range.1.sub_spec(from_range.0),
        ),
    )
}

/// Whether every operation of the mapping is defined on these arguments.
pub open spec fn map_range_defined<T>(from_range: (T, T), to_range: (T, T), s: T) -> bool where
    T: Add<T, Output = T> + Sub<T, Output = T> + Mul<T, Output = T> + Div<T, Output = T>,
{
    let offset = s.sub_spec(from_range.0);
    let to_len = to_range.1.sub_spec(to_range.0);
    let from_len = from_range.1.sub_spec(from_range.0);
    &&& s.sub_req(from_range.0)
    &&& to_range.1.sub_req(to_range.0)
    &&& from_range.1.sub_req(from_range.0)
    &&& offset.mul_req(to_len)
    &&& offset.mul_spec(to_len).div_req(from_len)
    &&& to_range.0.add_req(offset.mul_spec(to_len).div_spec(from_len))
}

/// Maps `s` from the interval `from_range` to the interval `to_range`.
///
/// The source interval must not be degenerate: the division by its length has to be defined.
pub fn map_range<T: Copy>(from_range: (T, T), to_range: (T, T), s: T) -> (r: T) where
    T: Add<T, Output = T> + Sub<T, Output = T> + Mul<T, Output = T> + Div<T, Output = T>,
    requires
        exact_arith::<T>(),
        map_range_defined(from_range, to_range, s),
    ensures
        r == map_range_spec(from_range, to_range, s),
{
    to_range.0 + (s - from_range.0) * (to_range.1 - to_range.0) / (from_range.1 - from_range.0)
}

} // verus!
