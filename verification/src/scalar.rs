//! The numeric field that the renderer computes in.

use std::ops::{Add, Div, Mul, Sub};
use vstd::prelude::*;
use vstd::std_specs::cmp::{PartialOrdIs, PartialOrdSpec};
use vstd::std_specs::convert::FromSpec;
use vstd::std_specs::ops::{AddSpec, DivSpec, MulSpec, SubSpec};

verus! {

/// A copyable number with the four arithmetic operators, an order, and a conversion from
/// pixel coordinates and iteration counts.
pub trait Scalar: Copy + Add<Self, Output = Self> + Sub<Self, Output = Self> + Mul<
    Self,
    Output = Self,
> + Div<Self, Output = Self> + PartialOrd + From<u32> {

}

impl<T> Scalar for T where
    T: Copy + Add<T, Output = T> + Sub<T, Output = T> + Mul<T, Output = T> + Div<
        T,
        Output = T,
    > + PartialOrd + From<u32>,
 {

}

/// Whether `+`, `-` and `*` of `T` return what their specifications say.
pub open spec fn exact_ring<T>() -> bool where
    T: Add<T, Output = T> + Sub<T, Output = T> + Mul<T, Output = T>,
 {
    &&& T::obeys_add_spec()
    &&& T::obeys_sub_spec()
    &&& T::obeys_mul_spec()
}

/// Whether `+`, `-`, `*` and `/` of `T` return what their specifications say.
pub open spec fn exact_arith<T>() -> bool where
    T: Add<T, Output = T> + Sub<T, Output = T> + Mul<T, Output = T> + Div<T, Output = T>,
 {
    &&& exact_ring::<T>()
    &&& T::obeys_div_spec()
}

/// Whether the arithmetic, the order and the conversion from `u32` of `T` all return what
/// their specifications say.
pub open spec fn exact_scalar<T: Scalar>() -> bool {
    &&& exact_arith::<T>()
    &&& T::obeys_partial_cmp_spec()
    &&& T::obeys_from_spec()
}

/// The scalar that stands for the count `n`.
pub open spec fn scalar_of<T: Scalar>(n: u32) -> T {
    T::from_spec(n)
}

/// `a > b` in the order of `T`.
pub open spec fn exceeds<T: Scalar>(a: T, b: T) -> bool {
    a.is_gt(&b)
}

/// `a < b` in the order of `T`.
pub open spec fn precedes<T: Scalar>(a: T, b: T) -> bool {
    a.is_lt(&b)
}

} // verus!
