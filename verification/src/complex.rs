//! Complex numbers over a numeric field.

use std::ops::{Add, Mul, Sub};
use vstd::prelude::*;
use vstd::std_specs::ops::{AddSpec, MulSpec, SubSpec};

use crate::scalar::exact_ring;

verus! {

/// The complex number `a + b·i`.
#[derive(Debug, PartialEq)]
pub struct ComplexNum<T> {
    pub a: T,
    pub b: T,
}

impl<T: Copy> Clone for ComplexNum<T> {
    fn clone(&self) -> (r: Self)
        ensures
            r == *self,
    {
        *self
    }
}

impl<T: Copy> Copy for ComplexNum<T> {

}

impl<T> ComplexNum<T> where
    T: Mul<T, Output = T> + Add<T, Output = T> + Sub<T, Output = T> + Copy,
 {
    /// The square `(a² − b², a·b + a·b)`.
    pub open spec fn spec_squared(self) -> Self {
        ComplexNum {
            a: self.a.mul_spec(self.a).sub_spec(self.b.mul_spec(self.b)),
            b: self.a.mul_spec(self.b).add_spec(self.a.mul_spec(self.b)),
        }
    }

    /// Whether every operation of the squaring is defined.
    pub open spec fn squared_defined(self) -> bool {
        &&& self.a.mul_req(self.a)
        &&& self.b.mul_req(self.b)
        &&& self.a.mul_spec(self.a).sub_req(self.b.mul_spec(self.b))
        &&& self.a.mul_req(self.b)
        &&& self.a.mul_spec(self.b).add_req(self.a.mul_spec(self.b))
    }

    /// Squares the number.
    pub fn squared(&self) -> (r: Self)
        requires
            exact_ring::<T>(),
            self.squared_defined(),
        ensures
            r == self.spec_squared(),
    {
        Self { a: self.a * self.a - self.b * self.b, b: (self.a * self.b) + (self.a * self.b) }
    }

    /// The component-wise sum.
    pub open spec fn spec_add(self, other: Self) -> Self {
        ComplexNum { a: self.a.add_spec(other.a), b: self.b.add_spec(other.b) }
    }

    /// Whether both additions of the sum are defined.
    pub open spec fn add_defined(self, other: Self) -> bool {
        &&& self.a.add_req(other.a)
        &&& self.b.add_req(other.b)
    }

    /// Adds `other` to the number.
    pub fn add(&self, other: &ComplexNum<T>) -> (r: ComplexNum<T>)
        requires
            exact_ring::<T>(),
            self.add_defined(*other),
        ensures
            r == self.spec_add(*other),
    {
        ComplexNum { a: self.a + other.a, b: self.b + other.b }
    }

    /// The squared magnitude `a² + b²`.
    pub open spec fn spec_norm_sqr(self) -> T {
        self.a.mul_spec(self.a).add_spec(self.b.mul_spec(self.b))
    }

    /// Whether every operation of the squared magnitude is defined.
    pub open spec fn norm_sqr_defined(self) -> bool {
        &&& self.a.mul_req(self.a)
        &&& self.b.mul_req(self.b)
        &&& self.a.mul_spec(self.a).add_req(self.b.mul_spec(self.b))
    }

    /// Computes the squared magnitude of the number.
    pub fn norm_sqr(&self) -> (r: T)
        requires
            exact_ring::<T>(),
            self.norm_sqr_defined(),
        ensures
            r == self.spec_norm_sqr(),
    {
        self.a * self.a + self.b * self.b
    }
}

} // verus!
