//! The visible region of the complex plane and the pixel grid laid over it.

use vstd::prelude::*;
use vstd::std_specs::ops::{DivSpec, SubSpec};

use crate::range::{map_range, map_range_defined, map_range_spec};
use crate::scalar::{exact_scalar, precedes, scalar_of, Scalar};

verus! {

/// The size of the pixel grid.
#[derive(Clone, Copy, Debug, PartialEq, Eq, Structural)]
pub struct Resolution {
    pub width: u32,
    pub height: u32,
}

/// The bounds of the visible region: real parts from `x_min` to `x_max`, imaginary parts
/// from `y_min` to `y_max`.
#[derive(Debug, PartialEq)]
pub struct Viewport<T> {
    pub x_min: T,
    pub x_max: T,
    pub y_min: T,
    pub y_max: T,
}

impl<T: Copy> Clone for Viewport<T> {
    fn clone(&self) -> (r: Self)
        ensures
            r == *self,
    {
        *self
    }
}

impl<T: Copy> Copy for Viewport<T> {

}

impl<T: Scalar> Viewport<T> {
    /// Whether the region has a positive extent on both axes.
    pub open spec fn ordered(self) -> bool {
        &&& precedes(self.x_min, self.x_max)
        &&& precedes(self.y_min, self.y_max)
    }

    /// The region that a session starts with, which holds the whole set: real parts from
    /// `−2` to `47/100`, imaginary parts from `−112/100` to `112/100`.
    pub open spec fn spec_default_view() -> Viewport<T> {
        let zero = scalar_of::<T>(0);
        let hundred = scalar_of::<T>(100);
        Viewport {
            x_min: zero.sub_spec(scalar_of::<T>(2)),
            x_max: scalar_of::<T>(47).div_spec(hundred),
            y_min: zero.sub_spec(scalar_of::<T>(112).div_spec(hundred)),
            y_max: scalar_of::<T>(112).div_spec(hundred),
        }
    }

    /// Whether the differences and quotients of the default region are defined.
    pub open spec fn default_view_defined() -> bool {
        let zero = scalar_of::<T>(0);
        let hundred = scalar_of::<T>(100);
        &&& zero.sub_req(scalar_of::<T>(2))
        &&& scalar_of::<T>(47).div_req(hundred)
        &&& scalar_of::<T>(112).div_req(hundred)
        &&& zero.sub_req(scalar_of::<T>(112).div_spec(hundred))
    }

    /// Returns the region that a session starts with.
    pub fn default_view() -> (r: Viewport<T>)
        requires
            exact_scalar::<T>(),
            Self::default_view_defined(),
        ensures
            r == Self::spec_default_view(),
    {
        let zero = T::from(0u32);
        let hundred = T::from(100u32);
        Viewport {
            x_min: zero - T::from(2u32),
            x_max: T::from(47u32) / hundred,
            y_min: zero - T::from(112u32) / hundred,
            y_max: T::from(112u32) / hundred,
        }
    }
}

/// The coordinate between `lo` and `hi` that the screen position `s` stands for on an axis
/// of `extent` pixels: `s` mapped from `[0, extent]` to `[lo, hi]`.
pub open spec fn spec_screen_to_plane<T: Scalar>(lo: T, hi: T, extent: u32, s: u32) -> T {
    map_range_spec((scalar_of::<T>(0), scalar_of::<T>(extent)), (lo, hi), scalar_of::<T>(s))
}

/// Whether every operation of that mapping is defined.
pub open spec fn screen_to_plane_defined<T: Scalar>(lo: T, hi: T, extent: u32, s: u32) -> bool {
    map_range_defined((scalar_of::<T>(0), scalar_of::<T>(extent)), (lo, hi), scalar_of::<T>(s))
}

/// Maps the screen position `s` on an axis of `extent` pixels to its coordinate between
/// `lo` and `hi`.
pub fn screen_to_plane<T: Scalar>(lo: T, hi: T, extent: u32, s: u32) -> (r: T)
    requires
        exact_scalar::<T>(),
        screen_to_plane_defined(lo, hi, extent, s),
    ensures
        r == spec_screen_to_plane(lo, hi, extent, s),
{
    map_range((T::from(0u32), T::from(extent)), (lo, hi), T::from(s))
}

} // verus!
