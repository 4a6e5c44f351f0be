//! The escape-time evaluator: how soon the orbit of a point under `z ↦ z² + c` leaves the
//! disk of radius two.

use vstd::prelude::*;

use crate::complex::ComplexNum;
use crate::scalar::{exact_scalar, exceeds, scalar_of, Scalar};

verus! {

/// The orbit of `c` after `k` steps, starting from zero.
pub open spec fn orbit<T: Scalar>(c: ComplexNum<T>, k: nat) -> ComplexNum<T>
    decreases k,
{
    if k == 0 {
        ComplexNum { a: scalar_of::<T>(0), b: scalar_of::<T>(0) }
    } else {
        orbit(c, (k - 1) as nat).spec_squared().spec_add(c)
    }
}

/// Whether `z` lies outside the disk of radius two: `|z|² > 4`.
pub open spec fn escaped<T: Scalar>(z: ComplexNum<T>) -> bool {
    exceeds(z.spec_norm_sqr(), scalar_of::<T>(4))
}

/// The first step `n < max` after which the orbit of `c` has escaped, if there is one.
/// Step `n` takes the orbit from its value after `n` steps to its value after `n + 1`.
pub open spec fn first_escape<T: Scalar>(c: ComplexNum<T>, max: nat) -> Option<nat>
    decreases max,
{
    if max == 0 {
        None
    } else {
        match first_escape(c, (max - 1) as nat) {
            Some(n) => Some(n),
            None => if escaped(orbit(c, max)) {
                Some((max - 1) as nat)
            } else {
                None
            },
        }
    }
}

/// The escape time of `c` under the cap `max`: the first escaping step, or the sentinel `0`
/// where the orbit stays in the disk for all `max` steps.
pub open spec fn escape_count<T: Scalar>(c: ComplexNum<T>, max: nat) -> nat {
    match first_escape(c, max) {
        Some(n) => n,
        None => 0,
    }
}

/// Whether step `k` of the orbit of `c`, and the test that follows it, are defined.
pub open spec fn step_defined<T: Scalar>(c: ComplexNum<T>, k: nat) -> bool {
    &&& orbit(c, k).squared_defined()
    &&& orbit(c, k).spec_squared().add_defined(c)
    &&& orbit(c, k + 1).norm_sqr_defined()
}

/// Whether every step that the evaluator takes on `c` under the cap `max` is defined: each
/// step up to the first escape.
pub open spec fn orbit_defined<T: Scalar>(c: ComplexNum<T>, max: nat) -> bool {
    forall|k: nat| k < max && first_escape(c, k) is None ==> #[trigger] step_defined(c, k)
}

/// The first escape is the least escaping step below the cap.
pub proof fn lemma_first_escape_least<T: Scalar>(c: ComplexNum<T>, max: nat)
    ensures
        match first_escape(c, max) {
            Some(n) => {
                &&& n < max
                &&& escaped(orbit(c, n + 1))
                &&& forall|j: nat| j < n ==> !escaped(#[trigger] orbit(c, j + 1))
            },
            None => forall|j: nat| j < max ==> !escaped(#[trigger] orbit(c, j + 1)),
        },
    decreases max,
{
    if max > 0 {
        lemma_first_escape_least(c, (max - 1) as nat);
        if first_escape(c, (max - 1) as nat) is None {
            assert forall|j: nat| j < max - 1 + 1 && !escaped(orbit(c, max)) implies !escaped(
                #[trigger] orbit(c, j + 1),
            ) by {
                if j == max - 1 {
                    assert(orbit(c, j + 1) == orbit(c, max));
                }
            }
        }
    }
}

/// Once the orbit has escaped under some cap, every larger cap finds the same step.
pub proof fn lemma_first_escape_stable<T: Scalar>(c: ComplexNum<T>, low: nat, high: nat)
    requires
        low <= high,
        first_escape(c, low) is Some,
    ensures
        first_escape(c, high) == first_escape(c, low),
    decreases high,
{
    if low < high {
        lemma_first_escape_stable(c, low, (high - 1) as nat);
    }
}

/// A point that escapes at step `n` is given the escape time `n` by every cap above `n`:
/// the escape time of a point outside the set does not depend on the cap.
pub proof fn lemma_escape_time_independent_of_cap<T: Scalar>(
    c: ComplexNum<T>,
    n: nat,
    max: nat,
    other_max: nat,
)
    requires
        first_escape(c, max) == Some(n),
        n < other_max,
    ensures
        first_escape(c, other_max) == Some(n),
        escape_count(c, other_max) == escape_count(c, max),
{
    lemma_first_escape_least(c, max);
    lemma_first_escape_least(c, other_max);
    if max <= other_max {
        lemma_first_escape_stable(c, max, other_max);
    } else {
        match first_escape(c, other_max) {
            Some(m) => {
                lemma_first_escape_stable(c, other_max, max);
            },
            None => {
                assert(!escaped(orbit(c, n + 1)));
            },
        }
    }
}

/// A point whose orbit never leaves the disk is given the sentinel `0` by every cap.
pub proof fn lemma_interior_is_sentinel<T: Scalar>(c: ComplexNum<T>, max: nat)
    requires
        forall|k: nat| !escaped(#[trigger] orbit(c, k)),
    ensures
        first_escape(c, max) is None,
        escape_count(c, max) == 0,
{
    lemma_first_escape_least(c, max);
}

/// Computes the escape time of `c` under the cap `max`.
///
/// The orbit starts at zero. Step `n` replaces `z` by `z² + c`; the first `n < max` after
/// which `|z|² > 4` is returned. A point that has not escaped after `max` steps counts as a
/// member of the set and is given `0`.
pub fn escape_time<T: Scalar>(c: &ComplexNum<T>, max: u32) -> (n: u32)
    requires
        exact_scalar::<T>(),
        orbit_defined(*c, max as nat),
    ensures
        n == escape_count(*c, max as nat),
{
    let zero = T::from(0u32);
    let limit = T::from(4u32);
    let mut z = ComplexNum { a: zero, b: zero };
    let mut n: u32 = 0;
    while n < max
        invariant_except_break
            z == orbit(*c, n as nat),
        invariant
            exact_scalar::<T>(),
            orbit_defined(*c, max as nat),
            limit == scalar_of::<T>(4),
            n <= max,
            first_escape(*c, n as nat) is None,
        ensures
            n <= max,
            first_escape(*c, n as nat) is None,
            n < max ==> escaped(orbit(*c, (n + 1) as nat)),
        decreases max - n,
    {
        assert(step_defined(*c, n as nat));
        z = z.squared().add(c);
        assert(z == orbit(*c, (n + 1) as nat));
        if z.norm_sqr() > limit {
            break ;
        }
        n += 1;
    }
    if n == max {
        n = 0;
    } else {
        proof {
            assert(first_escape(*c, (n + 1) as nat) == Some(n as nat));
            lemma_first_escape_stable(*c, (n + 1) as nat, max as nat);
        }
    }
    n
}

} // verus!
