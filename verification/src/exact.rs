//! What holds where the arithmetic is exact: the general facts about mapping, escape and
//! zoom, proved for the whole numbers.

use vstd::prelude::*;
use vstd::std_specs::ops::{AddSpec, DivSpec, MulSpec, SubSpec};

use crate::complex::ComplexNum;
use crate::controller::{spec_zoom, zoom_defined};
use crate::escape::{
    escape_count, escaped, first_escape, lemma_interior_is_sentinel, orbit, orbit_defined,
    step_defined,
};
use crate::image::{image_defined, pixel_defined, spec_pixel_point};
use crate::range::{map_range_defined, map_range_spec};
use crate::scalar::scalar_of;
use crate::selection::SelectionRect;
use crate::viewport::{screen_to_plane_defined, spec_screen_to_plane, Resolution, Viewport};
use crate::whole::{in_range, quotient, Whole};

verus! {

/// The mapping of `s` from `[from_lo, from_hi]` to `[to_lo, to_hi]` over the integers.
pub open spec fn whole_map(from_lo: int, from_hi: int, to_lo: int, to_hi: int, s: int) -> int {
    to_lo + quotient((s - from_lo) * (to_hi - to_lo), from_hi - from_lo)
}

/// Whether every intermediate value of that mapping is a whole number and the source
/// interval is not degenerate.
pub open spec fn whole_map_defined(
    from_lo: int,
    from_hi: int,
    to_lo: int,
    to_hi: int,
    s: int,
) -> bool {
    &&& in_range(s - from_lo)
    &&& in_range(to_hi - to_lo)
    &&& in_range(from_hi - from_lo)
    &&& in_range((s - from_lo) * (to_hi - to_lo))
    &&& from_hi - from_lo != 0
    &&& !((s - from_lo) * (to_hi - to_lo) == i64::MIN && from_hi - from_lo == -1)
    &&& in_range(whole_map(from_lo, from_hi, to_lo, to_hi, s))
}

/// On whole numbers the range mapper computes `whole_map`, and is defined where
/// `whole_map_defined` holds.
pub proof fn lemma_map_range_whole(from_range: (Whole, Whole), to_range: (Whole, Whole), s: Whole)
    ensures
        map_range_defined(from_range, to_range, s) <==> whole_map_defined(
            from_range.0.0 as int,
            from_range.1.0 as int,
            to_range.0.0 as int,
            to_range.1.0 as int,
            s.0 as int,
        ),
        map_range_defined(from_range, to_range, s) ==> map_range_spec(from_range, to_range, s).0
            == whole_map(
            from_range.0.0 as int,
            from_range.1.0 as int,
            to_range.0.0 as int,
            to_range.1.0 as int,
            s.0 as int,
        ),
{
    let offset = s.0 - from_range.0.0;
    let to_len = to_range.1.0 - to_range.0.0;
    let from_len = from_range.1.0 - from_range.0.0;
    if in_range(offset) && in_range(to_len) && in_range(from_len) {
        assert(s.sub_spec(from_range.0) == Whole(offset as i64));
        assert(to_range.1.sub_spec(to_range.0) == Whole(to_len as i64));
        assert(from_range.1.sub_spec(from_range.0) == Whole(from_len as i64));
        let product = offset * to_len;
        if in_range(product) && from_len != 0 && !(product == i64::MIN && from_len == -1) {
            assert(Whole(offset as i64).mul_spec(Whole(to_len as i64)) == Whole(product as i64));
            lemma_quotient_in_range(product, from_len);
            assert(Whole(product as i64).div_spec(Whole(from_len as i64)) == Whole(
                quotient(product, from_len) as i64,
            ));
        }
    }
}

/// A quotient is no larger in magnitude than its dividend.
pub proof fn lemma_quotient_in_range(a: int, d: int)
    requires
        d != 0,
        in_range(a),
        !(a == i64::MIN && d == -1),
    ensures
        in_range(quotient(a, d)),
        a >= 0 ==> -a <= quotient(a, d) <= a,
        a <= 0 ==> a <= quotient(a, d) <= -a,
{
    if a >= 0 {
        assert(-a <= a / d <= a) by (nonlinear_arith)
            requires
                a >= 0,
                d != 0,
        ;
    } else {
        assert(a <= (-a) / d <= -a) by (nonlinear_arith)
            requires
                a < 0,
                d != 0,
        ;
        if d == -1 {
            assert((-a) / d == a) by (nonlinear_arith)
                requires
                    d == -1,
            ;
        } else {
            assert((-a) / d > a) by (nonlinear_arith)
                requires
                    a < 0,
                    d != 0,
                    d != -1,
            ;
        }
    }
}

/// A product divided by one of its factors gives the other, whatever the signs.
pub proof fn lemma_quotient_of_multiple(a: int, d: int)
    requires
        d != 0,
    ensures
        quotient(a * d, d) == a,
{
    assert(quotient(a * d, d) == a) by (nonlinear_arith)
        requires
            d != 0,
    ;
}

/// Mapping an interval to itself leaves every value where it is.
pub proof fn lemma_map_identity(range: (Whole, Whole), v: Whole)
    requires
        map_range_defined(range, range, v),
    ensures
        map_range_spec(range, range, v) == v,
{
    lemma_map_range_whole(range, range, v);
    lemma_quotient_of_multiple(v.0 - range.0.0, range.1.0 - range.0.0);
}

/// The lower end of the source interval is mapped to the lower end of the target.
pub proof fn lemma_map_lower_end(from_range: (Whole, Whole), to_range: (Whole, Whole))
    requires
        map_range_defined(from_range, to_range, from_range.0),
    ensures
        map_range_spec(from_range, to_range, from_range.0) == to_range.0,
{
    lemma_map_range_whole(from_range, to_range, from_range.0);
    assert(0 * (to_range.1.0 - to_range.0.0) == 0) by (nonlinear_arith);
    assert(0int / (from_range.1.0 - from_range.0.0) == 0) by (nonlinear_arith)
        requires
            from_range.1.0 - from_range.0.0 != 0,
    ;
}

/// The upper end of the source interval is mapped to the upper end of the target.
pub proof fn lemma_map_upper_end(from_range: (Whole, Whole), to_range: (Whole, Whole))
    requires
        map_range_defined(from_range, to_range, from_range.1),
    ensures
        map_range_spec(from_range, to_range, from_range.1) == to_range.1,
{
    lemma_map_range_whole(from_range, to_range, from_range.1);
    let len = from_range.1.0 - from_range.0.0;
    let to_len = to_range.1.0 - to_range.0.0;
    assert(len * to_len == to_len * len) by (nonlinear_arith);
    lemma_quotient_of_multiple(to_len, len);
}

/// Mapping a value of the source interval to the target and back loses less than one step
/// of the target, counted in steps of the source: the value that comes back is not above
/// the one that went in, and is below it by less than `from_len / to_len + 1`.
pub proof fn lemma_map_round_trip(from_range: (Whole, Whole), to_range: (Whole, Whole), v: Whole)
    requires
        from_range.0.0 < from_range.1.0,
        to_range.0.0 < to_range.1.0,
        from_range.0.0 <= v.0 <= from_range.1.0,
        map_range_defined(from_range, to_range, v),
        map_range_defined(to_range, from_range, map_range_spec(from_range, to_range, v)),
    ensures
        ({
            let there = map_range_spec(from_range, to_range, v);
            let back = map_range_spec(to_range, from_range, there);
            &&& to_range.0.0 <= there.0 <= to_range.1.0
            &&& back.0 <= v.0
            &&& (v.0 - back.0) * (to_range.1.0 - to_range.0.0) < (from_range.1.0 - from_range.0.0)
                + (to_range.1.0 - to_range.0.0)
        }),
{
    let there = map_range_spec(from_range, to_range, v);
    lemma_map_range_whole(from_range, to_range, v);
    lemma_map_range_whole(to_range, from_range, there);
    let p = v.0 - from_range.0.0;
    let from_len = from_range.1.0 - from_range.0.0;
    let to_len = to_range.1.0 - to_range.0.0;
    assert(p * to_len >= 0) by (nonlinear_arith)
        requires
            p >= 0,
            to_len > 0,
    ;
    let q = (p * to_len) / from_len;
    assert(q * from_len <= p * to_len < q * from_len + from_len && 0 <= q <= to_len)
        by (nonlinear_arith)
        requires
            q == (p * to_len) / from_len,
            from_len > 0,
            to_len > 0,
            0 <= p <= from_len,
    ;
    assert(there.0 == to_range.0.0 + q);
    assert(q * from_len >= 0) by (nonlinear_arith)
        requires
            q >= 0,
            from_len > 0,
    ;
    let r = (q * from_len) / to_len;
    assert(r * to_len <= q * from_len < r * to_len + to_len) by (nonlinear_arith)
        requires
            r == (q * from_len) / to_len,
            to_len > 0,
    ;
    assert(r <= p && (p - r) * to_len < from_len + to_len) by (nonlinear_arith)
        requires
            r * to_len <= q * from_len < r * to_len + to_len,
            q * from_len <= p * to_len < q * from_len + from_len,
            to_len > 0,
    ;
}

/// The largest magnitude of a coordinate for which every step of the evaluator and of the
/// pixel mapping is known to fit a whole number.
pub const COORDINATE_BOUND: i64 = 0x4000_0000;

/// Whether both parts of `c` are within the coordinate bound.
pub open spec fn point_in_bounds(c: ComplexNum<Whole>) -> bool {
    &&& -COORDINATE_BOUND <= c.a.0 <= COORDINATE_BOUND
    &&& -COORDINATE_BOUND <= c.b.0 <= COORDINATE_BOUND
}

/// Whether all four bounds of `viewport` are within the coordinate bound.
pub open spec fn viewport_in_bounds(viewport: Viewport<Whole>) -> bool {
    &&& -COORDINATE_BOUND <= viewport.x_min.0 <= COORDINATE_BOUND
    &&& -COORDINATE_BOUND <= viewport.x_max.0 <= COORDINATE_BOUND
    &&& -COORDINATE_BOUND <= viewport.y_min.0 <= COORDINATE_BOUND
    &&& -COORDINATE_BOUND <= viewport.y_max.0 <= COORDINATE_BOUND
}

/// One step from a point of the disk: it is defined, and gives `z² + c` exactly.
proof fn lemma_step_from_disk(z: ComplexNum<Whole>, c: ComplexNum<Whole>)
    requires
        -2 <= z.a.0 <= 2,
        -2 <= z.b.0 <= 2,
        point_in_bounds(c),
    ensures
        z.squared_defined(),
        z.spec_squared().add_defined(c),
        z.spec_squared().spec_add(c).norm_sqr_defined(),
        ({
            let next = z.spec_squared().spec_add(c);
            next.spec_norm_sqr().0 == next.a.0 * next.a.0 + next.b.0 * next.b.0
        }),
{
    let a = z.a.0 as int;
    let b = z.b.0 as int;
    assert(0 <= a * a <= 4 && 0 <= b * b <= 4 && -4 <= a * b <= 4) by (nonlinear_arith)
        requires
            -2 <= a <= 2,
            -2 <= b <= 2,
    ;
    assert(z.a.mul_spec(z.a) == Whole((a * a) as i64));
    assert(z.b.mul_spec(z.b) == Whole((b * b) as i64));
    assert(z.a.mul_spec(z.b) == Whole((a * b) as i64));
    let sq = z.spec_squared();
    assert(sq.a == Whole((a * a - b * b) as i64));
    assert(sq.b == Whole((a * b + a * b) as i64));
    let next = sq.spec_add(c);
    let na = a * a - b * b + c.a.0;
    let nb = a * b + a * b + c.b.0;
    assert(next.a == Whole(na as i64));
    assert(next.b == Whole(nb as i64));
    assert(0 <= na * na <= 0x1000_0008_0000_0010 && 0 <= nb * nb <= 0x1000_0010_0000_0040)
        by (nonlinear_arith)
        requires
            -0x4000_0004 <= na <= 0x4000_0004,
            -0x4000_0008 <= nb <= 0x4000_0008,
    ;
    assert(next.a.mul_spec(next.a) == Whole((na * na) as i64));
    assert(next.b.mul_spec(next.b) == Whole((nb * nb) as i64));
}

/// While the orbit of a point within the coordinate bound has not escaped, it lies in the
/// disk and its next step is defined.
pub proof fn lemma_orbit_in_disk(c: ComplexNum<Whole>, k: nat)
    requires
        point_in_bounds(c),
        first_escape(c, k) is None,
    ensures
        -2 <= orbit(c, k).a.0 <= 2,
        -2 <= orbit(c, k).b.0 <= 2,
        step_defined(c, k),
    decreases k,
{
    if k > 0 {
        let before = (k - 1) as nat;
        lemma_orbit_in_disk(c, before);
        lemma_step_from_disk(orbit(c, before), c);
        let z = orbit(c, k);
        assert(z == orbit(c, before).spec_squared().spec_add(c));
        assert(!escaped(z));
        assert(z.spec_norm_sqr().0 <= 4);
        assert(-2 <= z.a.0 <= 2 && -2 <= z.b.0 <= 2) by (nonlinear_arith)
            requires
                z.a.0 * z.a.0 + z.b.0 * z.b.0 <= 4,
        ;
    }
    lemma_step_from_disk(orbit(c, k), c);
    assert(orbit(c, k + 1) == orbit(c, k).spec_squared().spec_add(c));
}

/// The evaluator is defined on every point within the coordinate bound, under every cap.
pub proof fn lemma_orbit_defined(c: ComplexNum<Whole>, max: nat)
    requires
        point_in_bounds(c),
    ensures
        orbit_defined(c, max),
{
    assert forall|k: nat| k < max && first_escape(c, k) is None implies #[trigger] step_defined(
        c,
        k,
    ) by {
        lemma_orbit_in_disk(c, k);
    }
}

/// The origin of the plane.
pub open spec fn origin() -> ComplexNum<Whole> {
    ComplexNum { a: Whole(0), b: Whole(0) }
}

/// The orbit of the origin stays at the origin.
pub proof fn lemma_orbit_of_origin(k: nat)
    ensures
        orbit(origin(), k) == origin(),
        !escaped(orbit(origin(), k)),
    decreases k,
{
    assert(0int * 0int == 0) by (nonlinear_arith);
    if k > 0 {
        lemma_orbit_of_origin((k - 1) as nat);
    }
}

/// The origin never escapes: under every cap it is given the sentinel `0`.
pub proof fn lemma_origin_never_escapes(max: nat)
    ensures
        first_escape(origin(), max) is None,
        escape_count(origin(), max) == 0,
{
    assert forall|k: nat| !escaped(#[trigger] orbit(origin(), k)) by {
        lemma_orbit_of_origin(k);
    }
    lemma_interior_is_sentinel(origin(), max);
}

/// The mapping of a screen position to the plane over the integers: `lo + s·(hi − lo) /
/// extent`, the quotient rounded towards zero.
pub open spec fn whole_screen_to_plane(lo: int, hi: int, extent: int, s: int) -> int {
    whole_map(0, extent, lo, hi, s)
}

/// Between bounds within the coordinate bound, every screen position up to the extent of
/// its axis has a coordinate, and that coordinate lies between the bounds.
pub proof fn lemma_screen_to_plane_whole(lo: Whole, hi: Whole, extent: u32, s: u32)
    requires
        -COORDINATE_BOUND <= lo.0 <= COORDINATE_BOUND,
        -COORDINATE_BOUND <= hi.0 <= COORDINATE_BOUND,
        s <= extent,
        extent >= 1,
    ensures
        screen_to_plane_defined(lo, hi, extent, s),
        spec_screen_to_plane(lo, hi, extent, s).0 == whole_screen_to_plane(
            lo.0 as int,
            hi.0 as int,
            extent as int,
            s as int,
        ),
        lo.0 <= hi.0 ==> lo.0 <= spec_screen_to_plane(lo, hi, extent, s).0 <= hi.0,
        hi.0 <= lo.0 ==> hi.0 <= spec_screen_to_plane(lo, hi, extent, s).0 <= lo.0,
{
    let len = hi.0 - lo.0;
    let e = extent as int;
    let p = s as int;
    let from_range = (scalar_of::<Whole>(0), scalar_of::<Whole>(extent));
    assert(from_range.0 == Whole(0) && from_range.1.0 == e);
    assert(scalar_of::<Whole>(s).0 == p);
    lemma_map_range_whole(from_range, (lo, hi), scalar_of::<Whole>(s));
    if len >= 0 {
        assert(0 <= p * len <= e * len && e * len <= 0x7fff_ffff_8000_0000) by (nonlinear_arith)
            requires
                0 <= p <= e,
                e <= 0xffff_ffff,
                0 <= len <= 0x8000_0000,
        ;
        assert(0 <= (p * len) / e <= len) by (nonlinear_arith)
            requires
                0 <= p * len <= e * len,
                e >= 1,
        ;
    } else {
        let n = p * (-len);
        assert(p * len == -n && 0 <= n <= e * (-len) && e * (-len) <= 0x7fff_ffff_8000_0000)
            by (nonlinear_arith)
            requires
                n == p * (-len),
                0 <= p <= e,
                e <= 0xffff_ffff,
                0 < -len <= 0x8000_0000,
        ;
        assert(0 <= n / e <= -len) by (nonlinear_arith)
            requires
                0 <= n <= e * (-len),
                e >= 1,
        ;
        if n == 0 {
            assert(0int / e == 0) by (nonlinear_arith)
                requires
                    e >= 1,
            ;
        }
    }
}

/// Every pixel of a viewport within the coordinate bound is defined, at every resolution
/// and under every cap.
pub proof fn lemma_image_defined(viewport: Viewport<Whole>, resolution: Resolution, max: u32)
    requires
        viewport_in_bounds(viewport),
    ensures
        image_defined(viewport, resolution, max),
{
    assert forall|px: u32, py: u32|
        px < resolution.width && py < resolution.height implies #[trigger] pixel_defined(
        viewport,
        resolution,
        max,
        px,
        py,
    ) by {
        lemma_screen_to_plane_whole(viewport.x_min, viewport.x_max, resolution.width, px);
        lemma_screen_to_plane_whole(viewport.y_min, viewport.y_max, resolution.height, py);
        lemma_orbit_defined(spec_pixel_point(viewport, resolution, px, py), max as nat);
    }
}

/// On whole numbers the default region is defined: it runs from `−2` to `0` and from `−1`
/// to `1`.
pub proof fn lemma_default_view_whole()
    ensures
        Viewport::<Whole>::default_view_defined(),
        Viewport::<Whole>::spec_default_view() == (Viewport {
            x_min: Whole((-2) as i64),
            x_max: Whole(0),
            y_min: Whole((-1) as i64),
            y_max: Whole(1),
        }),
        viewport_in_bounds(Viewport::<Whole>::spec_default_view()),
{
    assert(scalar_of::<Whole>(47).div_spec(scalar_of::<Whole>(100)) == Whole(0));
    assert(scalar_of::<Whole>(112).div_spec(scalar_of::<Whole>(100)) == Whole(1));
}

/// A zoom into a rectangle on the screen is defined for a viewport within the coordinate
/// bound, and leads to a viewport within it.
pub proof fn lemma_zoom_defined(viewport: Viewport<Whole>, resolution: Resolution, rect: SelectionRect)
    requires
        viewport_in_bounds(viewport),
        resolution.width >= 1,
        resolution.height >= 1,
        rect.min_x <= resolution.width,
        rect.max_x <= resolution.width,
        rect.min_y <= resolution.height,
        rect.max_y <= resolution.height,
    ensures
        zoom_defined(viewport, resolution, rect),
        viewport_in_bounds(spec_zoom(viewport, resolution, rect)),
{
    lemma_screen_to_plane_whole(viewport.x_min, viewport.x_max, resolution.width, rect.min_x);
    lemma_screen_to_plane_whole(viewport.x_min, viewport.x_max, resolution.width, rect.max_x);
    lemma_screen_to_plane_whole(viewport.y_min, viewport.y_max, resolution.height, rect.min_y);
    lemma_screen_to_plane_whole(viewport.y_min, viewport.y_max, resolution.height, rect.max_y);
}

/// On an axis whose visible extent is at least its number of pixels, a lower screen
/// position has a lower coordinate.
proof fn lemma_positions_keep_order(lo: int, hi: int, extent: int, s: int, t: int)
    requires
        extent >= 1,
        hi - lo >= extent,
        0 <= s < t,
    ensures
        whole_screen_to_plane(lo, hi, extent, s) < whole_screen_to_plane(lo, hi, extent, t),
{
    let len = hi - lo;
    assert(0 <= s * len && s * len + extent <= t * len) by (nonlinear_arith)
        requires
            0 <= s < t,
            len >= extent,
            extent >= 1,
    ;
    assert((s * len) / extent < (t * len) / extent) by (nonlinear_arith)
        requires
            0 <= s * len,
            s * len + extent <= t * len,
            extent >= 1,
    ;
}

/// A zoom keeps the viewport ordered, as long as each axis of the viewport spans at least
/// as many whole numbers as the screen has pixels on it. Below that, two screen positions
/// can share one coordinate.
pub proof fn lemma_zoom_keeps_order(
    viewport: Viewport<Whole>,
    resolution: Resolution,
    rect: SelectionRect,
)
    requires
        viewport_in_bounds(viewport),
        rect.fits(resolution),
        viewport.x_max.0 - viewport.x_min.0 >= resolution.width,
        viewport.y_max.0 - viewport.y_min.0 >= resolution.height,
    ensures
        zoom_defined(viewport, resolution, rect),
        spec_zoom(viewport, resolution, rect).ordered(),
{
    lemma_zoom_defined(viewport, resolution, rect);
    lemma_screen_to_plane_whole(viewport.x_min, viewport.x_max, resolution.width, rect.min_x);
    lemma_screen_to_plane_whole(viewport.x_min, viewport.x_max, resolution.width, rect.max_x);
    lemma_screen_to_plane_whole(viewport.y_min, viewport.y_max, resolution.height, rect.min_y);
    lemma_screen_to_plane_whole(viewport.y_min, viewport.y_max, resolution.height, rect.max_y);
    lemma_positions_keep_order(
        viewport.x_min.0 as int,
        viewport.x_max.0 as int,
        resolution.width as int,
        rect.min_x as int,
        rect.max_x as int,
    );
    lemma_positions_keep_order(
        viewport.y_min.0 as int,
        viewport.y_max.0 as int,
        resolution.height as int,
        rect.min_y as int,
        rect.max_y as int,
    );
}

/// The rectangle that covers the whole screen, from the origin to the extent of each axis.
pub open spec fn full_screen(resolution: Resolution) -> SelectionRect {
    SelectionRect { min_x: 0, max_x: resolution.width, min_y: 0, max_y: resolution.height }
}

/// A zoom into the whole screen leaves the viewport as it is.
pub proof fn lemma_full_screen_zoom(viewport: Viewport<Whole>, resolution: Resolution)
    requires
        zoom_defined(viewport, resolution, full_screen(resolution)),
    ensures
        spec_zoom(viewport, resolution, full_screen(resolution)) == viewport,
{
    let x_from = (scalar_of::<Whole>(0), scalar_of::<Whole>(resolution.width));
    let y_from = (scalar_of::<Whole>(0), scalar_of::<Whole>(resolution.height));
    lemma_map_lower_end(x_from, (viewport.x_min, viewport.x_max));
    lemma_map_upper_end(x_from, (viewport.x_min, viewport.x_max));
    lemma_map_lower_end(y_from, (viewport.y_min, viewport.y_max));
    lemma_map_upper_end(y_from, (viewport.y_min, viewport.y_max));
}

} // verus!
