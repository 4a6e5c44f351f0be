//! The image synthesizer: one escape time per pixel, coloured through a palette and laid
//! out as interleaved RGBA bytes, row by row.

use vstd::arithmetic::div_mod::lemma_fundamental_div_mod_converse;
use vstd::prelude::*;

use crate::complex::ComplexNum;
use crate::escape::{escape_count, escape_time, lemma_first_escape_least, orbit_defined};
use crate::range::{map_range, map_range_defined, map_range_spec};
use crate::scalar::{exact_scalar, scalar_of, Scalar};
use crate::viewport::{
    screen_to_plane, screen_to_plane_defined, spec_screen_to_plane, Resolution, Viewport,
};

verus! {

/// One colour of the palette, eight bits per channel.
#[derive(Clone, Copy, Debug, PartialEq, Eq, Structural)]
pub struct Rgba {
    pub r: u8,
    pub g: u8,
    pub b: u8,
    pub a: u8,
}

impl Rgba {
    /// Channel `k` of the colour in the order red, green, blue, alpha.
    pub open spec fn channel(self, k: int) -> u8 {
        if k == 0 {
            self.r
        } else if k == 1 {
            self.g
        } else if k == 2 {
            self.b
        } else {
            self.a
        }
    }
}

/// The point of the plane that the pixel in column `px` and row `py` stands for.
pub open spec fn spec_pixel_point<T: Scalar>(
    viewport: Viewport<T>,
    resolution: Resolution,
    px: u32,
    py: u32,
) -> ComplexNum<T> {
    ComplexNum {
        a: spec_screen_to_plane(viewport.x_min, viewport.x_max, resolution.width, px),
        b: spec_screen_to_plane(viewport.y_min, viewport.y_max, resolution.height, py),
    }
}

/// Whether both coordinates of that point are defined.
pub open spec fn pixel_point_defined<T: Scalar>(
    viewport: Viewport<T>,
    resolution: Resolution,
    px: u32,
    py: u32,
) -> bool {
    &&& screen_to_plane_defined(viewport.x_min, viewport.x_max, resolution.width, px)
    &&& screen_to_plane_defined(viewport.y_min, viewport.y_max, resolution.height, py)
}

/// Maps the pixel in column `px` and row `py` to its point of the plane.
pub fn pixel_point<T: Scalar>(
    viewport: &Viewport<T>,
    resolution: Resolution,
    px: u32,
    py: u32,
) -> (c: ComplexNum<T>)
    requires
        exact_scalar::<T>(),
        pixel_point_defined(*viewport, resolution, px, py),
    ensures
        c == spec_pixel_point(*viewport, resolution, px, py),
{
    ComplexNum {
        a: screen_to_plane(viewport.x_min, viewport.x_max, resolution.width, px),
        b: screen_to_plane(viewport.y_min, viewport.y_max, resolution.height, py),
    }
}

/// The escape time `n` as a fraction of the cap: `n` mapped from `[0, max]` to `[0, 1]`.
pub open spec fn spec_brightness<T: Scalar>(n: u32, max: u32) -> T {
    map_range_spec(
        (scalar_of::<T>(0), scalar_of::<T>(max)),
        (scalar_of::<T>(0), scalar_of::<T>(1)),
        scalar_of::<T>(n),
    )
}

/// Whether every operation of that mapping is defined.
pub open spec fn brightness_defined<T: Scalar>(n: u32, max: u32) -> bool {
    map_range_defined(
        (scalar_of::<T>(0), scalar_of::<T>(max)),
        (scalar_of::<T>(0), scalar_of::<T>(1)),
        scalar_of::<T>(n),
    )
}

/// Normalizes the escape time `n` under the cap `max` into `[0, 1]`.
pub fn brightness<T: Scalar>(n: u32, max: u32) -> (r: T)
    requires
        exact_scalar::<T>(),
        brightness_defined::<T>(n, max),
    ensures
        r == spec_brightness::<T>(n, max),
{
    map_range((T::from(0u32), T::from(max)), (T::from(0u32), T::from(1u32)), T::from(n))
}

/// The escape time of the pixel in column `px` and row `py`.
pub open spec fn pixel_count<T: Scalar>(
    viewport: Viewport<T>,
    resolution: Resolution,
    max: u32,
    px: u32,
    py: u32,
) -> nat {
    escape_count(spec_pixel_point(viewport, resolution, px, py), max as nat)
}

/// Whether the point of the pixel and every step of its orbit are defined.
pub open spec fn pixel_defined<T: Scalar>(
    viewport: Viewport<T>,
    resolution: Resolution,
    max: u32,
    px: u32,
    py: u32,
) -> bool {
    &&& pixel_point_defined(viewport, resolution, px, py)
    &&& orbit_defined(spec_pixel_point(viewport, resolution, px, py), max as nat)
}

/// Whether every pixel of the grid is defined.
pub open spec fn image_defined<T: Scalar>(
    viewport: Viewport<T>,
    resolution: Resolution,
    max: u32,
) -> bool {
    forall|px: u32, py: u32|
        px < resolution.width && py < resolution.height ==> #[trigger] pixel_defined(
            viewport,
            resolution,
            max,
            px,
            py,
        )
}

/// The number of bytes of an image of this resolution.
pub open spec fn image_len(resolution: Resolution) -> nat {
    (resolution.width * resolution.height * 4) as nat
}

/// Byte `i` of the image: channel `i mod 4` of the palette colour at the escape time of
/// pixel `i div 4`, the pixels counted row by row.
pub open spec fn image_byte<T: Scalar>(
    viewport: Viewport<T>,
    resolution: Resolution,
    max: u32,
    palette: Seq<Rgba>,
    i: int,
) -> u8 {
    let px = ((i / 4) % (resolution.width as int)) as u32;
    let py = ((i / 4) / (resolution.width as int)) as u32;
    palette[pixel_count(viewport, resolution, max, px, py) as int].channel(i % 4)
}

/// The whole image as a sequence of bytes.
pub open spec fn image_bytes<T: Scalar>(
    viewport: Viewport<T>,
    resolution: Resolution,
    max: u32,
    palette: Seq<Rgba>,
) -> Seq<u8> {
    Seq::new(image_len(resolution), |i: int| image_byte(viewport, resolution, max, palette, i))
}

/// The place of a pixel in the byte sequence, and the bytes found there.
pub proof fn lemma_pixel_bytes<T: Scalar>(
    viewport: Viewport<T>,
    resolution: Resolution,
    max: u32,
    palette: Seq<Rgba>,
    px: u32,
    py: u32,
    k: int,
)
    requires
        px < resolution.width,
        py < resolution.height,
        0 <= k < 4,
    ensures
        0 <= 4 * (py * resolution.width + px) + k < image_len(resolution),
        image_bytes(viewport, resolution, max, palette)[4 * (py * resolution.width + px) + k]
            == palette[pixel_count(viewport, resolution, max, px, py) as int].channel(k),
{
    let w = resolution.width as int;
    let h = resolution.height as int;
    let idx = py * w + px;
    assert(0 <= py * w && (py + 1) * w <= h * w && (py + 1) * w == py * w + w && w * h == h * w)
        by (nonlinear_arith)
        requires
            0 <= py < h,
            0 < w,
    ;
    let i = 4 * idx + k;
    assert(i / 4 == idx && i % 4 == k);
    lemma_fundamental_div_mod_converse(idx, w, py as int, px as int);
}

/// The image is determined by the viewport, the resolution, the cap and the palette: two
/// renderings of the same four are byte for byte the same, and hold four bytes per pixel.
pub proof fn lemma_image_determined<T: Scalar>(
    viewport: Viewport<T>,
    resolution: Resolution,
    max: u32,
    palette: Seq<Rgba>,
    first: Seq<u8>,
    second: Seq<u8>,
)
    requires
        first == image_bytes(viewport, resolution, max, palette),
        second == image_bytes(viewport, resolution, max, palette),
    ensures
        first == second,
        first.len() == resolution.width * resolution.height * 4,
{
    assert(0 <= resolution.width * resolution.height * 4) by (nonlinear_arith);
}

/// Every escape time under a positive cap is below the cap.
pub proof fn lemma_count_below_cap<T: Scalar>(c: ComplexNum<T>, max: nat)
    requires
        max > 0,
    ensures
        escape_count(c, max) < max,
{
    lemma_first_escape_least(c, max);
}

/// Renders the region `viewport` at the given resolution and iteration cap.
///
/// Pixel by pixel, row by row, the pixel is mapped to its point of the plane, the escape
/// time of that point is computed, and the four channels of the palette colour at that
/// escape time are appended. The palette holds one colour for each escape time below the
/// cap.
pub fn generate_pixels<T: Scalar>(
    viewport: &Viewport<T>,
    resolution: Resolution,
    max: u32,
    palette: &Vec<Rgba>,
) -> (pixels: Vec<u8>)
    requires
        exact_scalar::<T>(),
        max >= 1,
        palette@.len() == max,
        image_len(resolution) <= usize::MAX,
        image_defined(*viewport, resolution, max),
    ensures
        pixels@ == image_bytes(*viewport, resolution, max, palette@),
        pixels@.len() == resolution.width * resolution.height * 4,
{
    let ghost image = image_bytes(*viewport, resolution, max, palette@);
    let mut pixels: Vec<u8> = Vec::new();
    assert(0 * resolution.width == 0) by (nonlinear_arith);
    for py in 0..resolution.height
        invariant
            exact_scalar::<T>(),
            max >= 1,
            palette@.len() == max,
            image_defined(*viewport, resolution, max),
            image == image_bytes(*viewport, resolution, max, palette@),
            pixels@.len() == 4 * (py * resolution.width),
            forall|i: int| 0 <= i < pixels@.len() ==> pixels@[i] == image[i],
    {
        assert(py * resolution.width + 0 == py * resolution.width);
        for px in 0..resolution.width
            invariant
                exact_scalar::<T>(),
                max >= 1,
                palette@.len() == max,
                py < resolution.height,
                image_defined(*viewport, resolution, max),
                image == image_bytes(*viewport, resolution, max, palette@),
                pixels@.len() == 4 * (py * resolution.width + px),
                forall|i: int| 0 <= i < pixels@.len() ==> pixels@[i] == image[i],
        {
            assert(pixel_defined(*viewport, resolution, max, px, py));
            let c = pixel_point(viewport, resolution, px, py);
            let n = escape_time(&c, max);
            proof {
                lemma_count_below_cap(c, max as nat);
                lemma_pixel_bytes(*viewport, resolution, max, palette@, px, py, 0);
                lemma_pixel_bytes(*viewport, resolution, max, palette@, px, py, 1);
                lemma_pixel_bytes(*viewport, resolution, max, palette@, px, py, 2);
                lemma_pixel_bytes(*viewport, resolution, max, palette@, px, py, 3);
            }
            let colour = palette[n as usize];
            pixels.push(colour.r);
            pixels.push(colour.g);
            pixels.push(colour.b);
            pixels.push(colour.a);
        }
        assert(4 * (py * resolution.width + resolution.width) == 4 * ((py + 1)
            * resolution.width)) by (nonlinear_arith);
    }
    assert(4 * (resolution.height * resolution.width) == resolution.width * resolution.height * 4)
        by (nonlinear_arith);
    assert(pixels@ =~= image);
    pixels
}

} // verus!
