use mandelbrot::escape::escape_time;
use mandelbrot::image::{brightness, generate_pixels, pixel_point, Rgba};
use mandelbrot::viewport::{screen_to_plane, Resolution, Viewport};
use mandelbrot::whole::Whole;

fn palette(max: u32) -> Vec<Rgba> {
    let mut colours = Vec::new();
    for n in 0..max {
        let base = (n * 10) as u8;
        colours.push(Rgba { r: base, g: base + 1, b: base + 2, a: 255 });
    }
    colours
}

fn default_viewport() -> Viewport<f64> {
    Viewport { x_min: -2.0, x_max: 0.47, y_min: -1.12, y_max: 1.12 }
}

fn lattice_viewport() -> Viewport<Whole> {
    Viewport { x_min: Whole(-2), x_max: Whole(1), y_min: Whole(-1), y_max: Whole(1) }
}

#[test]
fn buffer_holds_four_bytes_per_pixel() {
    for (width, height) in [(0u32, 0u32), (0, 5), (5, 0), (1, 1), (7, 3), (64, 48)] {
        let resolution = Resolution { width, height };
        let pixels = generate_pixels(&default_viewport(), resolution, 10, &palette(10));
        assert_eq!(pixels.len(), (width * height * 4) as usize);
    }
}

#[test]
fn rendering_twice_gives_the_same_bytes() {
    let resolution = Resolution { width: 80, height: 60 };
    let first = generate_pixels(&default_viewport(), resolution, 10, &palette(10));
    let second = generate_pixels(&default_viewport(), resolution, 10, &palette(10));
    assert_eq!(first, second);
}

#[test]
fn pixels_are_laid_out_row_by_row() {
    let resolution = Resolution { width: 3, height: 2 };
    let pixels = generate_pixels(&lattice_viewport(), resolution, 10, &palette(10));
    let expected: Vec<u8> = vec![
        0, 1, 2, 255, 20, 21, 22, 255, 0, 1, 2, 255, 0, 1, 2, 255, 0, 1, 2, 255, 0, 1, 2, 255,
    ];
    assert_eq!(pixels, expected);
}

#[test]
fn every_pixel_is_the_palette_colour_of_its_escape_time() {
    let resolution = Resolution { width: 40, height: 30 };
    let viewport = default_viewport();
    let colours = palette(12);
    let pixels = generate_pixels(&viewport, resolution, 12, &colours);
    for py in 0..30u32 {
        for px in 0..40u32 {
            let c = pixel_point(&viewport, resolution, px, py);
            let colour = colours[escape_time(&c, 12) as usize];
            let at = 4 * (py * 40 + px) as usize;
            assert_eq!(pixels[at], colour.r);
            assert_eq!(pixels[at + 1], colour.g);
            assert_eq!(pixels[at + 2], colour.b);
            assert_eq!(pixels[at + 3], colour.a);
        }
    }
}

#[test]
fn centre_pixel_of_default_view_is_a_member() {
    let resolution = Resolution { width: 500, height: 500 };
    let viewport = default_viewport();
    let c = pixel_point(&viewport, resolution, 250, 250);
    assert!((c.a - -0.765).abs() < 1e-12);
    assert!(c.b.abs() < 1e-12);
    assert_eq!(escape_time(&c, 10), 0);
    let colours = palette(10);
    let pixels = generate_pixels(&viewport, resolution, 10, &colours);
    assert_eq!(pixels.len(), 1_000_000);
    let at = 4 * (250 * 500 + 250);
    assert_eq!(&pixels[at..at + 4], &[0u8, 1, 2, 255][..]);
}

#[test]
fn pixel_mapped_to_two_plus_two_i_escapes_at_once() {
    let viewport = Viewport { x_min: 2.0, x_max: 3.0, y_min: 2.0, y_max: 3.0 };
    let resolution = Resolution { width: 10, height: 10 };
    let c = pixel_point(&viewport, resolution, 0, 0);
    assert_eq!(c.a, 2.0);
    assert_eq!(c.b, 2.0);
    assert_eq!(escape_time(&c, 10), 0);
    let pixels = generate_pixels(&viewport, resolution, 10, &palette(10));
    assert_eq!(&pixels[0..4], &[0u8, 1, 2, 255][..]);
}

#[test]
fn default_view_holds_the_whole_set() {
    assert_eq!(
        Viewport::<f64>::default_view(),
        Viewport { x_min: -2.0, x_max: 0.47, y_min: -1.12, y_max: 1.12 }
    );
    assert_eq!(
        Viewport::<Whole>::default_view(),
        Viewport { x_min: Whole(-2), x_max: Whole(0), y_min: Whole(-1), y_max: Whole(1) }
    );
}

#[test]
fn pixel_point_maps_corners() {
    let resolution = Resolution { width: 500, height: 500 };
    let origin = pixel_point(&default_viewport(), resolution, 0, 0);
    assert_eq!(origin.a, -2.0);
    assert_eq!(origin.b, -1.12);
    let lattice = pixel_point(&lattice_viewport(), Resolution { width: 3, height: 2 }, 2, 1);
    assert_eq!(lattice.a, Whole(0));
    assert_eq!(lattice.b, Whole(0));
}

#[test]
fn screen_to_plane_spans_the_interval() {
    assert_eq!(screen_to_plane(-2.0_f64, 0.47, 500, 0), -2.0);
    assert!((screen_to_plane(-2.0_f64, 0.47, 500, 500) - 0.47).abs() < 1e-12);
    assert_eq!(screen_to_plane(Whole(-2000), Whole(1000), 500, 62), Whole(-1628));
    assert_eq!(screen_to_plane(Whole(-2000), Whole(1000), 500, 500), Whole(1000));
}

#[test]
fn brightness_is_the_fraction_of_the_cap() {
    assert_eq!(brightness::<f64>(0, 10), 0.0);
    assert_eq!(brightness::<f64>(5, 10), 0.5);
    assert_eq!(brightness::<f64>(10, 10), 1.0);
    assert_eq!(brightness::<f64>(3, 4), 0.75);
    assert_eq!(brightness::<Whole>(3, 4), Whole(0));
    assert_eq!(brightness::<Whole>(4, 4), Whole(1));
}
