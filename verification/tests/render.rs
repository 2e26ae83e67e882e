use mandelbrot::escape::{Complex, evaluate};
use mandelbrot::fixed::SCALE;
use mandelbrot::palette::{Rgb, colorize};
use mandelbrot::render::{DEFAULT_DIVERGENCE_RADIUS, DEFAULT_ITERATION_CAP, render};
use mandelbrot::viewport::Viewport;

#[test]
fn buffer_has_exactly_width_times_height_pixels() {
    let v = Viewport::new(SCALE, 0, 4 * SCALE);
    let buf = render(v, 4, 3);
    assert_eq!(buf.width, 4);
    assert_eq!(buf.height, 3);
    assert_eq!(buf.pixels.len(), 12);
}

#[test]
fn zero_width_renders_an_empty_buffer() {
    let v = Viewport::new(SCALE, 0, 4 * SCALE);
    let buf = render(v, 0, 5);
    assert_eq!(buf.pixels.len(), 0);
}

#[test]
fn degenerate_zoom_still_fills_the_buffer_uniformly() {
    // With zoom 0 every pixel maps to the same plane point, here
    // -1 + 0i, a bound point: nine black pixels.
    let v = Viewport::new(SCALE, 0, 0);
    let buf = render(v, 3, 3);
    assert_eq!(buf.pixels.len(), 9);
    for px in 0..3u32 {
        for py in 0..3u32 {
            assert_eq!(buf.get(px, py), Rgb { r: 0, g: 0, b: 0 });
        }
    }
}

#[test]
fn known_two_by_two_frame() {
    // Centre 1 + 0i, span 4: the corners map to -3 + 2i, -1 + 2i,
    // -3 + 0i and -1 + 0i. The first three escape on the first
    // update; -1 + 0i is interior, hence black.
    let v = Viewport::new(SCALE, 0, 4 * SCALE);
    let buf = render(v, 2, 2);
    let first = Rgb { r: 42, g: 72, b: 88 };
    assert_eq!(buf.get(0, 0), first);
    assert_eq!(buf.get(1, 0), first);
    assert_eq!(buf.get(0, 1), first);
    assert_eq!(buf.get(1, 1), Rgb { r: 0, g: 0, b: 0 });
}

#[test]
fn pixels_are_stored_row_major() {
    let v = Viewport::new(SCALE, 0, 4 * SCALE);
    let buf = render(v, 2, 2);
    assert_eq!(buf.pixels[0], buf.get(0, 0));
    assert_eq!(buf.pixels[1], buf.get(1, 0));
    assert_eq!(buf.pixels[2], buf.get(0, 1));
    assert_eq!(buf.pixels[3], buf.get(1, 1));
}

#[test]
fn rendered_pixel_matches_direct_evaluation() {
    // Pixel (1, 1) of the 2 by 2 frame maps to -1 + 0i.
    let v = Viewport::new(SCALE, 0, 4 * SCALE);
    let buf = render(v, 2, 2);
    let direct = colorize(evaluate(
        Complex::new(-SCALE, 0),
        DEFAULT_ITERATION_CAP,
        DEFAULT_DIVERGENCE_RADIUS,
    ));
    assert_eq!(buf.get(1, 1), direct);
}
