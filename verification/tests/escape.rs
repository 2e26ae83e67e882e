use mandelbrot::escape::{Complex, EscapeResult, evaluate};
use mandelbrot::fixed::SCALE;

#[test]
fn far_point_escapes_immediately() {
    // |3 + 0i| is beyond radius 2, so the first update already escapes.
    let r = evaluate(Complex::new(3 * SCALE, 0), 1000, 2 * SCALE);
    assert_eq!(r, EscapeResult::Escaped(0));
}

#[test]
fn far_imaginary_point_escapes_immediately() {
    let r = evaluate(Complex::new(0, 3 * SCALE), 1000, 2 * SCALE);
    assert_eq!(r, EscapeResult::Escaped(0));
}

#[test]
fn origin_is_bound() {
    let r = evaluate(Complex::new(0, 0), 1000, 2 * SCALE);
    assert_eq!(r, EscapeResult::Bound);
}

#[test]
fn origin_is_bound_at_any_cap() {
    assert_eq!(evaluate(Complex::new(0, 0), 0, 2 * SCALE), EscapeResult::Bound);
    assert_eq!(evaluate(Complex::new(0, 0), 1, 2 * SCALE), EscapeResult::Bound);
    assert_eq!(evaluate(Complex::new(0, 0), 37, 2 * SCALE), EscapeResult::Bound);
}

#[test]
fn interior_point_is_bound() {
    // -1 + 0i lies in the set's interior: the orbit alternates -1, 0.
    let r = evaluate(Complex::new(-SCALE, 0), 1000, 2 * SCALE);
    assert_eq!(r, EscapeResult::Bound);
}

#[test]
fn fast_escape_has_small_count() {
    // 1 + 1i: the first iterate 1 + 1i stays inside radius 2, the
    // second, 1 + 3i, escapes.
    let r = evaluate(Complex::new(SCALE, SCALE), 1000, 2 * SCALE);
    assert_eq!(r, EscapeResult::Escaped(1));
}

#[test]
fn boundary_magnitude_does_not_escape_first() {
    // 2 + 0i sits exactly on the radius; only a strict crossing
    // escapes, so the escape comes on the second update, whose
    // iterate is 6 + 0i.
    let r = evaluate(Complex::new(2 * SCALE, 0), 1000, 2 * SCALE);
    assert_eq!(r, EscapeResult::Escaped(1));
}

#[test]
fn cap_zero_leaves_every_point_bound() {
    let r = evaluate(Complex::new(3 * SCALE, 0), 0, 2 * SCALE);
    assert_eq!(r, EscapeResult::Bound);
}
