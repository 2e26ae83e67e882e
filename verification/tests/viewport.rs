use mandelbrot::fixed::SCALE;
use mandelbrot::viewport::{CENTER_LIMIT, NavCommand, Viewport, ZOOM_LIMIT};

#[test]
fn pan_left_then_right_round_trips() {
    let mut v = Viewport::new(SCALE, 0, 4 * SCALE);
    v.pan_left();
    assert_eq!(v.center_re, 2 * SCALE); // one step is zoom / 4 = 1 unit
    v.pan_right();
    assert_eq!(v.center_re, SCALE);
    assert_eq!(v.center_im, 0);
    assert_eq!(v.zoom, 4 * SCALE);
}

#[test]
fn pan_up_then_down_round_trips() {
    let mut v = Viewport::new(0, -SCALE, 4 * SCALE);
    v.pan_up();
    assert_eq!(v.center_im, 0);
    v.pan_down();
    assert_eq!(v.center_im, -SCALE);
}

#[test]
fn zoom_in_then_out_round_trips() {
    let mut v = Viewport::new(SCALE, 0, 4 * SCALE);
    v.zoom_in();
    assert_eq!(v.zoom, 2 * SCALE);
    v.zoom_out();
    assert_eq!(v.zoom, 4 * SCALE);
}

#[test]
fn zoom_in_holds_at_smallest_span() {
    let mut v = Viewport::new(0, 0, 1);
    v.zoom_in();
    assert_eq!(v.zoom, 1);
}

#[test]
fn zoom_out_holds_at_largest_span() {
    let mut v = Viewport::new(0, 0, ZOOM_LIMIT);
    v.zoom_out();
    assert_eq!(v.zoom, ZOOM_LIMIT);
}

#[test]
fn pan_saturates_at_the_edge() {
    let mut v = Viewport::new(CENTER_LIMIT, 0, 4 * SCALE);
    v.pan_left();
    assert_eq!(v.center_re, CENTER_LIMIT);
    v.pan_right();
    assert_eq!(v.center_re, CENTER_LIMIT - SCALE);
}

#[test]
fn apply_dispatches_like_the_methods() {
    let mut by_command = Viewport::new(SCALE, 2 * SCALE, 8 * SCALE);
    let mut by_method = by_command;
    by_command.apply(NavCommand::PanUp);
    by_method.pan_up();
    assert_eq!(by_command, by_method);
    by_command.apply(NavCommand::ZoomOut);
    by_method.zoom_out();
    assert_eq!(by_command, by_method);
}

#[test]
fn other_input_is_a_no_op() {
    let mut v = Viewport::new(SCALE, -SCALE, 4 * SCALE);
    let before = v;
    v.apply(NavCommand::Other);
    assert_eq!(v, before);
}
