//! The viewport and its discrete navigation commands.
//!
//! A viewport is a centre in fixed-point plane coordinates and a zoom,
//! the full span of plane coordinates visible across the output grid
//! (both axes, square aspect). Navigation is discrete: a pan shifts
//! one centre coordinate by a quarter of the span, a zoom command
//! halves or doubles the span. Each command yields a new well-formed
//! viewport; at the edge of the representable range a command
//! saturates instead of leaving it.

use vstd::prelude::*;

verus! {

/// Largest magnitude of a centre coordinate: 64 plane units.
pub const CENTER_LIMIT: i64 = 0x4000_0000;

/// Largest zoom span: 64 plane units.
pub const ZOOM_LIMIT: i64 = 0x4000_0000;

/// The viewport: a centre point and the visible span.
#[derive(Clone, Copy, Debug, PartialEq, Eq, Structural)]
pub struct Viewport {
    pub center_re: i64,
    pub center_im: i64,
    pub zoom: i64,
}

/// One navigation event; anything but the six commands is `Other`, a
/// no-op.
#[derive(Clone, Copy, Debug, PartialEq, Eq, Structural)]
pub enum NavCommand {
    PanLeft,
    PanRight,
    PanUp,
    PanDown,
    ZoomIn,
    ZoomOut,
    Other,
}

/// A value saturated into the representable centre square.
pub open spec fn saturated(v: int) -> int {
    if v > CENTER_LIMIT {
        CENTER_LIMIT as int
    } else if v < -CENTER_LIMIT {
        -CENTER_LIMIT as int
    } else {
        v
    }
}

/// A centre coordinate after panning by `delta`, saturated.
pub open spec fn panned(c: int, delta: int) -> int {
    saturated(c + delta)
}

/// One pan step: a quarter of the visible span.
pub open spec fn pan_step(zoom: int) -> int {
    zoom / 4
}

/// The span after zooming in: halved, held at the smallest positive
/// span.
pub open spec fn zoomed_in(z: int) -> int {
    if z / 2 >= 1 {
        z / 2
    } else {
        z
    }
}

/// The span after zooming out: doubled, held at the largest span.
pub open spec fn zoomed_out(z: int) -> int {
    if 2 * z <= ZOOM_LIMIT {
        2 * z
    } else {
        z
    }
}

/// The viewport a navigation command owes, over the spec functions of
/// the six mutations.
pub open spec fn apply_spec(v: Viewport, cmd: NavCommand) -> Viewport {
    match cmd {
        NavCommand::PanLeft => Viewport {
            center_re: panned(v.center_re as int, pan_step(v.zoom as int)) as i64,
            ..v
        },
        NavCommand::PanRight => Viewport {
            center_re: panned(v.center_re as int, -pan_step(v.zoom as int)) as i64,
            ..v
        },
        NavCommand::PanUp => Viewport {
            center_im: panned(v.center_im as int, pan_step(v.zoom as int)) as i64,
            ..v
        },
        NavCommand::PanDown => Viewport {
            center_im: panned(v.center_im as int, -pan_step(v.zoom as int)) as i64,
            ..v
        },
        NavCommand::ZoomIn => Viewport { zoom: zoomed_in(v.zoom as int) as i64, ..v },
        NavCommand::ZoomOut => Viewport { zoom: zoomed_out(v.zoom as int) as i64, ..v },
        NavCommand::Other => v,
    }
}

fn saturate(v: i64) -> (r: i64)
    requires
        -0x8000_0000_0000 <= v <= 0x8000_0000_0000,
    ensures
        r == saturated(v as int),
{
    if v > CENTER_LIMIT {
        CENTER_LIMIT
    } else if v < -CENTER_LIMIT {
        -CENTER_LIMIT
    } else {
        v
    }
}

impl Viewport {
    /// Centre within the representable square, span nonnegative and
    /// within range. A zero span is degenerate yet renderable: every
    /// pixel then maps to one plane point.
    pub open spec fn wf(self) -> bool {
        &&& -CENTER_LIMIT <= self.center_re <= CENTER_LIMIT
        &&& -CENTER_LIMIT <= self.center_im <= CENTER_LIMIT
        &&& 0 <= self.zoom <= ZOOM_LIMIT
    }

    pub fn new(center_re: i64, center_im: i64, zoom: i64) -> (v: Viewport)
        requires
            -CENTER_LIMIT <= center_re <= CENTER_LIMIT,
            -CENTER_LIMIT <= center_im <= CENTER_LIMIT,
            0 <= zoom <= ZOOM_LIMIT,
        ensures
            v.wf(),
            v.center_re == center_re,
            v.center_im == center_im,
            v.zoom == zoom,
    {
        Viewport { center_re, center_im, zoom }
    }

    fn pan_step_exec(&self) -> (s: i64)
        requires
            self.wf(),
        ensures
            s == pan_step(self.zoom as int),
            0 <= s <= ZOOM_LIMIT,
    {
        ((self.zoom as u64) / 4) as i64
    }

    /// Shift the centre one pan step along the positive real axis.
    pub fn pan_left(&mut self)
        requires
            old(self).wf(),
        ensures
            *final(self) == apply_spec(*old(self), NavCommand::PanLeft),
            final(self).wf(),
    {
        let step: i64 = self.pan_step_exec();
        self.center_re = saturate(self.center_re + step);
    }

    /// Shift the centre one pan step along the negative real axis.
    pub fn pan_right(&mut self)
        requires
            old(self).wf(),
        ensures
            *final(self) == apply_spec(*old(self), NavCommand::PanRight),
            final(self).wf(),
    {
        let step: i64 = self.pan_step_exec();
        self.center_re = saturate(self.center_re - step);
    }

    /// Shift the centre one pan step along the positive imaginary axis.
    pub fn pan_up(&mut self)
        requires
            old(self).wf(),
        ensures
            *final(self) == apply_spec(*old(self), NavCommand::PanUp),
            final(self).wf(),
    {
        let step: i64 = self.pan_step_exec();
        self.center_im = saturate(self.center_im + step);
    }

    /// Shift the centre one pan step along the negative imaginary axis.
    pub fn pan_down(&mut self)
        requires
            old(self).wf(),
        ensures
            *final(self) == apply_spec(*old(self), NavCommand::PanDown),
            final(self).wf(),
    {
        let step: i64 = self.pan_step_exec();
        self.center_im = saturate(self.center_im - step);
    }

    /// Halve the span, holding it at the smallest positive span.
    pub fn zoom_in(&mut self)
        requires
            old(self).wf(),
        ensures
            *final(self) == apply_spec(*old(self), NavCommand::ZoomIn),
            final(self).wf(),
            old(self).zoom >= 1 ==> final(self).zoom >= 1,
    {
        let half: i64 = ((self.zoom as u64) / 2) as i64;
        if half >= 1 {
            self.zoom = half;
        }
    }

    /// Double the span, holding it at the largest span.
    pub fn zoom_out(&mut self)
        requires
            old(self).wf(),
        ensures
            *final(self) == apply_spec(*old(self), NavCommand::ZoomOut),
            final(self).wf(),
            old(self).zoom >= 1 ==> final(self).zoom >= 1,
    {
        if self.zoom * 2 <= ZOOM_LIMIT {
            self.zoom = self.zoom * 2;
        }
    }

    /// Dispatch one navigation event, the decision core of the key
    /// handler: four pans, two zooms, and a no-op for anything else.
    pub fn apply(&mut self, cmd: NavCommand)
        requires
            old(self).wf(),
        ensures
            *final(self) == apply_spec(*old(self), cmd),
            final(self).wf(),
    {
        match cmd {
            NavCommand::PanLeft => self.pan_left(),
            NavCommand::PanRight => self.pan_right(),
            NavCommand::PanUp => self.pan_up(),
            NavCommand::PanDown => self.pan_down(),
            NavCommand::ZoomIn => self.zoom_in(),
            NavCommand::ZoomOut => self.zoom_out(),
            NavCommand::Other => {},
        }
    }
}

/// Panning by a step and back by the symmetric step returns the
/// coordinate exactly, as long as the first move stays inside the
/// representable square.
pub proof fn lemma_pan_round_trip(c: int, delta: int)
    requires
        -CENTER_LIMIT <= c <= CENTER_LIMIT,
        -CENTER_LIMIT <= c + delta <= CENTER_LIMIT,
    ensures
        panned(panned(c, delta), -delta) == c,
{
}

/// Panning left then right returns the viewport exactly, as long as
/// the first pan stays inside the representable square.
pub proof fn lemma_pan_inverse(v: Viewport)
    requires
        v.wf(),
        -CENTER_LIMIT <= v.center_re + pan_step(v.zoom as int) <= CENTER_LIMIT,
    ensures
        apply_spec(apply_spec(v, NavCommand::PanLeft), NavCommand::PanRight) == v,
{
    lemma_pan_round_trip(v.center_re as int, pan_step(v.zoom as int));
}

/// Zooming in then out returns the span exactly whenever it is even,
/// halving and doubling being exact inverses on even spans.
pub proof fn lemma_zoom_inverse(v: Viewport)
    requires
        v.wf(),
        v.zoom >= 2,
        v.zoom % 2 == 0,
    ensures
        apply_spec(apply_spec(v, NavCommand::ZoomIn), NavCommand::ZoomOut) == v,
{
}

} // verus!
