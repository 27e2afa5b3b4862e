use vstd::prelude::*;

use crate::math::{fits_i32, int_abs, ivec, IVec2};

verus! {

/// The span of one axis after growing it by `|d|` cells.
pub open spec fn grown_span(span: int, d: int) -> int {
    span + int_abs(d)
}

/// The origin of one axis after growing it: a step toward negative
/// coordinates moves the origin back by one cell.
pub open spec fn grown_origin(origin: int, d: int) -> int {
    if d < 0 {
        origin - 1
    } else {
        origin
    }
}

/// The span of one axis after shrinking it by `|d|` cells, never below one.
pub open spec fn shrunk_span(span: int, d: int) -> int {
    if span - int_abs(d) >= 1 {
        span - int_abs(d)
    } else {
        1
    }
}

/// The origin of one axis after shrinking it: when the span did shrink, a
/// step toward negative coordinates moves the origin forward by one cell.
pub open spec fn shrunk_origin(origin: int, span: int, d: int) -> int {
    if shrunk_span(span, d) < span && d < 0 {
        origin + 1
    } else {
        origin
    }
}

/// Whether growing an axis by `d` stays within `i32`.
pub open spec fn can_grow(span: int, origin: int, d: int) -> bool {
    d != i32::MIN && fits_i32(grown_span(span, d)) && fits_i32(grown_origin(origin, d))
}

/// Whether shrinking an axis by `d` stays within `i32`.
pub open spec fn can_shrink(span: int, origin: int, d: int) -> bool {
    d != i32::MIN && fits_i32(span - int_abs(d)) && fits_i32(shrunk_origin(origin, span, d))
}

/// The part of the grid that the output shows: `span` cells from `origin`.
#[derive(Clone, Copy, Debug, PartialEq, Eq, Structural)]
pub struct Camera {
    pub origin: IVec2,
    pub span: IVec2,
}

/// The camera grown by `d`: each axis gains `|d|` cells, on the side that
/// `d` points to.
pub open spec fn grown(c: Camera, d: IVec2) -> Camera {
    Camera {
        origin: ivec(grown_origin(c.origin.x as int, d.x as int), grown_origin(c.origin.y as int, d.y as int)),
        span: ivec(grown_span(c.span.x as int, d.x as int), grown_span(c.span.y as int, d.y as int)),
    }
}

/// The camera shrunk by `d`: each axis loses up to `|d|` cells, on the side
/// that `d` points to, keeping at least one.
pub open spec fn shrunk(c: Camera, d: IVec2) -> Camera {
    Camera {
        origin: ivec(
            shrunk_origin(c.origin.x as int, c.span.x as int, d.x as int),
            shrunk_origin(c.origin.y as int, c.span.y as int, d.y as int),
        ),
        span: ivec(shrunk_span(c.span.x as int, d.x as int), shrunk_span(c.span.y as int, d.y as int)),
    }
}

/// The camera moved by `d` cells.
pub open spec fn panned(c: Camera, d: IVec2) -> Camera {
    Camera { origin: ivec(c.origin.x + d.x, c.origin.y + d.y), span: c.span }
}

/// Grows one axis by `|d|`.
fn grow_dir(span: &mut i32, origin: &mut i32, d: i32)
    requires
        can_grow(*old(span) as int, *old(origin) as int, d as int),
    ensures
        *final(span) == grown_span(*old(span) as int, d as int),
        *final(origin) == grown_origin(*old(origin) as int, d as int),
{
    *span = *span + crate::math::abs_i32(d);
    if d < 0 {
        *origin = *origin - 1;
    }
}

/// Shrinks one axis by `|d|`, keeping at least one cell.
fn shrink_dir(span: &mut i32, origin: &mut i32, d: i32)
    requires
        can_shrink(*old(span) as int, *old(origin) as int, d as int),
    ensures
        *final(span) == shrunk_span(*old(span) as int, d as int),
        *final(origin) == shrunk_origin(*old(origin) as int, *old(span) as int, d as int),
{
    let old_span = *span;
    let reduced = *span - crate::math::abs_i32(d);
    *span = if reduced >= 1 {
        reduced
    } else {
        1
    };
    if *span < old_span {
        if d < 0 {
            *origin = *origin + 1;
        }
    }
}

/// Whether growing an axis by `d` stays within `i32`, computed.
pub(crate) fn can_grow_exec(span: i32, origin: i32, d: i32) -> (r: bool)
    ensures
        r == can_grow(span as int, origin as int, d as int),
{
    if d == i32::MIN {
        return false;
    }
    let grown_span: i64 = (span as i64) + (if d < 0 { -(d as i64) } else { d as i64 });
    let grown_origin: i64 = if d < 0 { (origin as i64) - 1 } else { origin as i64 };
    grown_span <= 0x7fff_ffff && grown_origin >= -0x8000_0000
}

/// Whether shrinking an axis by `d` stays within `i32`, computed.
pub(crate) fn can_shrink_exec(span: i32, origin: i32, d: i32) -> (r: bool)
    ensures
        r == can_shrink(span as int, origin as int, d as int),
{
    if d == i32::MIN {
        return false;
    }
    let magnitude: i64 = if d < 0 { -(d as i64) } else { d as i64 };
    let reduced: i64 = (span as i64) - magnitude;
    let new_span: i64 = if reduced >= 1 { reduced } else { 1 };
    let new_origin: i64 = if new_span < (span as i64) && d < 0 { (origin as i64) + 1 } else { origin as i64 };
    reduced >= -0x8000_0000 && new_origin <= 0x7fff_ffff
}

impl Camera {
    /// Whether the camera shows at least one cell on each axis.
    pub open spec fn well_formed(&self) -> bool {
        self.span.x >= 1 && self.span.y >= 1
    }

    /// The camera on the cell `(0, 0)` alone.
    pub open spec fn new_spec() -> Camera {
        Camera { origin: ivec(0, 0), span: ivec(1, 1) }
    }

    /// The camera on the cell `(0, 0)` alone.
    pub fn new() -> (c: Camera)
        ensures
            c == Camera::new_spec(),
            c.well_formed(),
    {
        Camera { origin: IVec2::zero(), span: IVec2::one() }
    }

    /// Shows `|dir|` more cells on each axis, on the side `dir` points to.
    pub fn grow(&mut self, dir: IVec2)
        requires
            can_grow(old(self).span.x as int, old(self).origin.x as int, dir.x as int),
            can_grow(old(self).span.y as int, old(self).origin.y as int, dir.y as int),
        ensures
            *final(self) == grown(*old(self), dir),
    {
        grow_dir(&mut self.span.x, &mut self.origin.x, dir.x);
        grow_dir(&mut self.span.y, &mut self.origin.y, dir.y);
    }

    /// Shows up to `|dir|` fewer cells on each axis, from the side `dir`
    /// points to, keeping at least one.
    pub fn shrink(&mut self, dir: IVec2)
        requires
            can_shrink(old(self).span.x as int, old(self).origin.x as int, dir.x as int),
            can_shrink(old(self).span.y as int, old(self).origin.y as int, dir.y as int),
        ensures
            *final(self) == shrunk(*old(self), dir),
    {
        shrink_dir(&mut self.span.x, &mut self.origin.x, dir.x);
        shrink_dir(&mut self.span.y, &mut self.origin.y, dir.y);
    }

    /// Moves the camera by `dir` cells.
    pub fn pan(&mut self, dir: IVec2)
        requires
            fits_i32(old(self).origin.x + dir.x),
            fits_i32(old(self).origin.y + dir.y),
        ensures
            *final(self) == panned(*old(self), dir),
    {
        self.origin.add_assign(dir);
    }
}

/// Growing, shrinking and moving keep a camera well formed.
pub proof fn lemma_camera_stays_well_formed(c: Camera, d: IVec2)
    requires
        c.well_formed(),
        fits_i32(grown_span(c.span.x as int, d.x as int)),
        fits_i32(grown_span(c.span.y as int, d.y as int)),
    ensures
        grown(c, d).well_formed(),
        shrunk(c, d).well_formed(),
        panned(c, d).well_formed(),
{
}

/// Shrinking by the direction just grown by gives back the camera.
pub proof fn lemma_shrink_undoes_grow(c: Camera, d: IVec2)
    requires
        c.well_formed(),
        can_grow(c.span.x as int, c.origin.x as int, d.x as int),
        can_grow(c.span.y as int, c.origin.y as int, d.y as int),
    ensures
        shrunk(grown(c, d), d) == c,
{
}

/// Moving back by the direction just moved by gives back the camera.
pub proof fn lemma_pan_back(c: Camera, d: IVec2)
    requires
        d.x != i32::MIN,
        d.y != i32::MIN,
        fits_i32(c.origin.x + d.x),
        fits_i32(c.origin.y + d.y),
    ensures
        panned(panned(c, d), ivec(-d.x, -d.y)) == c,
{
}

} // verus!
