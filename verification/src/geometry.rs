//! Pixel rectangles, display bounds, and the resolution of a selected
//! rectangle into one that can be captured.

use vstd::prelude::*;

verus! {

/// Width in pixels of the band above a display's bottom edge inside which
/// the bottom of a selection is pulled down to meet the edge.
pub const SNAP_MARGIN_PX: i32 = 50;

/// A rectangle of the integer plane: its origin and its extent along each
/// axis. Nothing is asked of the extents; they may be zero or negative.
pub struct Area {
    pub x: int,
    pub y: int,
    pub w: int,
    pub h: int,
}

/// A pixel rectangle in global display coordinates.
#[derive(Clone, Copy, Debug, PartialEq, Eq, Structural)]
pub struct Rect {
    pub x: i32,
    pub y: i32,
    pub w: i32,
    pub h: i32,
}

/// The bounds of one display output, in global display coordinates.
#[derive(Clone, Copy, Debug, PartialEq, Eq, Structural)]
pub struct Monitor {
    pub x: i32,
    pub y: i32,
    pub w: i32,
    pub h: i32,
}

/// A rectangle that cannot be captured, with the extents that rule it out.
#[derive(Clone, Copy, Debug, PartialEq, Eq, Structural)]
pub struct RegionError {
    pub w: i64,
    pub h: i64,
}

impl View for Rect {
    type V = Area;

    open spec fn view(&self) -> Area {
        Area { x: self.x as int, y: self.y as int, w: self.w as int, h: self.h as int }
    }
}

impl View for Monitor {
    type V = Area;

    open spec fn view(&self) -> Area {
        Area { x: self.x as int, y: self.y as int, w: self.w as int, h: self.h as int }
    }
}

/// Half of `n`, rounded towards zero.
pub open spec fn half(n: int) -> int {
    if n >= 0 {
        n / 2
    } else {
        -((-n) / 2)
    }
}

/// The larger of two integers.
pub open spec fn larger(a: int, b: int) -> int {
    if a >= b {
        a
    } else {
        b
    }
}

/// The smaller of two integers.
pub open spec fn smaller(a: int, b: int) -> int {
    if a <= b {
        a
    } else {
        b
    }
}

impl Area {
    /// The coordinate just past the right edge.
    pub open spec fn right(self) -> int {
        self.x + self.w
    }

    /// The coordinate just past the bottom edge.
    pub open spec fn bottom(self) -> int {
        self.y + self.h
    }

    /// The horizontal coordinate of the centre point.
    pub open spec fn center_x(self) -> int {
        self.x + half(self.w)
    }

    /// The vertical coordinate of the centre point.
    pub open spec fn center_y(self) -> int {
        self.y + half(self.h)
    }

    /// Whether the point `(px, py)` lies in this rectangle, whose left and
    /// top edges belong to it and whose right and bottom edges do not.
    pub open spec fn holds_point(self, px: int, py: int) -> bool {
        &&& self.x <= px < self.right()
        &&& self.y <= py < self.bottom()
    }

    /// Whether this rectangle, taken as a display's bounds, owns `r`: it
    /// holds the centre point of `r`.
    pub open spec fn owns(self, r: Area) -> bool {
        self.holds_point(r.center_x(), r.center_y())
    }

    /// Whether this rectangle lies wholly inside `bounds`.
    pub open spec fn lies_within(self, bounds: Area) -> bool {
        &&& bounds.x <= self.x
        &&& self.right() <= bounds.right()
        &&& bounds.y <= self.y
        &&& self.bottom() <= bounds.bottom()
    }

    /// This rectangle cut down to `bounds`: on each axis it starts at the
    /// later of the two starts and ends at the earlier of the two ends.
    pub open spec fn clamped(self, bounds: Area) -> Area {
        let x = larger(self.x, bounds.x);
        let y = larger(self.y, bounds.y);
        Area {
            x,
            y,
            w: smaller(self.right(), bounds.right()) - x,
            h: smaller(self.bottom(), bounds.bottom()) - y,
        }
    }

    /// The distance from the bottom of this rectangle down to the bottom
    /// of `bounds`.
    pub open spec fn gap_below(self, bounds: Area) -> int {
        bounds.bottom() - self.bottom()
    }

    /// This rectangle with its bottom pulled down to the bottom of
    /// `bounds`, where the gap between the two is positive and at most
    /// `margin`; unchanged otherwise.
    pub open spec fn snapped(self, bounds: Area, margin: int) -> Area {
        if 0 < self.gap_below(bounds) <= margin {
            Area { h: bounds.bottom() - self.y, ..self }
        } else {
            self
        }
    }

    /// This rectangle with each odd extent made one smaller.
    pub open spec fn evened(self) -> Area {
        Area { w: self.w - self.w % 2, h: self.h - self.h % 2, ..self }
    }

    /// The rectangle that is captured for the selection `self` on a display
    /// with the given bounds: cut down to the bounds, then snapped to the
    /// bottom edge, then made even.
    pub open spec fn resolved(self, bounds: Area, margin: int) -> Area {
        self.clamped(bounds).snapped(bounds, margin).evened()
    }

    /// Whether a capture of this rectangle can start: both extents are
    /// positive and even.
    pub open spec fn is_capturable(self) -> bool {
        &&& self.w > 0
        &&& self.h > 0
        &&& self.w % 2 == 0
        &&& self.h % 2 == 0
    }
}

/// The first of `monitors` that owns `r`, if any does.
pub open spec fn owner_of(monitors: Seq<Monitor>, r: Area) -> Option<Monitor>
    decreases monitors.len(),
{
    if monitors.len() == 0 {
        None
    } else if monitors.first()@.owns(r) {
        Some(monitors.first())
    } else {
        owner_of(monitors.drop_first(), r)
    }
}

/// What resolving the selection `selected` on a display with bounds
/// `bounds` gives: the rectangle to capture where both of its extents are
/// positive, else the extents that rule it out.
pub open spec fn resolution(selected: Area, bounds: Area, margin: int) -> Result<Rect, RegionError> {
    let area = selected.resolved(bounds, margin);
    if area.w <= 0 || area.h <= 0 {
        Err(RegionError { w: area.w as i64, h: area.h as i64 })
    } else {
        Ok(Rect { x: area.x as i32, y: area.y as i32, w: area.w as i32, h: area.h as i32 })
    }
}

/// Cuts one axis of a rectangle down to bounds: a start before the lower
/// bound moves up to it and the length shrinks by as much; a length that
/// reaches past the upper bound is cut off there.
fn clamp_axis(start: i32, len: i32, low: i32, extent: i32) -> (r: (i32, i64))
    ensures
        r.0 == larger(start as int, low as int),
        r.1 == smaller(start + len, low + extent) - r.0,
        r.1 <= len,
{
    let mut pos: i64 = start as i64;
    let mut size: i64 = len as i64;
    let low: i64 = low as i64;
    let end: i64 = low + extent as i64;
    if pos < low {
        size -= low - pos;
        pos = low;
    }
    if pos + size > end {
        size = end - pos;
    }
    (pos as i32, size)
}

/// Cuts `rect` down to `bounds`.
///
/// The extents of the result must fit the pixel type; they can fail to
/// only from below, for a rectangle that lies billions of pixels away from
/// the bounds.
pub fn clamp_to_bounds(rect: Rect, bounds: Monitor) -> (out: Rect)
    requires
        rect@.clamped(bounds@).w >= i32::MIN,
        rect@.clamped(bounds@).h >= i32::MIN,
    ensures
        out@ == rect@.clamped(bounds@),
        rect@.lies_within(bounds@) ==> out == rect,
{
    let (x, w) = clamp_axis(rect.x, rect.w, bounds.x, bounds.w);
    let (y, h) = clamp_axis(rect.y, rect.h, bounds.y, bounds.h);
    Rect { x, y, w: w as i32, h: h as i32 }
}

/// Cuts `rect` down to `bounds`, or gives nothing where an extent of the
/// result does not fit the pixel type.
pub fn checked_clamp_to_bounds(rect: Rect, bounds: Monitor) -> (r: Option<Rect>)
    ensures
        match r {
            Some(out) => out@ == rect@.clamped(bounds@),
            None => rect@.clamped(bounds@).w < i32::MIN || rect@.clamped(bounds@).h < i32::MIN,
        },
{
    let (_, w) = clamp_axis(rect.x, rect.w, bounds.x, bounds.w);
    let (_, h) = clamp_axis(rect.y, rect.h, bounds.y, bounds.h);
    if w < i32::MIN as i64 || h < i32::MIN as i64 {
        None
    } else {
        Some(clamp_to_bounds(rect, bounds))
    }
}

impl Rect {
    /// Tests whether a capture of this rectangle can start: whether both
    /// extents are positive and even.
    pub fn is_capturable(&self) -> (b: bool)
        ensures
            b == self@.is_capturable(),
    {
        self.w > 0 && self.h > 0 && self.w % 2 == 0 && self.h % 2 == 0
    }
}

/// Resolves the selection `selected` on a display with bounds `bounds`
/// into the rectangle to capture, or reports the extents that make a
/// capture impossible.
pub fn resolve(selected: Rect, bounds: Monitor, edge_snap_margin_px: i32) -> (r: Result<
    Rect,
    RegionError,
>)
    ensures
        r == resolution(selected@, bounds@, edge_snap_margin_px as int),
        ({
            let area = selected@.resolved(bounds@, edge_snap_margin_px as int);
            match r {
                Ok(rect) => rect@ == area && area.is_capturable(),
                Err(e) => e.w == area.w && e.h == area.h && (area.w <= 0 || area.h <= 0),
            }
        }),
{
    let (x, mut w) = clamp_axis(selected.x, selected.w, bounds.x, bounds.w);
    let (y, mut h) = clamp_axis(selected.y, selected.h, bounds.y, bounds.h);
    let bottom: i64 = bounds.y as i64 + bounds.h as i64;
    let gap: i64 = bottom - (y as i64 + h);
    if gap > 0 && gap <= edge_snap_margin_px as i64 {
        h = bottom - y as i64;
    }
    if w % 2 != 0 {
        w -= 1;
    }
    if h % 2 != 0 {
        h -= 1;
    }
    if w <= 0 || h <= 0 {
        Err(RegionError { w, h })
    } else {
        Ok(Rect { x, y, w: w as i32, h: h as i32 })
    }
}

impl Monitor {
    /// Tests whether this display owns `rect`: whether the centre point of
    /// `rect` lies on it, the left and top edges counted in and the right
    /// and bottom edges counted out.
    pub fn owns(&self, rect: Rect) -> (b: bool)
        ensures
            b == self@.owns(rect@),
    {
        let cx: i64 = rect.x as i64 + (rect.w / 2) as i64;
        let cy: i64 = rect.y as i64 + (rect.h / 2) as i64;
        cx >= self.x as i64 && cx < self.x as i64 + self.w as i64 && cy >= self.y as i64 && cy
            < self.y as i64 + self.h as i64
    }
}

/// Picks the display that owns the selection `rect`: the first of
/// `monitors` that holds its centre point, if any does.
pub fn monitor_for_selection(rect: Rect, monitors: &Vec<Monitor>) -> (r: Option<Monitor>)
    ensures
        r == owner_of(monitors@, rect@),
        match r {
            Some(m) => exists|i: int|
                0 <= i < monitors@.len() && monitors@[i] == m && m@.owns(rect@) && forall|j: int|
                    0 <= j < i ==> !(#[trigger] monitors@[j])@.owns(rect@),
            None => forall|j: int|
                0 <= j < monitors@.len() ==> !(#[trigger] monitors@[j])@.owns(rect@),
        },
{
    let mut i: usize = 0;
    assert(monitors@.skip(0) == monitors@);
    while i < monitors.len()
        invariant
            i <= monitors@.len(),
            forall|j: int| 0 <= j < i ==> !(#[trigger] monitors@[j])@.owns(rect@),
            owner_of(monitors@, rect@) == owner_of(monitors@.skip(i as int), rect@),
        decreases monitors@.len() - i,
    {
        proof {
            assert(monitors@.skip(i as int).first() == monitors@[i as int]);
            assert(monitors@.skip(i as int).drop_first() == monitors@.skip(i + 1));
        }
        if monitors[i].owns(rect) {
            return Some(monitors[i]);
        }
        i += 1;
    }
    None
}

/// Ownership is half-open on both axes: a centre point on the left or on
/// the top edge of the bounds is held, one on the right or on the bottom
/// edge is not.
pub proof fn lemma_ownership_is_half_open(bounds: Area, r: Area)
    ensures
        r.center_x() == bounds.x && bounds.y <= r.center_y() < bounds.bottom() && bounds.w > 0
            ==> bounds.owns(r),
        r.center_y() == bounds.y && bounds.x <= r.center_x() < bounds.right() && bounds.h > 0
            ==> bounds.owns(r),
        r.center_x() == bounds.right() ==> !bounds.owns(r),
        r.center_y() == bounds.bottom() ==> !bounds.owns(r),
{
}

/// Two displays that lie side by side, or one above the other, never both
/// own a rectangle: the edge they share belongs to one of them only.
pub proof fn lemma_neighbours_share_nothing(a: Area, b: Area, r: Area)
    requires
        a.right() <= b.x || a.bottom() <= b.y,
    ensures
        !(a.owns(r) && b.owns(r)),
{
}

/// Cutting a rectangle that lies wholly inside the bounds leaves it as it
/// is.
pub proof fn lemma_clamp_keeps_inner(r: Area, bounds: Area)
    requires
        r.lies_within(bounds),
    ensures
        r.clamped(bounds) == r,
{
}

/// Cutting never makes a rectangle larger, never moves its origin up or
/// left, and never moves its far edges outwards.
pub proof fn lemma_clamp_only_shrinks(r: Area, bounds: Area)
    ensures
        r.clamped(bounds).w <= r.w,
        r.clamped(bounds).h <= r.h,
        r.clamped(bounds).x >= r.x,
        r.clamped(bounds).y >= r.y,
        r.clamped(bounds).right() <= r.right(),
        r.clamped(bounds).bottom() <= r.bottom(),
{
}

/// A cut rectangle whose extents are not negative lies inside the bounds,
/// and cutting it again changes nothing.
pub proof fn lemma_clamp_lands_inside(r: Area, bounds: Area)
    requires
        r.clamped(bounds).w >= 0,
        r.clamped(bounds).h >= 0,
    ensures
        r.clamped(bounds).lies_within(bounds),
        r.clamped(bounds).clamped(bounds) == r.clamped(bounds),
{
}

/// A gap below the rectangle that is positive and no wider than the
/// margin is closed exactly: the bottom meets the bottom of the bounds,
/// and nothing else moves.
pub proof fn lemma_snap_closes_narrow_gap(r: Area, bounds: Area, margin: int)
    requires
        0 < r.gap_below(bounds) <= margin,
    ensures
        r.snapped(bounds, margin).bottom() == bounds.bottom(),
        r.snapped(bounds, margin).gap_below(bounds) == 0,
        r.snapped(bounds, margin).h == r.h + r.gap_below(bounds),
        r.snapped(bounds, margin).x == r.x,
        r.snapped(bounds, margin).y == r.y,
        r.snapped(bounds, margin).w == r.w,
{
}

/// A rectangle with no gap below it, or with one wider than the margin,
/// is left as it is.
pub proof fn lemma_snap_leaves_wide_gap(r: Area, bounds: Area, margin: int)
    requires
        r.gap_below(bounds) <= 0 || r.gap_below(bounds) > margin,
    ensures
        r.snapped(bounds, margin) == r,
{
}

/// Making a rectangle even leaves even extents alone, makes odd ones one
/// smaller, and moves nothing.
pub proof fn lemma_even_rounds_down(r: Area)
    ensures
        r.evened().w % 2 == 0,
        r.evened().h % 2 == 0,
        r.w % 2 == 0 ==> r.evened().w == r.w,
        r.w % 2 != 0 ==> r.evened().w == r.w - 1,
        r.h % 2 == 0 ==> r.evened().h == r.h,
        r.h % 2 != 0 ==> r.evened().h == r.h - 1,
        r.evened().x == r.x,
        r.evened().y == r.y,
{
}

/// A selection that is empty once cut to the bounds yields no rectangle
/// to capture: a width of zero always, a height of zero unless the snap
/// to the bottom edge widens it.
pub proof fn lemma_empty_cut_is_rejected(selected: Area, bounds: Area, margin: int)
    requires
        selected.clamped(bounds).w == 0 || (selected.clamped(bounds).h == 0 && !(0
            < selected.clamped(bounds).gap_below(bounds) <= margin)),
    ensures
        !selected.resolved(bounds, margin).is_capturable(),
        selected.resolved(bounds, margin).w <= 0 || selected.resolved(bounds, margin).h <= 0,
        resolution(selected, bounds, margin) is Err,
{
}

/// Resolving gives a rectangle exactly where both resolved extents are
/// positive, and that rectangle can be captured: its extents are even too.
pub proof fn lemma_resolution_is_capturable_or_error(selected: Area, bounds: Area, margin: int)
    ensures
        ({
            let area = selected.resolved(bounds, margin);
            &&& area.is_capturable() <==> area.w > 0 && area.h > 0
            &&& resolution(selected, bounds, margin) is Ok <==> area.is_capturable()
        }),
{
}

} // verus!
