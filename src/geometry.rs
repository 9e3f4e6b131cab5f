use vstd::prelude::*;
use crate::error::OverlayError;

verus! {

/// An axis-aligned rectangle in window-client pixel space. Degenerate or
/// inverted rectangles are allowed and drawn as they are.
#[derive(Clone, Copy, Debug, PartialEq, Eq, Structural)]
pub struct Rect {
    pub left: i32,
    pub top: i32,
    pub right: i32,
    pub bottom: i32,
}

/// Rust's `/ 2` on integers: the half, rounded toward zero.
pub open spec fn half_toward_zero(w: int) -> int {
    if w >= 0 {
        w / 2
    } else {
        -((-w) / 2)
    }
}

/// The horizontal midpoint of a rectangle's bottom edge.
pub open spec fn spec_bottom_mid_x(r: Rect) -> int {
    r.left + half_toward_zero(r.right - r.left)
}

/// A size fits a window when it is positive and representable as `i32`.
pub open spec fn size_ok(lo: i32, hi: i32) -> bool {
    lo < hi && hi - lo <= i32::MAX
}

/// Whether four screen coordinates describe a window that can be created.
pub open spec fn geometry_ok(left: i32, top: i32, right: i32, bottom: i32) -> bool {
    size_ok(left, right) && size_ok(top, bottom)
}

impl Rect {
    pub fn new(left: i32, top: i32, right: i32, bottom: i32) -> (r: Rect)
        ensures
            r == (Rect { left, top, right, bottom }),
    {
        Rect { left, top, right, bottom }
    }

    /// The same rectangle moved by `(dx, dy)`.
    pub fn offset(&self, dx: i32, dy: i32) -> (r: Rect)
        requires
            i32::MIN <= self.left + dx <= i32::MAX,
            i32::MIN <= self.right + dx <= i32::MAX,
            i32::MIN <= self.top + dy <= i32::MAX,
            i32::MIN <= self.bottom + dy <= i32::MAX,
        ensures
            r.left == self.left + dx,
            r.right == self.right + dx,
            r.top == self.top + dy,
            r.bottom == self.bottom + dy,
    {
        Rect {
            left: self.left + dx,
            top: self.top + dy,
            right: self.right + dx,
            bottom: self.bottom + dy,
        }
    }

    /// The horizontal midpoint of the bottom edge, rounded toward `left`.
    pub fn bottom_mid_x(&self) -> (x: i32)
        ensures
            x == spec_bottom_mid_x(*self),
    {
        let w: i64 = self.right as i64 - self.left as i64;
        let h: i64 = if w >= 0 {
            w / 2
        } else {
            -((-w) / 2)
        };
        assert(self.left <= self.left + h <= self.right || self.right <= self.left + h <= self.left);
        (self.left as i64 + h) as i32
    }
}

/// The overlay's placement in screen coordinates, fixed at construction,
/// with the client size derived once.
#[derive(Clone, Copy, Debug, PartialEq, Eq, Structural)]
pub struct WindowGeometry {
    left: i32,
    top: i32,
    right: i32,
    bottom: i32,
    width: i32,
    height: i32,
}

impl WindowGeometry {
    pub closed spec fn spec_left(&self) -> i32 {
        self.left
    }

    pub closed spec fn spec_top(&self) -> i32 {
        self.top
    }

    pub closed spec fn spec_right(&self) -> i32 {
        self.right
    }

    pub closed spec fn spec_bottom(&self) -> i32 {
        self.bottom
    }

    pub closed spec fn spec_width(&self) -> i32 {
        self.width
    }

    pub closed spec fn spec_height(&self) -> i32 {
        self.height
    }

    /// The geometry is a window of positive size whose size is the
    /// difference of its edges.
    pub closed spec fn wf(&self) -> bool {
        &&& geometry_ok(self.left, self.top, self.right, self.bottom)
        &&& self.width == self.right - self.left
        &&& self.height == self.bottom - self.top
    }

    /// Builds the geometry of a window with the given screen edges. Fails
    /// exactly when the window would not have a positive size that fits `i32`.
    pub fn new(left: i32, top: i32, right: i32, bottom: i32) -> (r: Result<WindowGeometry, OverlayError>)
        ensures
            geometry_ok(left, top, right, bottom) <==> r is Ok,
            !geometry_ok(left, top, right, bottom) ==> r == Err::<WindowGeometry, OverlayError>(OverlayError::InvalidGeometry),
            r matches Ok(g) ==> {
                &&& g.wf()
                &&& g.spec_left() == left
                &&& g.spec_top() == top
                &&& g.spec_right() == right
                &&& g.spec_bottom() == bottom
                &&& g.spec_width() == right - left
                &&& g.spec_height() == bottom - top
            },
    {
        if left >= right || top >= bottom {
            return Err(OverlayError::InvalidGeometry);
        }
        let w: i64 = right as i64 - left as i64;
        let h: i64 = bottom as i64 - top as i64;
        if w > i32::MAX as i64 || h > i32::MAX as i64 {
            return Err(OverlayError::InvalidGeometry);
        }
        Ok(WindowGeometry { left, top, right, bottom, width: w as i32, height: h as i32 })
    }

    pub fn left(&self) -> (r: i32)
        ensures
            r == self.spec_left(),
    {
        self.left
    }

    pub fn top(&self) -> (r: i32)
        ensures
            r == self.spec_top(),
    {
        self.top
    }

    pub fn right(&self) -> (r: i32)
        ensures
            r == self.spec_right(),
    {
        self.right
    }

    pub fn bottom(&self) -> (r: i32)
        ensures
            r == self.spec_bottom(),
    {
        self.bottom
    }

    /// The client width, `right - left`.
    pub fn width(&self) -> (r: i32)
        ensures
            r == self.spec_width(),
            self.wf() ==> r == self.spec_right() - self.spec_left() && r > 0,
    {
        self.width
    }

    /// The client height, `bottom - top`.
    pub fn height(&self) -> (r: i32)
        ensures
            r == self.spec_height(),
            self.wf() ==> r == self.spec_bottom() - self.spec_top() && r > 0,
    {
        self.height
    }
}

} // verus!
