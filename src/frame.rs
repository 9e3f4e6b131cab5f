use vstd::prelude::*;
use crate::geometry::{Rect, WindowGeometry, spec_bottom_mid_x};

verus! {

/// A straight segment in window-client pixel space.
#[derive(Clone, Copy, Debug, PartialEq, Eq, Structural)]
pub struct Line {
    pub from_x: i32,
    pub from_y: i32,
    pub to_x: i32,
    pub to_y: i32,
}

/// What is stroked for one rectangle of a frame: its outline, and the
/// pointer line from the anchor when bottom lines are enabled.
#[derive(Clone, Copy, Debug, PartialEq, Eq, Structural)]
pub struct Outline {
    pub rect: Rect,
    pub pointer: Option<Line>,
}

/// The stroke width of the swapchain-backed renderer; pen-drawn overlays
/// start out thinner (see `Overlay::new`).
pub const DEFAULT_STROKE_WIDTH: u32 = 2;

/// The per-frame drawing configuration: the client size that fixes the
/// anchor point, the stroke width, and whether pointer lines are drawn.
#[derive(Clone, Copy, Debug, PartialEq, Eq, Structural)]
pub struct FrameRenderer {
    pub client_width: i32,
    pub client_height: i32,
    pub stroke_width: u32,
    pub draw_bottom_line: bool,
}

/// The line from the anchor `(anchor_x, anchor_y)` to the midpoint of the
/// rectangle's bottom edge.
pub open spec fn pointer_line(anchor_x: int, anchor_y: int, r: Rect) -> Line {
    Line {
        from_x: anchor_x as i32,
        from_y: anchor_y as i32,
        to_x: spec_bottom_mid_x(r) as i32,
        to_y: r.bottom,
    }
}

impl FrameRenderer {
    /// The fixed anchor of the pointer lines: the midpoint of the client
    /// area's bottom edge.
    pub open spec fn anchor_x(&self) -> int {
        self.client_width / 2
    }

    pub open spec fn anchor_y(&self) -> int {
        self.client_height as int
    }

    /// What one rectangle of the snapshot becomes in a frame.
    pub open spec fn outline_of(&self, r: Rect) -> Outline {
        Outline {
            rect: r,
            pointer: if self.draw_bottom_line {
                Some(pointer_line(self.anchor_x(), self.anchor_y(), r))
            } else {
                None
            },
        }
    }

    /// The whole frame for a snapshot: one outline per rectangle, in order.
    pub open spec fn spec_plan(&self, snapshot: Seq<Rect>) -> Seq<Outline> {
        snapshot.map_values(|r: Rect| self.outline_of(r))
    }

    /// A renderer for the client area of `geometry`.
    pub fn new(geometry: &WindowGeometry, stroke_width: u32, draw_bottom_line: bool) -> (r: FrameRenderer)
        requires
            geometry.wf(),
        ensures
            r.client_width == geometry.spec_width(),
            r.client_height == geometry.spec_height(),
            r.client_width > 0,
            r.client_height > 0,
            r.stroke_width == stroke_width,
            r.draw_bottom_line == draw_bottom_line,
    {
        FrameRenderer {
            client_width: geometry.width(),
            client_height: geometry.height(),
            stroke_width,
            draw_bottom_line,
        }
    }

    /// The anchor point shared by all pointer lines.
    pub fn anchor(&self) -> (p: (i32, i32))
        requires
            self.client_width >= 0,
        ensures
            p.0 == self.anchor_x(),
            p.1 == self.anchor_y(),
    {
        (self.client_width / 2, self.client_height)
    }

    /// What is stroked for one rectangle.
    pub fn outline(&self, r: &Rect) -> (o: Outline)
        requires
            self.client_width >= 0,
        ensures
            o == self.outline_of(*r),
    {
        let pointer = if self.draw_bottom_line {
            let (ax, ay) = self.anchor();
            Some(Line { from_x: ax, from_y: ay, to_x: r.bottom_mid_x(), to_y: r.bottom })
        } else {
            None
        };
        Outline { rect: *r, pointer }
    }

    /// Plans one frame from a snapshot of the shared buffer: every rectangle
    /// of the snapshot is outlined once, in order, and nothing else is drawn.
    pub fn plan(&self, snapshot: &Vec<Rect>) -> (out: Vec<Outline>)
        requires
            self.client_width >= 0,
        ensures
            out@ == self.spec_plan(snapshot@),
            out@.len() == snapshot@.len(),
            forall|i: int| 0 <= i < snapshot@.len() ==> #[trigger] out@[i].rect == snapshot@[i],
    {
        let mut out: Vec<Outline> = Vec::new();
        let mut i: usize = 0;
        while i < snapshot.len()
            invariant
                self.client_width >= 0,
                i <= snapshot@.len(),
                out@ == self.spec_plan(snapshot@.subrange(0, i as int)),
            decreases snapshot@.len() - i,
        {
            let o = self.outline(&snapshot[i]);
            out.push(o);
            i = i + 1;
            assert(snapshot@.subrange(0, i as int) == snapshot@.subrange(0, i - 1).push(snapshot@[i - 1]));
            assert(out@ =~= self.spec_plan(snapshot@.subrange(0, i as int)));
        }
        assert(snapshot@.subrange(0, snapshot@.len() as int) == snapshot@);
        out
    }
}

/// Every rectangle of a snapshot is drawn, none is added or dropped, and a
/// pointer line is drawn for each exactly when bottom lines are enabled.
pub proof fn plan_draws_each_rect_once(renderer: FrameRenderer, snapshot: Seq<Rect>)
    ensures
        renderer.spec_plan(snapshot).len() == snapshot.len(),
        forall|i: int| 0 <= i < snapshot.len() ==> {
            &&& (#[trigger] renderer.spec_plan(snapshot)[i]).rect == snapshot[i]
            &&& (renderer.spec_plan(snapshot)[i].pointer is Some <==> renderer.draw_bottom_line)
        },
{
}

} // verus!
