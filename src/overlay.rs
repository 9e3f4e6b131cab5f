use vstd::prelude::*;
use crate::buffer::SharedRects;
use crate::error::OverlayError;
use crate::frame::{FrameRenderer, Outline};
use crate::geometry::{WindowGeometry, geometry_ok};
use crate::pacing::{NANOS_PER_SECOND, frame_interval_nanos};

verus! {

/// The pen width an overlay starts out with; `with_pen_width` changes it.
pub const DEFAULT_PEN_WIDTH: u32 = 1;

/// An overlay's configuration: where its window stands, the shared list it
/// outlines, the stroke width, the target frame rate and whether pointer
/// lines from the bottom of the window are drawn.
#[derive(Clone, Debug)]
pub struct Overlay {
    window_rect: WindowGeometry,
    draw_rect_list: SharedRects,
    pen_width: u32,
    frame_rate: u64,
    draw_bottom_line_flag: bool,
}

impl Overlay {
    pub closed spec fn spec_geometry(&self) -> WindowGeometry {
        self.window_rect
    }

    pub closed spec fn spec_rect_list(&self) -> SharedRects {
        self.draw_rect_list
    }

    pub closed spec fn spec_pen_width(&self) -> u32 {
        self.pen_width
    }

    pub closed spec fn spec_frame_rate(&self) -> u64 {
        self.frame_rate
    }

    pub closed spec fn spec_draw_bottom_line(&self) -> bool {
        self.draw_bottom_line_flag
    }

    /// The geometry describes a real window and the frame rate is positive.
    pub closed spec fn wf(&self) -> bool {
        self.window_rect.wf() && self.frame_rate > 0
    }

    /// The renderer this configuration draws frames with.
    pub open spec fn spec_renderer(&self) -> FrameRenderer {
        FrameRenderer {
            client_width: self.spec_geometry().spec_width(),
            client_height: self.spec_geometry().spec_height(),
            stroke_width: self.spec_pen_width(),
            draw_bottom_line: self.spec_draw_bottom_line(),
        }
    }

    /// Configures an overlay over the screen rectangle `left, top, right,
    /// bottom`, outlining what `draw_rect_list` holds at `frame_rate` frames
    /// per second. Fails on a geometry that is not a window of positive size
    /// fitting `i32`, then on a frame rate of zero.
    pub fn new(
        left: i32,
        top: i32,
        right: i32,
        bottom: i32,
        draw_rect_list: SharedRects,
        frame_rate: u64,
        draw_bottom_line_flag: bool,
    ) -> (r: Result<Overlay, OverlayError>)
        ensures
            r is Ok <==> geometry_ok(left, top, right, bottom) && frame_rate > 0,
            !geometry_ok(left, top, right, bottom) ==> r == Err::<Overlay, OverlayError>(OverlayError::InvalidGeometry),
            geometry_ok(left, top, right, bottom) && frame_rate == 0 ==> r == Err::<Overlay, OverlayError>(OverlayError::ZeroFrameRate),
            r matches Ok(o) ==> {
                &&& o.wf()
                &&& o.spec_geometry().spec_left() == left
                &&& o.spec_geometry().spec_top() == top
                &&& o.spec_geometry().spec_right() == right
                &&& o.spec_geometry().spec_bottom() == bottom
                &&& o.spec_geometry().spec_width() == right - left
                &&& o.spec_geometry().spec_height() == bottom - top
                &&& o.spec_rect_list() == draw_rect_list
                &&& o.spec_pen_width() == DEFAULT_PEN_WIDTH
                &&& o.spec_frame_rate() == frame_rate
                &&& o.spec_draw_bottom_line() == draw_bottom_line_flag
            },
    {
        let window_rect = match WindowGeometry::new(left, top, right, bottom) {
            Ok(g) => g,
            Err(e) => return Err(e),
        };
        if frame_rate == 0 {
            return Err(OverlayError::ZeroFrameRate);
        }
        Ok(Overlay {
            window_rect,
            draw_rect_list,
            pen_width: DEFAULT_PEN_WIDTH,
            frame_rate,
            draw_bottom_line_flag,
        })
    }

    /// The same overlay drawing with strokes `pen_width` wide.
    pub fn with_pen_width(self, pen_width: u32) -> (r: Overlay)
        ensures
            r.spec_pen_width() == pen_width,
            r.spec_geometry() == self.spec_geometry(),
            r.spec_rect_list() == self.spec_rect_list(),
            r.spec_frame_rate() == self.spec_frame_rate(),
            r.spec_draw_bottom_line() == self.spec_draw_bottom_line(),
            r.wf() == self.wf(),
    {
        Overlay { pen_width, ..self }
    }

    pub fn window_rect(&self) -> (g: WindowGeometry)
        ensures
            g == self.spec_geometry(),
    {
        self.window_rect
    }

    /// The shared list this overlay outlines.
    pub fn draw_rect_list(&self) -> (r: &SharedRects)
        ensures
            *r == self.spec_rect_list(),
    {
        &self.draw_rect_list
    }

    pub fn pen_width(&self) -> (w: u32)
        ensures
            w == self.spec_pen_width(),
    {
        self.pen_width
    }

    pub fn frame_rate(&self) -> (f: u64)
        ensures
            f == self.spec_frame_rate(),
    {
        self.frame_rate
    }

    pub fn draw_bottom_line_flag(&self) -> (b: bool)
        ensures
            b == self.spec_draw_bottom_line(),
    {
        self.draw_bottom_line_flag
    }

    /// The renderer for this overlay's client area, stroke and pointer option.
    pub fn renderer(&self) -> (r: FrameRenderer)
        requires
            self.wf(),
        ensures
            r == self.spec_renderer(),
            r.client_width > 0,
            r.client_height > 0,
    {
        FrameRenderer::new(&self.window_rect, self.pen_width, self.draw_bottom_line_flag)
    }

    /// The frame budget in nanoseconds for this overlay's frame rate.
    pub fn frame_interval_nanos(&self) -> (n: u64)
        requires
            self.wf(),
        ensures
            n == NANOS_PER_SECOND / self.spec_frame_rate(),
    {
        frame_interval_nanos(self.frame_rate)
    }

    /// Plans the next frame: takes a snapshot of the shared list and outlines
    /// each of its rectangles once, in order. The snapshot is whatever the
    /// producer last wrote in full; the plan matches it exactly.
    pub fn plan_frame(&self) -> (r: Result<Vec<Outline>, OverlayError>)
        requires
            self.wf(),
        ensures
            r is Err ==> r == Err::<Vec<Outline>, OverlayError>(OverlayError::LockPoisoned),
            r matches Ok(plan) ==> plan@ == self.spec_renderer().spec_plan(
                plan@.map_values(|o: Outline| o.rect),
            ),
    {
        let snapshot = match self.draw_rect_list.snapshot() {
            Ok(s) => s,
            Err(e) => return Err(e),
        };
        let renderer = self.renderer();
        let plan = renderer.plan(&snapshot);
        assert(plan@.map_values(|o: Outline| o.rect) =~= snapshot@);
        Ok(plan)
    }
}

} // verus!
