use windows_ez_overlay::buffer::SharedRects;
use windows_ez_overlay::error::OverlayError;
use windows_ez_overlay::frame::{FrameRenderer, Line, Outline, DEFAULT_STROKE_WIDTH};
use windows_ez_overlay::geometry::{Rect, WindowGeometry};
use windows_ez_overlay::overlay::{Overlay, DEFAULT_PEN_WIDTH};
use windows_ez_overlay::pacing::{frame_interval_nanos, sleep_nanos, NANOS_PER_SECOND};
use windows_ez_overlay::state::{
    classify_present, fallback_driver, DriverKind, Message, MessageAction, OverlayState, Phase,
    PollMode, PresentOutcome, RenderStep, ERROR_UNSUPPORTED, STATUS_OCCLUDED, WM_ACTIVATE,
    WM_DESTROY, WM_DISPLAYCHANGE, WM_PAINT, WM_QUIT, WM_USER,
};

fn two_rects() -> Vec<Rect> {
    vec![Rect::new(0, 0, 100, 100), Rect::new(123, 456, 789, 666)]
}

fn full_hd(flag: bool) -> Overlay {
    Overlay::new(0, 0, 1920, 1080, SharedRects::new(two_rects()), 60, flag).unwrap()
}

#[test]
fn geometry_client_size_is_edge_difference() {
    let g = WindowGeometry::new(0, 0, 1920, 1080).unwrap();
    assert_eq!((g.width(), g.height()), (1920, 1080));
    let g = WindowGeometry::new(100, 50, 300, 450).unwrap();
    assert_eq!((g.width(), g.height()), (200, 400));
    assert_eq!((g.left(), g.top(), g.right(), g.bottom()), (100, 50, 300, 450));
    let g = WindowGeometry::new(-500, -20, 500, 20).unwrap();
    assert_eq!((g.width(), g.height()), (1000, 40));
}

#[test]
fn geometry_largest_size() {
    let g = WindowGeometry::new(0, 0, i32::MAX, i32::MAX).unwrap();
    assert_eq!((g.width(), g.height()), (i32::MAX, i32::MAX));
    assert_eq!(
        WindowGeometry::new(-1, 0, i32::MAX, 10),
        Err(OverlayError::InvalidGeometry)
    );
}

#[test]
fn geometry_rejects_empty_or_inverted() {
    assert_eq!(WindowGeometry::new(10, 0, 10, 5), Err(OverlayError::InvalidGeometry));
    assert_eq!(WindowGeometry::new(0, 5, 10, 5), Err(OverlayError::InvalidGeometry));
    assert_eq!(WindowGeometry::new(20, 0, 10, 5), Err(OverlayError::InvalidGeometry));
}

#[test]
fn overlay_new_reports_each_error() {
    let rects = SharedRects::new(Vec::new());
    assert_eq!(
        Overlay::new(0, 0, 0, 10, rects.clone(), 60, false).unwrap_err(),
        OverlayError::InvalidGeometry
    );
    assert_eq!(
        Overlay::new(0, 0, 10, 10, rects.clone(), 0, false).unwrap_err(),
        OverlayError::ZeroFrameRate
    );
    let o = Overlay::new(0, 0, 1920, 1080, rects, 60, true).unwrap();
    assert_eq!(o.pen_width(), 1);
    assert_eq!(o.pen_width(), DEFAULT_PEN_WIDTH);
    assert_eq!(o.clone().with_pen_width(DEFAULT_STROKE_WIDTH).pen_width(), 2);
    assert_eq!(o.frame_rate(), 60);
    assert!(o.draw_bottom_line_flag());
    assert_eq!(o.window_rect().width(), 1920);
    assert_eq!(o.clone().with_pen_width(5).pen_width(), 5);
}

#[test]
fn bottom_mid_rounds_toward_left() {
    assert_eq!(Rect::new(0, 0, 100, 100).bottom_mid_x(), 50);
    assert_eq!(Rect::new(123, 456, 789, 666).bottom_mid_x(), 456);
    assert_eq!(Rect::new(0, 0, 3, 0).bottom_mid_x(), 1);
    assert_eq!(Rect::new(10, 0, 5, 0).bottom_mid_x(), 8);
    assert_eq!(Rect::new(7, 7, 7, 7).bottom_mid_x(), 7);
    assert_eq!(Rect::new(i32::MIN, 0, i32::MAX, 0).bottom_mid_x(), -1);
}

#[test]
fn rect_offset_moves_all_edges() {
    assert_eq!(Rect::new(0, 0, 100, 100).offset(1, 1), Rect::new(1, 1, 101, 101));
    assert_eq!(Rect::new(5, 6, 7, 8).offset(-5, 2), Rect::new(0, 8, 2, 10));
}

#[test]
fn renderer_anchor_is_bottom_middle() {
    let g = WindowGeometry::new(0, 0, 1920, 1080).unwrap();
    let r = FrameRenderer::new(&g, 2, true);
    assert_eq!(r.anchor(), (960, 1080));
    let g = WindowGeometry::new(100, 100, 301, 200).unwrap();
    assert_eq!(FrameRenderer::new(&g, 2, true).anchor(), (100, 100));
}

#[test]
fn plan_of_empty_snapshot_is_empty() {
    let o = full_hd(true);
    assert!(o.renderer().plan(&Vec::new()).is_empty());
}

#[test]
fn plan_outlines_every_rect_once() {
    let snapshot = vec![
        Rect::new(1, 2, 3, 4),
        Rect::new(10, 10, 0, 0),
        Rect::new(5, 5, 5, 5),
    ];
    let plan = full_hd(false).renderer().plan(&snapshot);
    assert_eq!(plan.len(), 3);
    for (o, r) in plan.iter().zip(snapshot.iter()) {
        assert_eq!(o.rect, *r);
        assert_eq!(o.pointer, None);
    }
}

#[test]
fn plan_pointer_lines_when_enabled() {
    let plan = full_hd(true).renderer().plan(&two_rects());
    assert_eq!(
        plan,
        vec![
            Outline {
                rect: Rect::new(0, 0, 100, 100),
                pointer: Some(Line { from_x: 960, from_y: 1080, to_x: 50, to_y: 100 }),
            },
            Outline {
                rect: Rect::new(123, 456, 789, 666),
                pointer: Some(Line { from_x: 960, from_y: 1080, to_x: 456, to_y: 666 }),
            },
        ]
    );
}

#[test]
fn render_twice_with_unchanged_buffer_is_identical() {
    let o = full_hd(true);
    let first = o.plan_frame().unwrap();
    let second = o.plan_frame().unwrap();
    assert_eq!(first, second);
    let mut s: OverlayState<u32> = OverlayState::new();
    s.start();
    s.install_resources(7);
    s.on_present(PresentOutcome::Presented);
    assert_eq!(s.render_step(), RenderStep::Draw);
    assert_eq!(s.resources(), Some(&7));
}

#[test]
fn shared_buffer_snapshot_sees_replacement() {
    let shared = SharedRects::new(two_rects());
    assert_eq!(shared.snapshot().unwrap(), two_rects());
    let producer = shared.clone();
    producer.replace(vec![Rect::new(9, 9, 19, 19)]).unwrap();
    assert_eq!(shared.snapshot().unwrap(), vec![Rect::new(9, 9, 19, 19)]);
    producer.replace(Vec::new()).unwrap();
    assert!(shared.snapshot().unwrap().is_empty());
}

#[test]
fn frame_interval_for_sixty_hertz() {
    assert_eq!(frame_interval_nanos(60), 16_666_666);
    assert_eq!(frame_interval_nanos(1), NANOS_PER_SECOND);
    assert_eq!(frame_interval_nanos(3_000_000_000), 0);
    assert_eq!(full_hd(false).frame_interval_nanos(), 16_666_666);
}

#[test]
fn sleep_is_rest_of_budget_and_never_negative() {
    assert_eq!(sleep_nanos(100, 30), 70);
    assert_eq!(sleep_nanos(100, 100), 0);
    assert_eq!(sleep_nanos(100, 150), 0);
    assert_eq!(sleep_nanos(0, 0), 0);
}

#[test]
fn pacing_500_frames_at_60_hz() {
    let interval = frame_interval_nanos(60);
    let mut total: u64 = 0;
    for i in 0..500u64 {
        let cost = i % 7;
        total += cost + sleep_nanos(interval, cost);
    }
    let ideal = 500.0 / 60.0;
    let measured = total as f64 / NANOS_PER_SECOND as f64;
    assert!((measured - ideal).abs() / ideal < 0.01);
    let over = 2 * interval;
    assert_eq!(over + sleep_nanos(interval, over), over);
}

#[test]
fn device_loss_recreates_resources() {
    let mut s: OverlayState<u32> = OverlayState::new();
    assert_eq!(s.render_step(), RenderStep::CreateThenDraw);
    s.start();
    assert_eq!(s.on_message(Message::Activate), MessageAction::Handled);
    s.install_resources(1);
    assert_eq!(s.render_step(), RenderStep::Draw);
    s.on_present(PresentOutcome::Failed);
    assert_eq!(s.render_step(), RenderStep::CreateThenDraw);
    assert_eq!(s.resources(), None);
    assert!(s.is_visible());
    assert_eq!(s.poll_mode(), PollMode::RenderThenDrain);
    s.install_resources(2);
    assert_eq!(s.render_step(), RenderStep::Draw);
    assert_eq!(s.resources(), Some(&2));
    s.release_device();
    assert_eq!(s.resources(), None);
}

#[test]
fn occlusion_hides_until_activation() {
    let mut s: OverlayState<u32> = OverlayState::new();
    assert_eq!(s.phase(), Phase::Created);
    s.start();
    assert_eq!(s.phase(), Phase::Rendering);
    assert_eq!(s.poll_mode(), PollMode::Wait);
    s.on_message(Message::Activate);
    s.install_resources(3);
    assert_eq!(s.poll_mode(), PollMode::RenderThenDrain);
    s.on_present(PresentOutcome::Occluded);
    assert!(!s.is_visible());
    assert_eq!(s.resources(), Some(&3));
    assert_eq!(s.poll_mode(), PollMode::Wait);
    assert_eq!(s.on_message(Message::Paint), MessageAction::PaintFrame);
    assert_eq!(s.on_message(Message::DisplayChange), MessageAction::RenderFrame);
    assert_eq!(s.on_message(Message::Other), MessageAction::Default);
    assert_eq!(s.on_message(Message::PresentTest), MessageAction::ProbePresent);
    assert_eq!(s.poll_mode(), PollMode::Wait);
    s.on_message(Message::Activate);
    assert_eq!(s.poll_mode(), PollMode::RenderThenDrain);
}

#[test]
fn probe_sets_visibility() {
    let mut s: OverlayState<u32> = OverlayState::new();
    s.start();
    s.install_resources(4);
    s.on_probe(0);
    assert_eq!(s.poll_mode(), PollMode::RenderThenDrain);
    s.on_probe(-1);
    assert_eq!(s.poll_mode(), PollMode::Wait);
    s.on_probe(0);
    s.on_probe(STATUS_OCCLUDED);
    assert!(!s.is_visible());
    assert_eq!(s.resources(), Some(&4));
}

#[test]
fn draw_failure_releases_resources() {
    let mut s: OverlayState<u32> = OverlayState::new();
    s.start();
    s.install_resources(5);
    s.on_draw_end(0);
    assert_eq!(s.render_step(), RenderStep::Draw);
    s.on_draw_end(0x8899000Cu32 as i32);
    assert_eq!(s.render_step(), RenderStep::CreateThenDraw);
    assert_eq!(s.resources(), None);
}

#[test]
fn error_names() {
    assert_eq!(OverlayError::RegisterClassA.name(), "RegisterClassA");
    assert_eq!(OverlayError::LockPoisoned.name(), "LockPoisoned");
    assert_eq!(OverlayError::InvalidGeometry.name(), "InvalidGeometry");
    assert_eq!(OverlayError::GetMessageA.name(), "GetMessageA");
    assert_eq!(OverlayError::SetLayeredWindowAttributes.name(), format!("{:?}", OverlayError::SetLayeredWindowAttributes));
}

#[test]
fn destroy_then_quit_ends_the_loop() {
    let mut s: OverlayState<u32> = OverlayState::new();
    s.start();
    assert_eq!(s.on_message(Message::Destroy), MessageAction::PostQuit);
    assert_eq!(s.poll_mode(), PollMode::Wait);
    assert_eq!(s.on_message(Message::Quit), MessageAction::Exit);
    assert_eq!(s.phase(), Phase::Destroyed);
    assert_eq!(s.poll_mode(), PollMode::Stop);
    assert_eq!(s.on_message(Message::Activate), MessageAction::Default);
    assert_eq!(s.poll_mode(), PollMode::Stop);
}

#[test]
fn message_codes() {
    assert_eq!(Message::from_code(WM_PAINT), Message::Paint);
    assert_eq!(Message::from_code(WM_DISPLAYCHANGE), Message::DisplayChange);
    assert_eq!(Message::from_code(WM_USER), Message::PresentTest);
    assert_eq!(Message::from_code(WM_ACTIVATE), Message::Activate);
    assert_eq!(Message::from_code(WM_DESTROY), Message::Destroy);
    assert_eq!(Message::from_code(WM_QUIT), Message::Quit);
    assert_eq!(Message::from_code(0x0200), Message::Other);
    assert_eq!((WM_PAINT, WM_QUIT, WM_USER), (15, 18, 1024));
}

#[test]
fn present_codes() {
    assert_eq!(classify_present(0), PresentOutcome::Presented);
    assert_eq!(classify_present(1), PresentOutcome::Presented);
    assert_eq!(classify_present(STATUS_OCCLUDED), PresentOutcome::Occluded);
    assert_eq!(classify_present(0x087A0001), PresentOutcome::Occluded);
    assert_eq!(classify_present(0x887A0005u32 as i32), PresentOutcome::Failed);
    assert_eq!(classify_present(-1), PresentOutcome::Failed);
}

#[test]
fn warp_fallback_only_for_unsupported_hardware() {
    assert_eq!(ERROR_UNSUPPORTED, 0x887A0004u32 as i32);
    assert_eq!(
        fallback_driver(DriverKind::Hardware, ERROR_UNSUPPORTED),
        Some(DriverKind::Warp)
    );
    assert_eq!(fallback_driver(DriverKind::Hardware, -1), None);
    assert_eq!(fallback_driver(DriverKind::Warp, ERROR_UNSUPPORTED), None);
}

#[test]
fn end_to_end_two_rects_500_ticks() {
    let shared = SharedRects::new(two_rects());
    let overlay = Overlay::new(0, 0, 1920, 1080, shared.clone(), 60, true).unwrap();
    assert_eq!(overlay.pen_width(), 1);
    let interval = overlay.frame_interval_nanos();
    let mut elapsed_total: u64 = 0;
    for tick in 0..500i32 {
        let current: Vec<Rect> = shared.snapshot().unwrap().iter().map(|r| r.offset(1, 1)).collect();
        shared.replace(current).unwrap();
        let plan = overlay.plan_frame().unwrap();
        assert_eq!(plan.len(), 2);
        let n = tick + 1;
        let expected = [
            Rect::new(n, n, 100 + n, 100 + n),
            Rect::new(123 + n, 456 + n, 789 + n, 666 + n),
        ];
        for (o, r) in plan.iter().zip(expected.iter()) {
            assert_eq!(o.rect, *r);
            let line = o.pointer.unwrap();
            assert_eq!((line.from_x, line.from_y), (960, 1080));
            assert_eq!((line.to_x, line.to_y), (r.bottom_mid_x(), r.bottom));
        }
        elapsed_total += sleep_nanos(interval, 0);
    }
    let ideal = 500.0 / 60.0;
    let measured = elapsed_total as f64 / NANOS_PER_SECOND as f64;
    assert!((measured - ideal).abs() / ideal < 0.01);
}
