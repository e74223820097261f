use vellogd::codec::{
    background_of, cap_of, decode_color, decode_stroke, join_of, paint_of, BackgroundColor, Cap,
    Dashes, Join, Rgba8, StrokeError, StrokeParameters,
};
use vellogd::command::{
    decode_draw_circle, decode_draw_line, decode_draw_polygon, decode_draw_polyline,
    decode_draw_text, decode_resize_window, decode_set_background, Command, DecodeError,
    DrawCircleRequest, DrawLineRequest, DrawPolygonRequest, DrawPolylineRequest, DrawTextRequest,
    ResizeWindowRequest, SetBackgroundRequest,
};
use vellogd::geometry::{F64Bits, Point};
use vellogd::hex::hex_color_to_u32;
use vellogd::lifecycle::{
    ActiveRenderState, RenderApp, RenderState, ResumePlan, SurfaceInfo, UserAction, WindowAction,
    WindowEvent, WindowHandle,
};
use vellogd::scene::{SceneEntry, Shape};

const MEDIUM_PURPLE: u32 = u32::from_le_bytes([147, 112, 219, 255]);
const PALE_GREEN: u32 = u32::from_le_bytes([152, 251, 152, 255]);

fn f(v: f64) -> F64Bits {
    F64Bits { bits: v.to_bits() }
}

fn stroke_params(color: u32, width: f64, linetype: i32, join: i32, cap: i32) -> StrokeParameters {
    StrokeParameters { color, width: f(width), linetype, join, miter_limit: f(1.0), cap }
}

fn active_app() -> RenderApp {
    let mut app = RenderApp::new();
    assert_eq!(app.resume_plan(), ResumePlan::CreateWindow);
    let surface = SurfaceInfo { dev_id: 0, width: 600, height: 600 };
    assert!(app.resumed(WindowHandle { id: 7 }, surface, 1));
    app
}

fn circle(fill: u32, stroke: Option<StrokeParameters>) -> Command {
    decode_draw_circle(&DrawCircleRequest {
        cx: f(100.0),
        cy: f(100.0),
        radius: f(100.0),
        fill_color: Some(fill),
        stroke_params: stroke,
    })
    .unwrap()
}

#[test]
fn decode_color_unpacks_low_byte_first() {
    assert_eq!(decode_color(MEDIUM_PURPLE), Rgba8 { r: 147, g: 112, b: 219, a: 255 });
    assert_eq!(decode_color(0x04030201), Rgba8 { r: 1, g: 2, b: 3, a: 4 });
    assert_eq!(decode_color(0), Rgba8 { r: 0, g: 0, b: 0, a: 0 });
}

#[test]
fn zero_color_is_no_paint() {
    assert_eq!(paint_of(0), None);
    assert_eq!(paint_of(PALE_GREEN), Some(Rgba8 { r: 152, g: 251, b: 152, a: 255 }));
}

#[test]
fn zero_colors_add_no_entries() {
    let mut app = active_app();
    let c = circle(0, Some(stroke_params(0, 10.0, 1, 1, 1)));
    assert_eq!(app.user_event(c), UserAction::RequestRedraw);
    assert_eq!(app.scene.len(), 0);
    let c = circle(0, Some(stroke_params(PALE_GREEN, 10.0, 1, 1, 1)));
    app.user_event(c);
    assert_eq!(app.scene.len(), 1);
    assert!(matches!(app.scene.entry(0), SceneEntry::Stroke { .. }));
}

#[test]
fn stroke_of_zero_width_is_not_drawn() {
    let mut app = active_app();
    app.user_event(circle(MEDIUM_PURPLE, Some(stroke_params(PALE_GREEN, 0.0, 1, 1, 1))));
    assert_eq!(app.scene.len(), 1);
    assert!(matches!(app.scene.entry(0), SceneEntry::Fill { .. }));
}

#[test]
fn stroke_codes_map_through_the_table() {
    assert_eq!(join_of(1), Some(Join::Round));
    assert_eq!(join_of(2), Some(Join::Miter));
    assert_eq!(join_of(3), Some(Join::Bevel));
    assert_eq!(cap_of(1), Some(Cap::Round));
    assert_eq!(cap_of(2), Some(Cap::Butt));
    assert_eq!(cap_of(3), Some(Cap::Square));
    for j in 1..=3 {
        for c in 1..=3 {
            let s = decode_stroke(&stroke_params(1, 2.0, 0, j, c)).unwrap();
            assert_eq!(Some(s.join), join_of(j));
            assert_eq!(Some(s.start_cap), cap_of(c));
            assert_eq!(s.start_cap, s.end_cap);
            assert_eq!(s.width, f(2.0));
            assert_eq!(s.miter_limit, f(1.0));
        }
    }
}

#[test]
fn invalid_stroke_codes_are_rejected() {
    assert_eq!(
        decode_stroke(&stroke_params(1, 2.0, 0, 0, 1)),
        Err(StrokeError::InvalidJoin(0))
    );
    assert_eq!(
        decode_stroke(&stroke_params(1, 2.0, 0, 4, 9)),
        Err(StrokeError::InvalidJoin(4))
    );
    assert_eq!(
        decode_stroke(&stroke_params(1, 2.0, 0, 2, 4)),
        Err(StrokeError::InvalidCap(4))
    );
    assert_eq!(
        decode_stroke(&stroke_params(1, 2.0, 0, 2, -1)),
        Err(StrokeError::InvalidCap(-1))
    );
    let r = decode_draw_circle(&DrawCircleRequest {
        cx: f(1.0),
        cy: f(1.0),
        radius: f(1.0),
        fill_color: None,
        stroke_params: Some(stroke_params(1, 1.0, 0, 1, 7)),
    });
    assert!(matches!(r, Err(DecodeError::InvalidStroke(StrokeError::InvalidCap(7)))));
}

#[test]
fn linetypes_map_to_dashes() {
    let dash = |lt| decode_stroke(&stroke_params(1, 1.0, lt, 1, 1)).unwrap().dash_pattern;
    assert_eq!(dash(-1), Dashes::Solid);
    assert_eq!(dash(0), Dashes::Solid);
    assert_eq!(dash(1), Dashes::Solid);
    assert_eq!(dash(49), Dashes::Pattern(1, 1, 1, 1));
    assert_eq!(dash(68), Dashes::Pattern(1, 1, 1, 1));
    assert_eq!(dash(50), Dashes::Solid);
}

#[test]
fn background_codes() {
    assert_eq!(background_of(1), BackgroundColor::White);
    assert_eq!(background_of(2), BackgroundColor::Red);
    assert_eq!(background_of(3), BackgroundColor::Blue);
    assert_eq!(background_of(4), BackgroundColor::Green);
    assert_eq!(background_of(0), BackgroundColor::Black);
    assert_eq!(background_of(-3), BackgroundColor::Black);
}

#[test]
fn positive_widths() {
    assert!(f(10.0).is_positive());
    assert!(f(f64::MIN_POSITIVE).is_positive());
    assert!(f(f64::INFINITY).is_positive());
    assert!(!f(0.0).is_positive());
    assert!(!f(-0.0).is_positive());
    assert!(!f(-1.0).is_positive());
    assert!(!f(f64::NAN).is_positive());
}

#[test]
fn hex_colors() {
    assert_eq!(hex_color_to_u32("fff"), Some(0xffff_ffff));
    assert_eq!(hex_color_to_u32("999"), Some(0xff99_9999));
    assert_eq!(hex_color_to_u32("000"), Some(0xff00_0000));
    assert_eq!(hex_color_to_u32("f00"), Some(0xff00_00ff));
    assert_eq!(hex_color_to_u32("F00"), Some(0xff00_00ff));
    assert_eq!(hex_color_to_u32("1234"), Some(0x4433_2211));
    assert_eq!(hex_color_to_u32("f008"), Some(0x8800_00ff));
    assert_eq!(hex_color_to_u32("+ff"), Some(0xffff_ff00));
    assert_eq!(hex_color_to_u32("ff"), None);
    assert_eq!(hex_color_to_u32("12345"), None);
    assert_eq!(hex_color_to_u32("xyz"), None);
    assert_eq!(hex_color_to_u32("-ff"), None);
    assert_eq!(hex_color_to_u32(""), None);
}

#[test]
fn hex_color_decodes_to_expanded_channels() {
    let c = hex_color_to_u32("9a3c").unwrap();
    assert_eq!(decode_color(c), Rgba8 { r: 0x99, g: 0xaa, b: 0x33, a: 0xcc });
}

#[test]
fn resize_requests_absolute_size() {
    let c = decode_resize_window(&ResizeWindowRequest { width: 800, height: 300 }).unwrap();
    assert!(matches!(c, Command::ResizeWindow { width: 800, height: 300 }));
    assert_eq!(
        decode_resize_window(&ResizeWindowRequest { width: -1, height: 300 }).unwrap_err(),
        DecodeError::NegativeSize { width: -1, height: 300 }
    );
    let mut app = active_app();
    assert_eq!(app.user_event(c), UserAction::RequestInnerSize { width: 800, height: 300 });
}

#[test]
fn mismatched_coordinates_are_rejected() {
    let req = DrawPolylineRequest {
        x: vec![f(1.0), f(2.0)],
        y: vec![f(1.0)],
        stroke_params: None,
    };
    assert_eq!(
        decode_draw_polyline(&req).unwrap_err(),
        DecodeError::LengthMismatch { x_len: 2, y_len: 1 }
    );
    let req = DrawPolygonRequest {
        x: vec![],
        y: vec![f(1.0)],
        fill_color: Some(1),
        stroke_params: None,
    };
    assert_eq!(
        decode_draw_polygon(&req).unwrap_err(),
        DecodeError::LengthMismatch { x_len: 0, y_len: 1 }
    );
}

#[test]
fn polygon_fills_then_strokes() {
    let mut app = active_app();
    let req = DrawPolygonRequest {
        x: vec![f(100.0), f(300.0), f(500.0)],
        y: vec![f(100.0), f(500.0), f(300.0)],
        fill_color: Some(PALE_GREEN),
        stroke_params: Some(stroke_params(MEDIUM_PURPLE, 15.0, 1, 1, 1)),
    };
    app.user_event(decode_draw_polygon(&req).unwrap());
    assert_eq!(app.scene.len(), 2);
    let expected = vec![
        Point { x: f(100.0), y: f(100.0) },
        Point { x: f(300.0), y: f(500.0) },
        Point { x: f(500.0), y: f(300.0) },
    ];
    match app.scene.entry(0) {
        SceneEntry::Fill { shape: Shape::Polygon { points }, color } => {
            assert_eq!(points, &expected);
            assert_eq!(*color, decode_color(PALE_GREEN));
        }
        other => panic!("unexpected entry {other:?}"),
    }
    match app.scene.entry(1) {
        SceneEntry::Stroke { shape: Shape::Polygon { points }, color, stroke } => {
            assert_eq!(points, &expected);
            assert_eq!(*color, decode_color(MEDIUM_PURPLE));
            assert_eq!(stroke.width, f(15.0));
        }
        other => panic!("unexpected entry {other:?}"),
    }
}

#[test]
fn line_polyline_and_text() {
    let mut app = active_app();
    let line = decode_draw_line(&DrawLineRequest {
        x0: f(100.0),
        y0: f(100.0),
        x1: f(200.0),
        y1: f(200.0),
        stroke_params: Some(stroke_params(MEDIUM_PURPLE, 15.0, 1, 1, 1)),
    })
    .unwrap();
    let polyline = decode_draw_polyline(&DrawPolylineRequest {
        x: vec![f(1.0), f(2.0)],
        y: vec![f(3.0), f(4.0)],
        stroke_params: Some(stroke_params(MEDIUM_PURPLE, 15.0, 49, 2, 3)),
    })
    .unwrap();
    let text = decode_draw_text(DrawTextRequest {
        x: f(10.0),
        y: f(20.0),
        text: "hello".to_string(),
        color: MEDIUM_PURPLE,
        size: f(100.0),
        lineheight: f(1.2),
        face: 1,
        family: "Arial".to_string(),
        angle: f(0.5),
        hadj: f(0.0),
    });
    app.user_event(line);
    app.user_event(polyline);
    app.user_event(text);
    assert_eq!(app.scene.len(), 3);
    match app.scene.entry(0) {
        SceneEntry::Stroke { shape: Shape::Line { p0, p1 }, .. } => {
            assert_eq!(*p0, Point { x: f(100.0), y: f(100.0) });
            assert_eq!(*p1, Point { x: f(200.0), y: f(200.0) });
        }
        other => panic!("unexpected entry {other:?}"),
    }
    match app.scene.entry(1) {
        SceneEntry::Stroke { shape: Shape::Polyline { points }, stroke, .. } => {
            assert_eq!(points.len(), 2);
            assert_eq!(stroke.join, Join::Miter);
            assert_eq!(stroke.end_cap, Cap::Square);
            assert_eq!(stroke.dash_pattern, Dashes::Pattern(1, 1, 1, 1));
        }
        other => panic!("unexpected entry {other:?}"),
    }
    match app.scene.entry(2) {
        SceneEntry::Text { run, color } => {
            assert_eq!(run.text, "hello");
            assert_eq!(run.family, "Arial");
            assert_eq!(run.pos, Point { x: f(10.0), y: f(20.0) });
            assert_eq!(*color, decode_color(MEDIUM_PURPLE));
        }
        other => panic!("unexpected entry {other:?}"),
    }
}

#[test]
fn circle_scenario_two_entries_one_redraw() {
    let mut app = active_app();
    let c = circle(MEDIUM_PURPLE, Some(stroke_params(PALE_GREEN, 10.0, 1, 1, 1)));
    assert_eq!(app.user_event(c), UserAction::RequestRedraw);
    assert_eq!(app.scene.len(), 2);
    match app.scene.entry(0) {
        SceneEntry::Fill { shape: Shape::Circle { center, radius }, color } => {
            assert_eq!(*center, Point { x: f(100.0), y: f(100.0) });
            assert_eq!(*radius, f(100.0));
            assert_eq!(*color, Rgba8 { r: 147, g: 112, b: 219, a: 255 });
        }
        other => panic!("unexpected entry {other:?}"),
    }
    match app.scene.entry(1) {
        SceneEntry::Stroke { shape: Shape::Circle { .. }, stroke, color } => {
            assert_eq!(stroke.width, f(10.0));
            assert_eq!(stroke.join, Join::Round);
            assert_eq!(stroke.start_cap, Cap::Round);
            assert_eq!(stroke.end_cap, Cap::Round);
            assert_eq!(stroke.dash_pattern, Dashes::Solid);
            assert_eq!(*color, Rgba8 { r: 152, g: 251, b: 152, a: 255 });
        }
        other => panic!("unexpected entry {other:?}"),
    }
    // a second mutation before the frame coalesces into the pending redraw
    let c = circle(MEDIUM_PURPLE, None);
    assert_eq!(app.user_event(c), UserAction::Nothing);
    assert_eq!(app.scene.len(), 3);
}

#[test]
fn unmapped_background_is_black() {
    let mut app = active_app();
    let c = decode_set_background(&SetBackgroundRequest { color: 5 });
    assert!(matches!(c, Command::SetBackground { color: BackgroundColor::Black }));
    assert_eq!(app.user_event(c), UserAction::RequestRedraw);
    assert_eq!(app.background_color, BackgroundColor::Black);
}

#[test]
fn redraw_presents_and_rearms() {
    let mut app = active_app();
    let w = WindowHandle { id: 7 };
    app.user_event(decode_set_background(&SetBackgroundRequest { color: 2 }));
    let a = app.window_event(w, WindowEvent::RedrawRequested);
    match a {
        WindowAction::Present { params, render } => {
            assert!(render);
            assert_eq!(params.background, BackgroundColor::Red);
            assert_eq!((params.width, params.height, params.dev_id), (600, 600, 0));
        }
        other => panic!("unexpected action {other:?}"),
    }
    assert_eq!(
        app.user_event(decode_set_background(&SetBackgroundRequest { color: 3 })),
        UserAction::RequestRedraw
    );
    // another window's notifications are not ours
    assert_eq!(
        app.window_event(WindowHandle { id: 8 }, WindowEvent::CloseRequested),
        WindowAction::Nothing
    );
}

#[test]
fn resized_surface_keeps_scene_coordinates() {
    let mut app = active_app();
    let w = WindowHandle { id: 7 };
    let resize = decode_resize_window(&ResizeWindowRequest { width: 300, height: 200 }).unwrap();
    assert_eq!(app.user_event(resize), UserAction::RequestInnerSize { width: 300, height: 200 });
    assert_eq!(
        app.window_event(w, WindowEvent::Resized { width: 300, height: 200 }),
        WindowAction::ResizeSurface { width: 300, height: 200 }
    );
    app.user_event(circle(MEDIUM_PURPLE, None));
    assert_eq!(app.scene.len(), 1);
    match app.scene.entry(0) {
        SceneEntry::Fill { shape: Shape::Circle { center, radius }, .. } => {
            assert_eq!(*center, Point { x: f(100.0), y: f(100.0) });
            assert_eq!(*radius, f(100.0));
        }
        other => panic!("unexpected entry {other:?}"),
    }
    match app.window_event(w, WindowEvent::RedrawRequested) {
        WindowAction::Present { params, .. } => {
            assert_eq!((params.width, params.height), (300, 200))
        }
        other => panic!("unexpected action {other:?}"),
    }
}

#[test]
fn commands_apply_in_order() {
    let mut app = active_app();
    let colors = [1u32, 2, 3, 4, 5, 6, 7, 8];
    for c in colors {
        app.user_event(circle(c, None));
    }
    assert_eq!(app.scene.len(), colors.len());
    for (i, c) in colors.iter().enumerate() {
        match app.scene.entry(i) {
            SceneEntry::Fill { color, .. } => assert_eq!(*color, decode_color(*c)),
            other => panic!("unexpected entry {other:?}"),
        }
    }
}

#[test]
fn new_page_clears_scene() {
    let mut app = active_app();
    app.user_event(circle(1, None));
    app.user_event(Command::NewPage);
    assert_eq!(app.scene.len(), 0);
}

#[test]
fn suspend_resume_keeps_window_and_scene() {
    let mut app = active_app();
    app.user_event(circle(MEDIUM_PURPLE, None));
    app.suspended();
    assert_eq!(app.state, RenderState::Suspended(Some(WindowHandle { id: 7 })));
    assert_eq!(app.resume_plan(), ResumePlan::ReuseWindow(WindowHandle { id: 7 }));
    // drawing while suspended is dropped
    assert_eq!(app.user_event(circle(PALE_GREEN, None)), UserAction::Nothing);
    let surface = SurfaceInfo { dev_id: 0, width: 640, height: 480 };
    // the renderer of device 0 is reused
    assert!(!app.resumed(WindowHandle { id: 99 }, surface, 1));
    assert_eq!(
        app.state,
        RenderState::Active(ActiveRenderState { surface, window: WindowHandle { id: 7 } })
    );
    assert_eq!(app.scene.len(), 1);
    assert_eq!(app.resume_plan(), ResumePlan::Ignore);
}

#[test]
fn renderer_per_device() {
    let mut app = RenderApp::new();
    let s1 = SurfaceInfo { dev_id: 1, width: 10, height: 10 };
    assert!(app.resumed(WindowHandle { id: 1 }, s1, 2));
    app.suspended();
    let s0 = SurfaceInfo { dev_id: 0, width: 10, height: 10 };
    assert!(app.resumed(WindowHandle { id: 1 }, s0, 2));
    app.suspended();
    assert!(!app.resumed(WindowHandle { id: 1 }, s1, 2));
}

#[test]
fn close_while_suspended_ends_loop() {
    let mut app = RenderApp::new();
    assert_eq!(app.user_event(Command::CloseWindow), UserAction::Exit);
    assert!(app.exited);
    assert_eq!(app.resume_plan(), ResumePlan::Ignore);
    let mut app = active_app();
    app.suspended();
    assert_eq!(app.user_event(Command::CloseWindow), UserAction::Exit);
    assert_eq!(app.user_event(circle(1, None)), UserAction::Nothing);
}

#[test]
fn close_while_active_ends_loop_and_drops_later_commands() {
    let mut app = active_app();
    assert_eq!(app.user_event(Command::CloseWindow), UserAction::Exit);
    assert_eq!(app.user_event(circle(1, None)), UserAction::Nothing);
    assert_eq!(app.scene.len(), 0);
    let mut app = active_app();
    assert_eq!(
        app.window_event(WindowHandle { id: 7 }, WindowEvent::CloseRequested),
        WindowAction::Exit
    );
    assert!(app.exited);
}
