//! Requests as the service boundary receives them, and their decoding into the
//! commands that the rendering owner applies.
use vstd::prelude::*;

use crate::codec::{
    background_of, decode_stroke, spec_background_of, spec_decode_stroke, BackgroundColor,
    Stroke, StrokeError, StrokeParameters,
};
use crate::geometry::{F64Bits, Point};

verus! {

/// A decoded stroke together with its wire color.
#[derive(Clone, Copy, Debug, PartialEq, Eq, Structural)]
pub struct StrokePaint {
    pub color: u32,
    pub stroke: Stroke,
}

/// A run of text with its attributes; the glyphs are the renderer's business.
#[derive(Clone, Debug)]
pub struct TextRun {
    pub pos: Point,
    pub text: String,
    pub color: u32,
    pub size: F64Bits,
    pub lineheight: F64Bits,
    pub face: i32,
    pub family: String,
    pub angle: F64Bits,
    pub hadj: F64Bits,
}

/// One mutation of the window or of the scene. A color of `0` paints nothing.
#[derive(Clone, Debug)]
pub enum Command {
    /// Asks for a window of this (absolute) inner size.
    ResizeWindow { width: u32, height: u32 },
    CloseWindow,
    SetBackground { color: BackgroundColor },
    DrawCircle { center: Point, radius: F64Bits, fill_color: u32, stroke: Option<StrokePaint> },
    DrawLine { p0: Point, p1: Point, stroke: Option<StrokePaint> },
    DrawPolyline { points: Vec<Point>, stroke: Option<StrokePaint> },
    DrawPolygon { points: Vec<Point>, fill_color: u32, stroke: Option<StrokePaint> },
    DrawText { run: TextRun },
    NewPage,
}

/// Why a request was rejected before it reached the rendering owner.
#[derive(Clone, Copy, Debug, PartialEq, Eq, Structural)]
pub enum DecodeError {
    InvalidStroke(StrokeError),
    LengthMismatch { x_len: usize, y_len: usize },
    NegativeSize { width: i32, height: i32 },
}

#[derive(Clone, Copy, Debug, PartialEq, Eq, Structural)]
pub struct ResizeWindowRequest {
    pub width: i32,
    pub height: i32,
}

#[derive(Clone, Copy, Debug, PartialEq, Eq, Structural)]
pub struct SetBackgroundRequest {
    pub color: i32,
}

#[derive(Clone, Copy, Debug, PartialEq, Eq, Structural)]
pub struct DrawCircleRequest {
    pub cx: F64Bits,
    pub cy: F64Bits,
    pub radius: F64Bits,
    pub fill_color: Option<u32>,
    pub stroke_params: Option<StrokeParameters>,
}

#[derive(Clone, Copy, Debug, PartialEq, Eq, Structural)]
pub struct DrawLineRequest {
    pub x0: F64Bits,
    pub y0: F64Bits,
    pub x1: F64Bits,
    pub y1: F64Bits,
    pub stroke_params: Option<StrokeParameters>,
}

#[derive(Clone, Debug)]
pub struct DrawPolylineRequest {
    pub x: Vec<F64Bits>,
    pub y: Vec<F64Bits>,
    pub stroke_params: Option<StrokeParameters>,
}

#[derive(Clone, Debug)]
pub struct DrawPolygonRequest {
    pub x: Vec<F64Bits>,
    pub y: Vec<F64Bits>,
    pub fill_color: Option<u32>,
    pub stroke_params: Option<StrokeParameters>,
}

#[derive(Clone, Debug)]
pub struct DrawTextRequest {
    pub x: F64Bits,
    pub y: F64Bits,
    pub text: String,
    pub color: u32,
    pub size: F64Bits,
    pub lineheight: F64Bits,
    pub face: i32,
    pub family: String,
    pub angle: F64Bits,
    pub hadj: F64Bits,
}

/// An absent fill is no paint.
pub open spec fn spec_fill_of(fill: Option<u32>) -> u32 {
    match fill {
        Some(c) => c,
        None => 0,
    }
}

/// Absent stroke parameters draw no stroke; present ones must decode.
pub open spec fn spec_stroke_paint(p: Option<StrokeParameters>) -> Result<
    Option<StrokePaint>,
    DecodeError,
> {
    match p {
        None => Ok(None),
        Some(params) => match spec_decode_stroke(params) {
            Ok(stroke) => Ok(Some(StrokePaint { color: params.color, stroke })),
            Err(e) => Err(DecodeError::InvalidStroke(e)),
        },
    }
}

/// The points whose coordinates are the two sequences, pairwise.
pub open spec fn spec_points(x: Seq<F64Bits>, y: Seq<F64Bits>) -> Seq<Point> {
    Seq::new(x.len(), |i: int| Point { x: x[i], y: y[i] })
}

pub fn fill_of(fill: Option<u32>) -> (r: u32)
    ensures
        r == spec_fill_of(fill),
{
    match fill {
        Some(c) => c,
        None => 0,
    }
}

pub fn decode_stroke_paint(p: &Option<StrokeParameters>) -> (r: Result<
    Option<StrokePaint>,
    DecodeError,
>)
    ensures
        r == spec_stroke_paint(*p),
{
    match p {
        None => Ok(None),
        Some(params) => match decode_stroke(params) {
            Ok(stroke) => Ok(Some(StrokePaint { color: params.color, stroke })),
            Err(e) => Err(DecodeError::InvalidStroke(e)),
        },
    }
}

/// Pairs up coordinates; the two sequences must be equally long.
pub fn zip_points(x: &Vec<F64Bits>, y: &Vec<F64Bits>) -> (r: Result<Vec<Point>, DecodeError>)
    ensures
        x.len() != y.len() ==> r == Err::<Vec<Point>, DecodeError>(
            DecodeError::LengthMismatch { x_len: x.len(), y_len: y.len() },
        ),
        x.len() == y.len() ==> (r matches Ok(points) && points@ == spec_points(x@, y@)),
{
    if x.len() != y.len() {
        return Err(DecodeError::LengthMismatch { x_len: x.len(), y_len: y.len() });
    }
    let mut points: Vec<Point> = Vec::new();
    let mut i: usize = 0;
    while i < x.len()
        invariant
            x.len() == y.len(),
            i <= x.len(),
            points@ == spec_points(x@, y@).subrange(0, i as int),
        decreases x.len() - i,
    {
        points.push(Point { x: x[i], y: y[i] });
        i = i + 1;
        assert(points@ =~= spec_points(x@, y@).subrange(0, i as int));
    }
    assert(points@ =~= spec_points(x@, y@));
    Ok(points)
}

/// A resize asks for an absolute inner size; negative sizes are rejected.
pub fn decode_resize_window(req: &ResizeWindowRequest) -> (r: Result<Command, DecodeError>)
    ensures
        (req.width < 0 || req.height < 0) ==> r == Err::<Command, DecodeError>(
            DecodeError::NegativeSize { width: req.width, height: req.height },
        ),
        (req.width >= 0 && req.height >= 0) ==> (r matches Ok(Command::ResizeWindow {
            width,
            height,
        }) && width == req.width && height == req.height),
{
    if req.width < 0 || req.height < 0 {
        return Err(DecodeError::NegativeSize { width: req.width, height: req.height });
    }
    Ok(Command::ResizeWindow { width: req.width as u32, height: req.height as u32 })
}

/// A background code outside the known ones means black; it is never an error.
pub fn decode_set_background(req: &SetBackgroundRequest) -> (r: Command)
    ensures
        r matches Command::SetBackground { color } && color == spec_background_of(req.color),
{
    Command::SetBackground { color: background_of(req.color) }
}

pub fn decode_draw_circle(req: &DrawCircleRequest) -> (r: Result<Command, DecodeError>)
    ensures
        match spec_stroke_paint(req.stroke_params) {
            Err(e) => r == Err::<Command, DecodeError>(e),
            Ok(stroke) => r matches Ok(Command::DrawCircle { center, radius, fill_color, stroke: s })
                && center == (Point { x: req.cx, y: req.cy }) && radius == req.radius && fill_color
                == spec_fill_of(req.fill_color) && s == stroke,
        },
{
    let stroke = match decode_stroke_paint(&req.stroke_params) {
        Ok(s) => s,
        Err(e) => {
            return Err(e);
        },
    };
    Ok(
        Command::DrawCircle {
            center: Point { x: req.cx, y: req.cy },
            radius: req.radius,
            fill_color: fill_of(req.fill_color),
            stroke,
        },
    )
}

pub fn decode_draw_line(req: &DrawLineRequest) -> (r: Result<Command, DecodeError>)
    ensures
        match spec_stroke_paint(req.stroke_params) {
            Err(e) => r == Err::<Command, DecodeError>(e),
            Ok(stroke) => r matches Ok(Command::DrawLine { p0, p1, stroke: s }) && p0 == (Point {
                x: req.x0,
                y: req.y0,
            }) && p1 == (Point { x: req.x1, y: req.y1 }) && s == stroke,
        },
{
    let stroke = match decode_stroke_paint(&req.stroke_params) {
        Ok(s) => s,
        Err(e) => {
            return Err(e);
        },
    };
    Ok(
        Command::DrawLine {
            p0: Point { x: req.x0, y: req.y0 },
            p1: Point { x: req.x1, y: req.y1 },
            stroke,
        },
    )
}

/// The coordinates are paired first, then the stroke is decoded.
pub fn decode_draw_polyline(req: &DrawPolylineRequest) -> (r: Result<Command, DecodeError>)
    ensures
        req.x.len() != req.y.len() ==> r == Err::<Command, DecodeError>(
            DecodeError::LengthMismatch { x_len: req.x.len(), y_len: req.y.len() },
        ),
        req.x.len() == req.y.len() ==> match spec_stroke_paint(req.stroke_params) {
            Err(e) => r == Err::<Command, DecodeError>(e),
            Ok(stroke) => r matches Ok(Command::DrawPolyline { points, stroke: s }) && points@
                == spec_points(req.x@, req.y@) && s == stroke,
        },
{
    let points = match zip_points(&req.x, &req.y) {
        Ok(p) => p,
        Err(e) => {
            return Err(e);
        },
    };
    let stroke = match decode_stroke_paint(&req.stroke_params) {
        Ok(s) => s,
        Err(e) => {
            return Err(e);
        },
    };
    Ok(Command::DrawPolyline { points, stroke })
}

/// The coordinates are paired first, then the stroke is decoded.
pub fn decode_draw_polygon(req: &DrawPolygonRequest) -> (r: Result<Command, DecodeError>)
    ensures
        req.x.len() != req.y.len() ==> r == Err::<Command, DecodeError>(
            DecodeError::LengthMismatch { x_len: req.x.len(), y_len: req.y.len() },
        ),
        req.x.len() == req.y.len() ==> match spec_stroke_paint(req.stroke_params) {
            Err(e) => r == Err::<Command, DecodeError>(e),
            Ok(stroke) => r matches Ok(Command::DrawPolygon { points, fill_color, stroke: s })
                && points@ == spec_points(req.x@, req.y@) && fill_color == spec_fill_of(
                req.fill_color,
            ) && s == stroke,
        },
{
    let points = match zip_points(&req.x, &req.y) {
        Ok(p) => p,
        Err(e) => {
            return Err(e);
        },
    };
    let stroke = match decode_stroke_paint(&req.stroke_params) {
        Ok(s) => s,
        Err(e) => {
            return Err(e);
        },
    };
    Ok(Command::DrawPolygon { points, fill_color: fill_of(req.fill_color), stroke })
}

/// Text is forwarded with its attributes as they came.
pub fn decode_draw_text(req: DrawTextRequest) -> (r: Command)
    ensures
        r matches Command::DrawText { run } && run.pos == (Point { x: req.x, y: req.y })
            && run.text == req.text && run.color == req.color && run.size == req.size
            && run.lineheight == req.lineheight && run.face == req.face && run.family
            == req.family && run.angle == req.angle && run.hadj == req.hadj,
{
    Command::DrawText {
        run: TextRun {
            pos: Point { x: req.x, y: req.y },
            text: req.text,
            color: req.color,
            size: req.size,
            lineheight: req.lineheight,
            face: req.face,
            family: req.family,
            angle: req.angle,
            hadj: req.hadj,
        },
    }
}

} // verus!
