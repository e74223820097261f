//! The scene: an ordered, append-only list of drawable entries for the current
//! page, and what each drawing command adds to it.
use vstd::prelude::*;

use crate::codec::{decode_color, spec_decode_color, Rgba8, Stroke};
use crate::command::{Command, StrokePaint, TextRun};
use crate::geometry::{F64Bits, Point};

verus! {

/// The outline that a fill or a stroke paints.
#[derive(Clone, Debug)]
pub enum Shape {
    Circle { center: Point, radius: F64Bits },
    Line { p0: Point, p1: Point },
    Polyline { points: Vec<Point> },
    Polygon { points: Vec<Point> },
}

pub enum ShapeModel {
    Circle { center: Point, radius: F64Bits },
    Line { p0: Point, p1: Point },
    Polyline { points: Seq<Point> },
    Polygon { points: Seq<Point> },
}

impl View for Shape {
    type V = ShapeModel;

    open spec fn view(&self) -> ShapeModel {
        match self {
            Shape::Circle { center, radius } => ShapeModel::Circle { center: *center, radius: *radius },
            Shape::Line { p0, p1 } => ShapeModel::Line { p0: *p0, p1: *p1 },
            Shape::Polyline { points } => ShapeModel::Polyline { points: points@ },
            Shape::Polygon { points } => ShapeModel::Polygon { points: points@ },
        }
    }
}

pub struct TextModel {
    pub pos: Point,
    pub text: Seq<char>,
    pub size: F64Bits,
    pub lineheight: F64Bits,
    pub face: i32,
    pub family: Seq<char>,
    pub angle: F64Bits,
    pub hadj: F64Bits,
}

impl View for TextRun {
    type V = TextModel;

    open spec fn view(&self) -> TextModel {
        TextModel {
            pos: self.pos,
            text: self.text@,
            size: self.size,
            lineheight: self.lineheight,
            face: self.face,
            family: self.family@,
            angle: self.angle,
            hadj: self.hadj,
        }
    }
}

/// One drawable entry, with its paint resolved; every entry is drawn with the
/// identity transform.
#[derive(Clone, Debug)]
pub enum SceneEntry {
    Fill { shape: Shape, color: Rgba8 },
    Stroke { shape: Shape, stroke: Stroke, color: Rgba8 },
    Text { run: TextRun, color: Rgba8 },
}

pub enum EntryModel {
    Fill { shape: ShapeModel, color: Rgba8 },
    Stroke { shape: ShapeModel, stroke: Stroke, color: Rgba8 },
    Text { run: TextModel, color: Rgba8 },
}

impl View for SceneEntry {
    type V = EntryModel;

    open spec fn view(&self) -> EntryModel {
        match self {
            SceneEntry::Fill { shape, color } => EntryModel::Fill { shape: shape@, color: *color },
            SceneEntry::Stroke { shape, stroke, color } => EntryModel::Stroke {
                shape: shape@,
                stroke: *stroke,
                color: *color,
            },
            SceneEntry::Text { run, color } => EntryModel::Text { run: run@, color: *color },
        }
    }
}

/// A stroke is drawn when its color is not `0` and its width is above zero.
pub open spec fn spec_stroke_visible(s: Option<StrokePaint>) -> bool {
    match s {
        Some(sp) => sp.color != 0 && sp.stroke.width.spec_is_positive(),
        None => false,
    }
}

pub open spec fn spec_fill_entries(shape: ShapeModel, fill_color: u32) -> Seq<EntryModel> {
    if fill_color == 0 {
        seq![]
    } else {
        seq![EntryModel::Fill { shape, color: spec_decode_color(fill_color) }]
    }
}

pub open spec fn spec_stroke_entries(shape: ShapeModel, s: Option<StrokePaint>) -> Seq<
    EntryModel,
> {
    if spec_stroke_visible(s) {
        seq![
            EntryModel::Stroke {
                shape,
                stroke: s.unwrap().stroke,
                color: spec_decode_color(s.unwrap().color),
            },
        ]
    } else {
        seq![]
    }
}

/// A shape's entries: its fill, then its stroke, each only where it is painted.
pub open spec fn spec_painted(shape: ShapeModel, fill_color: u32, s: Option<StrokePaint>) -> Seq<
    EntryModel,
> {
    spec_fill_entries(shape, fill_color) + spec_stroke_entries(shape, s)
}

/// The entries that a command appends to the scene; commands that do not draw
/// append none.
pub open spec fn entries_of(c: Command) -> Seq<EntryModel> {
    match c {
        Command::DrawCircle { center, radius, fill_color, stroke } => spec_painted(
            ShapeModel::Circle { center, radius },
            fill_color,
            stroke,
        ),
        Command::DrawLine { p0, p1, stroke } => spec_stroke_entries(
            ShapeModel::Line { p0, p1 },
            stroke,
        ),
        Command::DrawPolyline { points, stroke } => spec_stroke_entries(
            ShapeModel::Polyline { points: points@ },
            stroke,
        ),
        Command::DrawPolygon { points, fill_color, stroke } => spec_painted(
            ShapeModel::Polygon { points: points@ },
            fill_color,
            stroke,
        ),
        Command::DrawText { run } => if run.color == 0 {
            seq![]
        } else {
            seq![EntryModel::Text { run: run@, color: spec_decode_color(run.color) }]
        },
        _ => seq![],
    }
}

/// The command draws something (it may still add no entry, all of its paints
/// being `0`).
pub open spec fn is_drawing(c: Command) -> bool {
    ||| c is DrawCircle
    ||| c is DrawLine
    ||| c is DrawPolyline
    ||| c is DrawPolygon
    ||| c is DrawText
}

fn copy_points(points: &Vec<Point>) -> (r: Vec<Point>)
    ensures
        r@ == points@,
{
    let mut r: Vec<Point> = Vec::new();
    let mut i: usize = 0;
    while i < points.len()
        invariant
            i <= points.len(),
            r@ == points@.subrange(0, i as int),
        decreases points.len() - i,
    {
        r.push(points[i]);
        i = i + 1;
        assert(r@ =~= points@.subrange(0, i as int));
    }
    assert(r@ =~= points@);
    r
}

impl Shape {
    /// A second shape with the same outline.
    pub fn duplicate(&self) -> (r: Shape)
        ensures
            r@ == self@,
    {
        match self {
            Shape::Circle { center, radius } => Shape::Circle { center: *center, radius: *radius },
            Shape::Line { p0, p1 } => Shape::Line { p0: *p0, p1: *p1 },
            Shape::Polyline { points } => Shape::Polyline { points: copy_points(points) },
            Shape::Polygon { points } => Shape::Polygon { points: copy_points(points) },
        }
    }
}

/// The entries of the current page, in the order they were drawn.
pub struct Scene {
    entries: Vec<SceneEntry>,
}

impl View for Scene {
    type V = Seq<EntryModel>;

    closed spec fn view(&self) -> Seq<EntryModel> {
        self.entries@.map_values(|e: SceneEntry| e@)
    }
}

impl Scene {
    pub fn new() -> (r: Scene)
        ensures
            r@ == Seq::<EntryModel>::empty(),
    {
        let r = Scene { entries: Vec::new() };
        assert(r@ =~= Seq::<EntryModel>::empty());
        r
    }

    pub fn len(&self) -> (r: usize)
        ensures
            r == self@.len(),
    {
        self.entries.len()
    }

    /// The entry at position `i`.
    pub fn entry(&self, i: usize) -> (r: &SceneEntry)
        requires
            i < self@.len(),
        ensures
            r@ == self@[i as int],
    {
        &self.entries[i]
    }

    /// Starts a new page: no entry is left.
    pub fn reset(&mut self)
        ensures
            final(self)@ == Seq::<EntryModel>::empty(),
    {
        self.entries = Vec::new();
        assert(self@ =~= Seq::<EntryModel>::empty());
    }

    pub fn push(&mut self, e: SceneEntry)
        ensures
            final(self)@ == old(self)@.push(e@),
    {
        self.entries.push(e);
        assert(self@ =~= old(self)@.push(e@));
    }

    fn push_painted(&mut self, shape: Shape, fill_color: u32, stroke: Option<StrokePaint>)
        ensures
            final(self)@ == old(self)@ + spec_painted(shape@, fill_color, stroke),
    {
        let ghost start = self@;
        if fill_color != 0 {
            self.push(SceneEntry::Fill { shape: shape.duplicate(), color: decode_color(fill_color) });
        }
        assert(self@ == start + spec_fill_entries(shape@, fill_color));
        self.push_stroke(shape, stroke);
        assert(self@ =~= start + spec_painted(shape@, fill_color, stroke));
    }

    fn push_stroke(&mut self, shape: Shape, stroke: Option<StrokePaint>)
        ensures
            final(self)@ == old(self)@ + spec_stroke_entries(shape@, stroke),
    {
        match stroke {
            Some(sp) => {
                if sp.color != 0 && sp.stroke.width.is_positive() {
                    self.push(
                        SceneEntry::Stroke {
                            shape,
                            stroke: sp.stroke,
                            color: decode_color(sp.color),
                        },
                    );
                    assert(final(self)@ =~= old(self)@ + spec_stroke_entries(shape@, stroke));
                } else {
                    assert(final(self)@ =~= old(self)@ + spec_stroke_entries(shape@, stroke));
                }
            },
            None => {
                assert(self@ =~= old(self)@ + spec_stroke_entries(shape@, stroke));
            },
        }
    }

    /// Appends what a command draws: zero, one or two entries (fill, then
    /// stroke); a paint of color `0` is left out.
    pub fn draw(&mut self, c: Command)
        ensures
            final(self)@ == old(self)@ + entries_of(c),
    {
        match c {
            Command::DrawCircle { center, radius, fill_color, stroke } => {
                self.push_painted(Shape::Circle { center, radius }, fill_color, stroke);
            },
            Command::DrawLine { p0, p1, stroke } => {
                self.push_stroke(Shape::Line { p0, p1 }, stroke);
            },
            Command::DrawPolyline { points, stroke } => {
                self.push_stroke(Shape::Polyline { points }, stroke);
            },
            Command::DrawPolygon { points, fill_color, stroke } => {
                self.push_painted(Shape::Polygon { points }, fill_color, stroke);
            },
            Command::DrawText { run } => {
                if run.color != 0 {
                    let color = decode_color(run.color);
                    self.push(SceneEntry::Text { run, color });
                } else {
                    assert(self@ =~= old(self)@ + entries_of(c));
                }
            },
            _ => {
                assert(self@ =~= old(self)@ + entries_of(c));
            },
        }
    }
}

} // verus!
