//! What a screen shows, as a list of shapes in screen coordinates.
//!
//! Every shape is drawn in black on the cleared (white) screen; the list is
//! then drawn in order, and the whole image is inverted when `inverted` is
//! set. Texts are placed by the left end of their baseline, except Hangul
//! texts, which are placed by their top-left corner.
use vstd::prelude::*;

verus! {

/// The three sizes of the ASCII font (ProFont 10, 12 and 24 point).
#[derive(Clone, Copy, Debug, PartialEq, Eq, Structural)]
pub enum FontSize {
    Small,
    Medium,
    Large,
}

/// One thing drawn on the screen.
#[derive(Debug)]
pub enum Shape {
    /// ASCII text, baseline starting at (`x`, `y`).
    Text { text: String, x: i32, y: i32, font: FontSize },
    /// Text that may hold Hangul (drawn with 16 × 16 glyphs, the rest with
    /// the ASCII font), top-left corner at (`x`, `y`).
    HangulText { text: String, x: i32, y: i32, font: FontSize },
    /// Hangul text centred in the band of `width` pixels from `left`, top at `y`.
    CenteredHangulText { text: String, left: i32, width: i32, y: i32, font: FontSize },
    /// ASCII text starting `dx` pixels after the end of the text drawn just
    /// before it, baseline at `y`.
    TextAfter { text: String, dx: i32, y: i32, font: FontSize },
    /// A ring whose bounding box starts `dx` pixels after the end of the
    /// text drawn just before it, top at `y`.
    RingAfter { dx: i32, y: i32, diameter: u32, stroke: u32 },
    /// A straight line.
    Line { x0: i32, y0: i32, x1: i32, y1: i32, stroke: u32 },
    /// The outline of a rectangle with top-left corner (`x`, `y`).
    Rect { x: i32, y: i32, w: u32, h: u32, stroke: u32 },
    /// A filled rectangle with top-left corner (`x`, `y`).
    FilledRect { x: i32, y: i32, w: u32, h: u32 },
    /// The outline of a circle whose bounding box starts at (`x`, `y`).
    Ring { x: i32, y: i32, diameter: u32, stroke: u32 },
    /// A filled circle whose bounding box starts at (`x`, `y`).
    Disc { x: i32, y: i32, diameter: u32 },
    /// One pixel.
    Dot { x: i32, y: i32 },
}

/// A shape as a value: its text as characters.
pub ghost enum ShapeModel {
    Text { text: Seq<char>, x: int, y: int, font: FontSize },
    HangulText { text: Seq<char>, x: int, y: int, font: FontSize },
    CenteredHangulText { text: Seq<char>, left: int, width: int, y: int, font: FontSize },
    TextAfter { text: Seq<char>, dx: int, y: int, font: FontSize },
    RingAfter { dx: int, y: int, diameter: int, stroke: int },
    Line { x0: int, y0: int, x1: int, y1: int, stroke: int },
    Rect { x: int, y: int, w: int, h: int, stroke: int },
    FilledRect { x: int, y: int, w: int, h: int },
    Ring { x: int, y: int, diameter: int, stroke: int },
    Disc { x: int, y: int, diameter: int },
    Dot { x: int, y: int },
}

impl Shape {
    pub open spec fn model(&self) -> ShapeModel {
        match self {
            Shape::Text { text, x, y, font } => ShapeModel::Text {
                text: text@,
                x: *x as int,
                y: *y as int,
                font: *font,
            },
            Shape::HangulText { text, x, y, font } => ShapeModel::HangulText {
                text: text@,
                x: *x as int,
                y: *y as int,
                font: *font,
            },
            Shape::CenteredHangulText { text, left, width, y, font } =>
                ShapeModel::CenteredHangulText {
                text: text@,
                left: *left as int,
                width: *width as int,
                y: *y as int,
                font: *font,
            },
            Shape::TextAfter { text, dx, y, font } => ShapeModel::TextAfter {
                text: text@,
                dx: *dx as int,
                y: *y as int,
                font: *font,
            },
            Shape::RingAfter { dx, y, diameter, stroke } => ShapeModel::RingAfter {
                dx: *dx as int,
                y: *y as int,
                diameter: *diameter as int,
                stroke: *stroke as int,
            },
            Shape::Line { x0, y0, x1, y1, stroke } => ShapeModel::Line {
                x0: *x0 as int,
                y0: *y0 as int,
                x1: *x1 as int,
                y1: *y1 as int,
                stroke: *stroke as int,
            },
            Shape::Rect { x, y, w, h, stroke } => ShapeModel::Rect {
                x: *x as int,
                y: *y as int,
                w: *w as int,
                h: *h as int,
                stroke: *stroke as int,
            },
            Shape::FilledRect { x, y, w, h } => ShapeModel::FilledRect {
                x: *x as int,
                y: *y as int,
                w: *w as int,
                h: *h as int,
            },
            Shape::Ring { x, y, diameter, stroke } => ShapeModel::Ring {
                x: *x as int,
                y: *y as int,
                diameter: *diameter as int,
                stroke: *stroke as int,
            },
            Shape::Disc { x, y, diameter } => ShapeModel::Disc {
                x: *x as int,
                y: *y as int,
                diameter: *diameter as int,
            },
            Shape::Dot { x, y } => ShapeModel::Dot { x: *x as int, y: *y as int },
        }
    }
}

/// A screen: its shapes in drawing order, and whether it is shown inverted.
pub struct Scene {
    pub shapes: Vec<Shape>,
    pub inverted: bool,
}

impl View for Scene {
    type V = Seq<ShapeModel>;

    open spec fn view(&self) -> Seq<ShapeModel> {
        Seq::new(self.shapes@.len(), |i: int| self.shapes@[i].model())
    }
}

/// A line of `stroke` pixels.
pub open spec fn line(x0: int, y0: int, x1: int, y1: int, stroke: int) -> ShapeModel {
    ShapeModel::Line { x0, y0, x1, y1, stroke }
}

/// `a / b` rounded toward zero, as Rust divides integers.
pub open spec fn div_trunc(a: int, b: int) -> int {
    if a >= 0 {
        a / b
    } else {
        -((-a) / b)
    }
}

impl Scene {
    /// An empty, non-inverted screen.
    pub fn new() -> (r: Self)
        ensures
            r@ == Seq::<ShapeModel>::empty(),
            !r.inverted,
    {
        Scene { shapes: Vec::new(), inverted: false }
    }

    /// Adds a shape on top of the others.
    pub fn add(&mut self, s: Shape)
        ensures
            final(self)@ == old(self)@.push(s.model()),
            final(self).inverted == old(self).inverted,
    {
        let ghost m = s.model();
        self.shapes.push(s);
        assert(self@ =~= old(self)@.push(m));
    }

    /// Adds ASCII text with its baseline starting at (`x`, `y`).
    pub fn text(&mut self, text: &str, x: i32, y: i32, font: FontSize)
        ensures
            final(self)@ == old(self)@.push(ShapeModel::Text { text: text@, x: x as int, y: y as int, font }),
            final(self).inverted == old(self).inverted,
    {
        self.add(Shape::Text { text: String::from_str(text), x, y, font });
    }

    /// Adds a line of `stroke` pixels.
    pub fn line(&mut self, x0: i32, y0: i32, x1: i32, y1: i32, stroke: u32)
        ensures
            final(self)@ == old(self)@.push(line(x0 as int, y0 as int, x1 as int, y1 as int, stroke as int)),
            final(self).inverted == old(self).inverted,
    {
        self.add(Shape::Line { x0, y0, x1, y1, stroke });
    }
}

} // verus!
