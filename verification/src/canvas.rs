//! Draw primitives: what a frame is made of, in the order in which it is painted.
//!
//! All lengths are in thousandths of a pixel.

use crate::projection::ScreenPoint;
use vstd::prelude::*;

verus! {

/// A colour with premultiplied alpha, eight bits per channel.
#[derive(Clone, Copy, Debug, PartialEq, Eq, Structural)]
pub struct Color {
    pub r: u8,
    pub g: u8,
    pub b: u8,
    pub a: u8,
}

impl Color {
    /// An opaque colour.
    pub open spec fn spec_from_rgb(r: u8, g: u8, b: u8) -> Color {
        Color { r, g, b, a: 255 }
    }

    /// An opaque colour.
    #[verifier::when_used_as_spec(spec_from_rgb)]
    pub fn from_rgb(r: u8, g: u8, b: u8) -> (c: Color)
        ensures
            c == Self::spec_from_rgb(r, g, b),
    {
        Color { r, g, b, a: 255 }
    }

    /// A colour from channels that are already multiplied by its alpha.
    pub open spec fn spec_from_rgba_premultiplied(r: u8, g: u8, b: u8, a: u8) -> Color {
        Color { r, g, b, a }
    }

    /// A colour from channels that are already multiplied by its alpha.
    #[verifier::when_used_as_spec(spec_from_rgba_premultiplied)]
    pub fn from_rgba_premultiplied(r: u8, g: u8, b: u8, a: u8) -> (c: Color)
        ensures
            c == Self::spec_from_rgba_premultiplied(r, g, b, a),
    {
        Color { r, g, b, a }
    }

    pub open spec fn spec_white() -> Color {
        Color { r: 255, g: 255, b: 255, a: 255 }
    }

    #[verifier::when_used_as_spec(spec_white)]
    pub fn white() -> (c: Color)
        ensures
            c == Self::spec_white(),
    {
        Color { r: 255, g: 255, b: 255, a: 255 }
    }

    pub open spec fn spec_black() -> Color {
        Color { r: 0, g: 0, b: 0, a: 255 }
    }

    #[verifier::when_used_as_spec(spec_black)]
    pub fn black() -> (c: Color)
        ensures
            c == Self::spec_black(),
    {
        Color { r: 0, g: 0, b: 0, a: 255 }
    }
}

/// The outline of a shape: its width and colour.
#[derive(Clone, Copy, Debug, PartialEq, Eq, Structural)]
pub struct Stroke {
    pub width: i64,
    pub color: Color,
}

/// Where the anchor of a text lies along one axis of its bounding box.
#[derive(Clone, Copy, Debug, PartialEq, Eq, Structural)]
pub enum Align {
    Min,
    Center,
    Max,
}

/// Where the anchor of a text lies in its bounding box.
#[derive(Clone, Copy, Debug, PartialEq, Eq, Structural)]
pub struct Align2 {
    pub horizontal: Align,
    pub vertical: Align,
}

impl Align2 {
    pub open spec fn spec_center_center() -> Align2 {
        Align2 { horizontal: Align::Center, vertical: Align::Center }
    }

    /// Anchored at the middle of the text.
    #[verifier::when_used_as_spec(spec_center_center)]
    pub fn center_center() -> (a: Align2)
        ensures
            a == Self::spec_center_center(),
    {
        Align2 { horizontal: Align::Center, vertical: Align::Center }
    }
}

/// One draw call. A frame is a sequence of these; later ones are painted over
/// earlier ones.
#[derive(Clone, Debug, PartialEq, Eq)]
pub enum DrawCommand {
    /// A filled square with rounded corners, given by its centre and side.
    RectFilled { center: ScreenPoint, side: i64, rounding: i64, color: Color },
    /// The outline of a circle.
    CircleStroke { center: ScreenPoint, radius: i64, stroke: Stroke },
    /// A filled circle.
    CircleFilled { center: ScreenPoint, radius: i64, color: Color },
    /// A straight line between two points.
    LineSegment { from: ScreenPoint, to: ScreenPoint, stroke: Stroke },
    /// An open path through the points, in order.
    Line { points: Vec<ScreenPoint>, stroke: Stroke },
    /// A filled convex polygon with an outline.
    ConvexPolygon { points: Vec<ScreenPoint>, fill: Color, stroke: Stroke },
    /// A single line of text.
    Text { pos: ScreenPoint, anchor: Align2, text: String, font_size: i64, color: Color },
}

/// The mathematical content of a [`DrawCommand`].
pub enum Primitive {
    RectFilled { center: ScreenPoint, side: int, rounding: int, color: Color },
    CircleStroke { center: ScreenPoint, radius: int, stroke: Stroke },
    CircleFilled { center: ScreenPoint, radius: int, color: Color },
    LineSegment { from: ScreenPoint, to: ScreenPoint, stroke: Stroke },
    Line { points: Seq<ScreenPoint>, stroke: Stroke },
    ConvexPolygon { points: Seq<ScreenPoint>, fill: Color, stroke: Stroke },
    Text { pos: ScreenPoint, anchor: Align2, text: Seq<char>, font_size: int, color: Color },
}

impl View for DrawCommand {
    type V = Primitive;

    open spec fn view(&self) -> Primitive {
        match *self {
            DrawCommand::RectFilled { center, side, rounding, color } => Primitive::RectFilled {
                center,
                side: side as int,
                rounding: rounding as int,
                color,
            },
            DrawCommand::CircleStroke { center, radius, stroke } => Primitive::CircleStroke {
                center,
                radius: radius as int,
                stroke,
            },
            DrawCommand::CircleFilled { center, radius, color } => Primitive::CircleFilled {
                center,
                radius: radius as int,
                color,
            },
            DrawCommand::LineSegment { from, to, stroke } => Primitive::LineSegment {
                from,
                to,
                stroke,
            },
            DrawCommand::Line { points, stroke } => Primitive::Line { points: points@, stroke },
            DrawCommand::ConvexPolygon { points, fill, stroke } => Primitive::ConvexPolygon {
                points: points@,
                fill,
                stroke,
            },
            DrawCommand::Text { pos, anchor, text, font_size, color } => Primitive::Text {
                pos,
                anchor,
                text: text@,
                font_size: font_size as int,
                color,
            },
        }
    }
}

/// The mathematical content of a sequence of draw commands.
pub open spec fn scene(commands: Seq<DrawCommand>) -> Seq<Primitive> {
    commands.map_values(|c: DrawCommand| c@)
}

} // verus!
