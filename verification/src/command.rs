//! The drawing command vocabulary: one variant per display primitive.
//!
//! A command is an immutable value carrying exactly the parameters needed
//! to replay one primitive against the display. The buffering logic never
//! looks inside the colour and geometry values; they are stored and
//! forwarded untouched.

use vstd::prelude::*;

verus! {

/// The colour and geometry primitives come from `bracket_color` and
/// `bracket_geometry`; this subsystem only stores and forwards them, so
/// they are declared as opaque value types.
#[verifier::external_type_specification]
#[verifier::external_body]
pub struct ExRgba(bracket_color::prelude::RGBA);

#[verifier::external_type_specification]
#[verifier::external_body]
pub struct ExColorPair(bracket_color::prelude::ColorPair);

#[verifier::external_type_specification]
#[verifier::external_body]
pub struct ExPoint(bracket_geometry::prelude::Point);

#[verifier::external_type_specification]
#[verifier::external_body]
pub struct ExRect(bracket_geometry::prelude::Rect);

/// Horizontal alignment for formatted text printed through `printer`.
#[derive(Clone, Copy, PartialEq, Eq, Structural, Debug)]
pub enum TextAlign {
    Left,
    Center,
    Right,
}

/// A buffered drawing command, to be applied to the display when the
/// frame's buffer is replayed.
///
/// Alpha channel values are carried as the bit pattern of an IEEE 754
/// single-precision number (`f32::to_bits` / `f32::from_bits`); the
/// buffering logic never interprets them.
#[derive(PartialEq, Debug)]
pub enum DrawCommand {
    ClearScreen,
    ClearToColor { color: bracket_color::prelude::RGBA },
    SetTarget { console: usize },
    SetGlyph { pos: bracket_geometry::prelude::Point, color: bracket_color::prelude::ColorPair, glyph: u8 },
    SetBackground { pos: bracket_geometry::prelude::Point, bg: bracket_color::prelude::RGBA },
    Print { pos: bracket_geometry::prelude::Point, text: String },
    PrintColor { pos: bracket_geometry::prelude::Point, text: String, color: bracket_color::prelude::ColorPair },
    PrintRight { pos: bracket_geometry::prelude::Point, text: String },
    PrintColorRight { pos: bracket_geometry::prelude::Point, text: String, color: bracket_color::prelude::ColorPair },
    PrintCentered { y: i32, text: String },
    PrintColorCentered { y: i32, text: String, color: bracket_color::prelude::ColorPair },
    PrintCenteredAt { pos: bracket_geometry::prelude::Point, text: String },
    PrintColorCenteredAt { pos: bracket_geometry::prelude::Point, text: String, color: bracket_color::prelude::ColorPair },
    Printer {
        pos: bracket_geometry::prelude::Point,
        text: String,
        align: TextAlign,
        background: Option<bracket_color::prelude::RGBA>,
    },
    Box { pos: bracket_geometry::prelude::Rect, color: bracket_color::prelude::ColorPair },
    HollowBox { pos: bracket_geometry::prelude::Rect, color: bracket_color::prelude::ColorPair },
    DoubleBox { pos: bracket_geometry::prelude::Rect, color: bracket_color::prelude::ColorPair },
    HollowDoubleBox { pos: bracket_geometry::prelude::Rect, color: bracket_color::prelude::ColorPair },
    FillRegion { pos: bracket_geometry::prelude::Rect, color: bracket_color::prelude::ColorPair, glyph: u8 },
    BarHorizontal {
        pos: bracket_geometry::prelude::Point,
        width: i32,
        n: i32,
        max: i32,
        color: bracket_color::prelude::ColorPair,
    },
    BarVertical {
        pos: bracket_geometry::prelude::Point,
        height: i32,
        n: i32,
        max: i32,
        color: bracket_color::prelude::ColorPair,
    },
    SetClipping { clip: Option<bracket_geometry::prelude::Rect> },
    SetFgAlpha { alpha: u32 },
    SetBgAlpha { alpha: u32 },
    SetAllAlpha { fg: u32, bg: u32 },
}

} // verus!
