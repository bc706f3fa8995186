//! The drawing steps that a frame is made of.
//!
//! Painting is split in two: the library lists the steps, as plain values,
//! and the host performs each one on its drawing surface, in order.

use vstd::prelude::*;

verus! {

/// One step on a 2-D drawing surface. Positions are in pixels from the
/// top-left corner of the surface.
#[derive(Debug, PartialEq, Eq)]
pub enum DrawOp {
    /// Erase the rectangle to transparent.
    ClearRect { x: i64, y: i64, width: u32, height: u32 },
    /// Copy the whole cache surface onto this one, its corner at `(x, y)`.
    DrawCache { x: i64, y: i64 },
    /// The colour of outlines drawn from now on.
    SetStrokeStyle(String),
    /// The colour of fills and text drawn from now on.
    SetFillStyle(String),
    /// The width of outlines drawn from now on.
    SetLineWidth(u32),
    /// Outline a rectangle.
    StrokeRect { x: i64, y: i64, width: u32, height: u32 },
    /// Fill a rectangle.
    FillRect { x: i64, y: i64, width: u32, height: u32 },
    /// Start a new path.
    BeginPath,
    /// Move the pen without drawing.
    MoveTo { x: i64, y: i64 },
    /// Add a straight segment from the pen to `(x, y)`.
    LineTo { x: i64, y: i64 },
    /// Add a full circle around `(x, y)`.
    Arc { x: i64, y: i64, radius: u32 },
    /// Outline the current path.
    Stroke,
    /// The baseline keyword for text drawn from now on.
    SetTextBaseline(&'static str),
    /// The alignment keyword for text drawn from now on.
    SetTextAlign(&'static str),
    /// The font of text drawn from now on.
    SetFont(String),
    /// Draw text anchored at `(x, y)`.
    FillText { text: String, x: i64, y: i64 },
}

} // verus!
