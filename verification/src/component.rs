//! Points, handles, styles and the three shapes built from them.

use vstd::prelude::*;
use crate::draw::DrawOp;
use crate::shape::Shape;

verus! {

/// The baseline keyword that titles are drawn with.
pub const TITLE_BASELINE: &'static str = "middle";

/// The alignment keyword that titles are drawn with. It is not one that
/// a canvas knows, so the surface keeps the alignment it had.
pub const TITLE_ALIGN: &'static str = "cetner";

/// How far, in pixels, the title of a rectangle or circle sits left of and
/// below its anchor.
pub const TITLE_OFFSET: i64 = 16;

/// How far, in pixels, the title of a line sits right of and below its
/// anchor.
pub const LINE_TITLE_OFFSET: i64 = 4;

/// How a shape is drawn: the font of its title, and the widths and colours
/// of its outline and of its handles. Shapes hold a copy each and never
/// change it in place.
#[derive(Debug, PartialEq, Eq)]
pub struct ComponentStyle {
    pub font: String,
    pub line_width: u32,
    pub line_color: String,
    pub line_focus_color: String,
    pub control_line_width: u32,
    pub control_width: u32,
    pub control_line_color: String,
    pub control_fill_color: String,
}

impl Clone for ComponentStyle {
    fn clone(&self) -> (copy: Self)
        ensures
            copy == *self,
    {
        ComponentStyle {
            font: self.font.clone(),
            line_width: self.line_width,
            line_color: self.line_color.clone(),
            line_focus_color: self.line_focus_color.clone(),
            control_line_width: self.control_line_width,
            control_width: self.control_width,
            control_line_color: self.control_line_color.clone(),
            control_fill_color: self.control_fill_color.clone(),
        }
    }
}

/// A position on the canvas, in pixels, with the origin at the top left.
#[derive(Debug, Copy, Clone, PartialEq, Eq)]
pub struct Point {
    pub x: i32,
    pub y: i32,
}

/// A draggable handle of a shape: where it sits, how wide its square
/// hit box is, and whether it is the handle being dragged.
#[derive(Debug, Copy, Clone, PartialEq, Eq)]
pub struct ControlPoint {
    pub point: Point,
    pub width: u32,
    pub selected: bool,
}

impl ControlPoint {
    /// Half the side of the hit box, rounded down.
    pub open spec fn reach(self) -> int {
        self.width as int / 2
    }

    /// Whether `(x, y)` lies in the closed square of side `2 * reach()`
    /// centred on the handle.
    pub open spec fn covers(self, x: int, y: int) -> bool {
        &&& self.point.x - self.reach() <= x <= self.point.x + self.reach()
        &&& self.point.y - self.reach() <= y <= self.point.y + self.reach()
    }

    /// This handle, marked as the one being dragged.
    pub open spec fn grabbed(self) -> ControlPoint {
        ControlPoint { selected: true, ..self }
    }

    /// This handle, no longer marked.
    pub open spec fn released(self) -> ControlPoint {
        ControlPoint { selected: false, ..self }
    }

    /// This handle, put at `(x, y)`.
    pub open spec fn moved_to(self, x: i32, y: i32) -> ControlPoint {
        ControlPoint { point: Point { x, y }, ..self }
    }

    /// A handle at `(x, y)` that is not selected.
    pub fn new(x: i32, y: i32, width: u32) -> (cp: Self)
        ensures
            cp == (ControlPoint { point: Point { x, y }, width, selected: false }),
    {
        Self { point: Point { x, y }, width, selected: false }
    }

    /// Hit test: whether the pointer at `(x, y)` is on this handle.
    pub fn can_select(&self, x: i32, y: i32) -> (hit: bool)
        ensures
            hit == self.covers(x as int, y as int),
    {
        let half: i64 = (self.width / 2) as i64;
        let left: i64 = self.point.x as i64 - half;
        let right: i64 = self.point.x as i64 + half;
        let top: i64 = self.point.y as i64 - half;
        let bottom: i64 = self.point.y as i64 + half;
        let px: i64 = x as i64;
        let py: i64 = y as i64;
        px >= left && px <= right && py >= top && py <= bottom
    }

    /// The steps that draw the handle: a filled square with an outline,
    /// centred as the hit box is.
    pub open spec fn display(self, style: ComponentStyle) -> Seq<DrawOp> {
        let left = self.point.x - self.reach();
        let top = self.point.y - self.reach();
        seq![
            DrawOp::SetLineWidth(style.control_line_width),
            DrawOp::SetFillStyle(style.control_fill_color),
            DrawOp::FillRect { x: left as i64, y: top as i64, width: self.width, height: self.width },
            DrawOp::SetStrokeStyle(style.control_line_color),
            DrawOp::StrokeRect { x: left as i64, y: top as i64, width: self.width, height: self.width },
        ]
    }

    /// Appends the steps that draw the handle to `ops`.
    pub fn paint(&self, style: &ComponentStyle, ops: &mut Vec<DrawOp>)
        ensures
            final(ops)@ == old(ops)@ + self.display(*style),
    {
        let half: i64 = (self.width / 2) as i64;
        let left: i64 = self.point.x as i64 - half;
        let top: i64 = self.point.y as i64 - half;
        ops.push(DrawOp::SetLineWidth(style.control_line_width));
        ops.push(DrawOp::SetFillStyle(style.control_fill_color.clone()));
        ops.push(DrawOp::FillRect { x: left, y: top, width: self.width, height: self.width });
        ops.push(DrawOp::SetStrokeStyle(style.control_line_color.clone()));
        ops.push(DrawOp::StrokeRect { x: left, y: top, width: self.width, height: self.width });
    }
}

/// The hit box is a closed square: each of its four corners is on the
/// handle, and the point one pixel beyond the middle of any side is not.
pub proof fn lemma_hit_box_inclusive(cp: ControlPoint)
    ensures
        cp.covers(cp.point.x + cp.reach(), cp.point.y + cp.reach()),
        cp.covers(cp.point.x + cp.reach(), cp.point.y - cp.reach()),
        cp.covers(cp.point.x - cp.reach(), cp.point.y + cp.reach()),
        cp.covers(cp.point.x - cp.reach(), cp.point.y - cp.reach()),
        !cp.covers(cp.point.x + cp.reach() + 1, cp.point.y as int),
        !cp.covers(cp.point.x - cp.reach() - 1, cp.point.y as int),
        !cp.covers(cp.point.x as int, cp.point.y + cp.reach() + 1),
        !cp.covers(cp.point.x as int, cp.point.y - cp.reach() - 1),
{
}

/// Half of `d`, rounded toward zero.
pub open spec fn half_toward_zero(d: int) -> int {
    if d >= 0 {
        d / 2
    } else {
        -((-d) / 2)
    }
}

/// The point halfway from `a` to `b` on one axis; an odd distance is
/// halved toward `a`.
pub open spec fn midpoint(a: int, b: int) -> int {
    a + half_toward_zero(b - a)
}

/// Computes `midpoint(a, b)`.
pub fn midpoint_of(a: i32, b: i32) -> (m: i64)
    ensures
        m == midpoint(a as int, b as int),
{
    let d: i64 = b as i64 - a as i64;
    if d >= 0 {
        a as i64 + d / 2
    } else {
        a as i64 - (-d) / 2
    }
}

/// The steps that draw a title anchored at `(x, y)`.
pub open spec fn title_display(style: ComponentStyle, title: String, x: int, y: int) -> Seq<DrawOp> {
    seq![
        DrawOp::SetFillStyle(style.line_color),
        DrawOp::SetTextBaseline(TITLE_BASELINE),
        DrawOp::SetTextAlign(TITLE_ALIGN),
        DrawOp::SetFont(style.font),
        DrawOp::FillText { text: title, x: x as i64, y: y as i64 },
    ]
}

/// Appends the steps that draw a title anchored at `(x, y)` to `ops`.
pub fn paint_title(style: &ComponentStyle, title: &String, x: i64, y: i64, ops: &mut Vec<DrawOp>)
    ensures
        final(ops)@ == old(ops)@ + title_display(*style, *title, x as int, y as int),
{
    ops.push(DrawOp::SetFillStyle(style.line_color.clone()));
    ops.push(DrawOp::SetTextBaseline(TITLE_BASELINE));
    ops.push(DrawOp::SetTextAlign(TITLE_ALIGN));
    ops.push(DrawOp::SetFont(style.font.clone()));
    ops.push(DrawOp::FillText { text: title.clone(), x, y });
}

/// What every shape can do, whichever of the three it is. What each
/// operation means is said once, for all three, by the spec functions of
/// [`Shape`] that the contracts name.
pub trait Component: Sized {
    /// This component as one of the three shapes.
    spec fn shape(&self) -> Shape;

    /// The key under which the registry holds the shape.
    fn id(&self) -> (id: u32)
        ensures
            id == self.shape().spec_id(),
    ;

    /// A number that tells the three kinds of shape apart.
    fn type_id(&self) -> (kind: u32)
        ensures
            kind == self.shape().spec_type_id(),
    ;

    /// A copy of the shape's style.
    fn style(&self) -> (style: ComponentStyle)
        ensures
            style == self.shape().spec_style(),
    ;

    /// Puts the handle that is being dragged at `(x, y)`: the start
    /// handle if it is marked, else the end handle if that is. A circle
    /// stays as it is.
    fn update_mouse(&mut self, x: i32, y: i32)
        ensures
            final(self).shape() == old(self).shape().dragged_to(x, y),
    ;

    /// The steps that draw the shape: outline, both handles, title.
    fn paint(&self) -> (ops: Vec<DrawOp>)
        ensures
            ops@ == self.shape().display(),
    ;

    /// Tests the start handle, then the end handle, against the pointer
    /// at `(x, y)`, marks the first one hit and says whether one was. A
    /// miss changes nothing. A circle reports a hit wherever the pointer
    /// is, and marks nothing.
    fn try_select(&mut self, x: i32, y: i32) -> (hit: bool)
        ensures
            hit == old(self).shape().hit_by(x as int, y as int),
            final(self).shape() == old(self).shape().grabbed_at(x as int, y as int),
    ;

    /// Whether the shape is the selected one.
    fn selected(&self) -> (s: bool)
        ensures
            s == self.shape().spec_selected(),
    ;

    /// Selects or deselects the shape. Deselecting it releases both of
    /// its handles as well.
    fn set_select(&mut self, s: bool)
        ensures
            final(self).shape() == old(self).shape().with_selection(s),
    ;
}

/// A rectangle of fixed size, with a handle at each of two opposite
/// corners.
#[derive(Debug, PartialEq, Eq)]
pub struct RectComponent {
    pub id: u32,
    pub style: ComponentStyle,
    pub width: u32,
    pub height: u32,
    pub title: String,
    pub start_control: ControlPoint,
    pub end_control: ControlPoint,
    pub selected: bool,
}

impl RectComponent {
    /// The corner nearest the origin of the box that the two handles span.
    pub open spec fn top_left(self) -> (int, int) {
        let start = self.start_control.point;
        let end = self.end_control.point;
        (
            if start.x >= end.x { end.x as int } else { start.x as int },
            if start.y >= end.y { end.y as int } else { start.y as int },
        )
    }

    /// Where the title is anchored before its offset: on the top edge,
    /// half the width in from the left.
    pub open spec fn title_anchor(self) -> (int, int) {
        (self.top_left().0 + self.width as int / 2, self.top_left().1)
    }

    /// Computes `top_left()`.
    fn lt_point(&self) -> (p: (i64, i64))
        ensures
            p.0 == self.top_left().0,
            p.1 == self.top_left().1,
    {
        let start = self.start_control.point;
        let end = self.end_control.point;
        match (start.x >= end.x, start.y >= end.y) {
            (false, false) => (start.x as i64, start.y as i64),
            (true, true) => (end.x as i64, end.y as i64),
            (true, false) => (end.x as i64, start.y as i64),
            (false, true) => (start.x as i64, end.y as i64),
        }
    }

    /// Computes `title_anchor()`.
    pub fn title_position(&self) -> (p: (i64, i64))
        ensures
            p.0 == self.title_anchor().0,
            p.1 == self.title_anchor().1,
    {
        let (x, y) = self.lt_point();
        (x + (self.width / 2) as i64, y)
    }
}

impl Component for RectComponent {
    open spec fn shape(&self) -> Shape {
        Shape::Rect(*self)
    }

    fn id(&self) -> (id: u32) {
        self.id
    }

    fn type_id(&self) -> (kind: u32) {
        4
    }

    fn style(&self) -> (style: ComponentStyle) {
        self.style.clone()
    }

    fn update_mouse(&mut self, x: i32, y: i32) {
        if self.start_control.selected {
            self.start_control.point.x = x;
            self.start_control.point.y = y;
        } else if self.end_control.selected {
            self.end_control.point.x = x;
            self.end_control.point.y = y;
        }
    }

    fn paint(&self) -> (ops: Vec<DrawOp>) {
        let mut ops: Vec<DrawOp> = Vec::new();
        ops.push(DrawOp::SetStrokeStyle(self.style.line_color.clone()));
        ops.push(DrawOp::SetLineWidth(self.style.line_width));
        let (lt_x, lt_y) = self.lt_point();
        ops.push(DrawOp::StrokeRect { x: lt_x, y: lt_y, width: self.width, height: self.height });
        self.start_control.paint(&self.style, &mut ops);
        self.end_control.paint(&self.style, &mut ops);
        let (title_x, title_y) = self.title_position();
        paint_title(&self.style, &self.title, title_x - TITLE_OFFSET, title_y + TITLE_OFFSET, &mut ops);
        ops
    }

    fn try_select(&mut self, x: i32, y: i32) -> (hit: bool) {
        if self.start_control.can_select(x, y) {
            self.start_control.selected = true;
            return true;
        }
        if self.end_control.can_select(x, y) {
            self.end_control.selected = true;
            return true;
        }
        false
    }

    fn selected(&self) -> (s: bool) {
        self.selected
    }

    fn set_select(&mut self, s: bool) {
        self.selected = s;
        if !self.selected {
            self.start_control.selected = false;
            self.end_control.selected = false;
        }
    }
}

/// A straight segment from one handle to the other.
#[derive(Debug, PartialEq, Eq)]
pub struct LineComponent {
    pub id: u32,
    pub style: ComponentStyle,
    pub title: String,
    pub start_control: ControlPoint,
    pub end_control: ControlPoint,
    pub selected: bool,
}

impl LineComponent {
    /// Where the title is anchored before its offset: the middle of the
    /// segment.
    pub open spec fn title_anchor(self) -> (int, int) {
        (
            midpoint(self.start_control.point.x as int, self.end_control.point.x as int),
            midpoint(self.start_control.point.y as int, self.end_control.point.y as int),
        )
    }

    /// Computes `title_anchor()`.
    pub fn title_position(&self) -> (p: (i64, i64))
        ensures
            p.0 == self.title_anchor().0,
            p.1 == self.title_anchor().1,
    {
        let x = midpoint_of(self.start_control.point.x, self.end_control.point.x);
        let y = midpoint_of(self.start_control.point.y, self.end_control.point.y);
        (x, y)
    }
}

impl Component for LineComponent {
    open spec fn shape(&self) -> Shape {
        Shape::Line(*self)
    }

    fn id(&self) -> (id: u32) {
        self.id
    }

    fn type_id(&self) -> (kind: u32) {
        1
    }

    fn style(&self) -> (style: ComponentStyle) {
        self.style.clone()
    }

    fn update_mouse(&mut self, x: i32, y: i32) {
        if self.start_control.selected {
            self.start_control.point.x = x;
            self.start_control.point.y = y;
        } else if self.end_control.selected {
            self.end_control.point.x = x;
            self.end_control.point.y = y;
        }
    }

    fn paint(&self) -> (ops: Vec<DrawOp>) {
        let mut ops: Vec<DrawOp> = Vec::new();
        ops.push(DrawOp::SetStrokeStyle(self.style.line_color.clone()));
        ops.push(DrawOp::SetLineWidth(self.style.line_width));
        ops.push(DrawOp::BeginPath);
        ops.push(
            DrawOp::MoveTo {
                x: self.start_control.point.x as i64,
                y: self.start_control.point.y as i64,
            },
        );
        ops.push(
            DrawOp::LineTo { x: self.end_control.point.x as i64, y: self.end_control.point.y as i64 },
        );
        ops.push(DrawOp::Stroke);
        self.start_control.paint(&self.style, &mut ops);
        self.end_control.paint(&self.style, &mut ops);
        let (title_x, title_y) = self.title_position();
        paint_title(
            &self.style,
            &self.title,
            title_x + LINE_TITLE_OFFSET,
            title_y + LINE_TITLE_OFFSET,
            &mut ops,
        );
        ops
    }

    fn try_select(&mut self, x: i32, y: i32) -> (hit: bool) {
        if self.start_control.can_select(x, y) {
            self.start_control.selected = true;
            return true;
        }
        if self.end_control.can_select(x, y) {
            self.end_control.selected = true;
            return true;
        }
        false
    }

    fn selected(&self) -> (s: bool) {
        self.selected
    }

    fn set_select(&mut self, s: bool) {
        self.selected = s;
        if !self.selected {
            self.start_control.selected = false;
            self.end_control.selected = false;
        }
    }
}

/// A circle around its start handle. Its handles are drawn but cannot be
/// picked or dragged: a press anywhere counts as a hit on the circle and
/// marks no handle, and a drag leaves it where it is.
#[derive(Debug, PartialEq, Eq)]
pub struct CircleComponent {
    pub id: u32,
    pub style: ComponentStyle,
    pub title: String,
    pub start_control: ControlPoint,
    pub end_control: ControlPoint,
    pub radius: u32,
    pub selected: bool,
}

impl CircleComponent {
    /// Where the title is anchored before its offset: halfway between the
    /// two handles.
    pub open spec fn title_anchor(self) -> (int, int) {
        (
            midpoint(self.start_control.point.x as int, self.end_control.point.x as int),
            midpoint(self.start_control.point.y as int, self.end_control.point.y as int),
        )
    }

    /// Computes `title_anchor()`.
    pub fn title_position(&self) -> (p: (i64, i64))
        ensures
            p.0 == self.title_anchor().0,
            p.1 == self.title_anchor().1,
    {
        let x = midpoint_of(self.start_control.point.x, self.end_control.point.x);
        let y = midpoint_of(self.start_control.point.y, self.end_control.point.y);
        (x, y)
    }
}

impl Component for CircleComponent {
    open spec fn shape(&self) -> Shape {
        Shape::Circle(*self)
    }

    fn id(&self) -> (id: u32) {
        self.id
    }

    fn type_id(&self) -> (kind: u32) {
        2
    }

    fn style(&self) -> (style: ComponentStyle) {
        self.style.clone()
    }

    fn update_mouse(&mut self, x: i32, y: i32) {
    }

    fn paint(&self) -> (ops: Vec<DrawOp>) {
        let mut ops: Vec<DrawOp> = Vec::new();
        ops.push(DrawOp::SetStrokeStyle(self.style.line_color.clone()));
        ops.push(DrawOp::SetLineWidth(self.style.line_width));
        ops.push(DrawOp::BeginPath);
        ops.push(
            DrawOp::Arc {
                x: self.start_control.point.x as i64,
                y: self.start_control.point.y as i64,
                radius: self.radius,
            },
        );
        ops.push(DrawOp::Stroke);
        self.start_control.paint(&self.style, &mut ops);
        self.end_control.paint(&self.style, &mut ops);
        let (title_x, title_y) = self.title_position();
        paint_title(
            &self.style,
            &self.title,
            title_x - TITLE_OFFSET,
            title_y + TITLE_OFFSET,
            &mut ops,
        );
        ops
    }

    fn try_select(&mut self, x: i32, y: i32) -> (hit: bool) {
        true
    }

    fn selected(&self) -> (s: bool) {
        self.selected
    }

    fn set_select(&mut self, s: bool) {
        self.selected = s;
        if !self.selected {
            self.start_control.selected = false;
            self.end_control.selected = false;
        }
    }
}

} // verus!
