//! The three kinds of shape as one type, and what each operation on a
//! shape means.

use vstd::prelude::*;
use crate::component::{
    title_display, CircleComponent, Component, ComponentStyle, ControlPoint, LineComponent, Point,
    RectComponent, LINE_TITLE_OFFSET, TITLE_OFFSET,
};
use crate::draw::DrawOp;

verus! {

/// A shape of the diagram.
#[derive(Debug, PartialEq, Eq)]
pub enum Shape {
    Rect(RectComponent),
    Line(LineComponent),
    Circle(CircleComponent),
}

impl Shape {
    /// The key under which the registry holds the shape.
    pub open spec fn spec_id(self) -> u32 {
        match self {
            Shape::Rect(r) => r.id,
            Shape::Line(l) => l.id,
            Shape::Circle(c) => c.id,
        }
    }

    /// The number that stands for the kind of shape.
    pub open spec fn spec_type_id(self) -> u32 {
        match self {
            Shape::Rect(_) => 4,
            Shape::Line(_) => 1,
            Shape::Circle(_) => 2,
        }
    }

    /// The style that the shape is drawn in.
    pub open spec fn spec_style(self) -> ComponentStyle {
        match self {
            Shape::Rect(r) => r.style,
            Shape::Line(l) => l.style,
            Shape::Circle(c) => c.style,
        }
    }

    /// Whether the shape is the selected one.
    pub open spec fn spec_selected(self) -> bool {
        match self {
            Shape::Rect(r) => r.selected,
            Shape::Line(l) => l.selected,
            Shape::Circle(c) => c.selected,
        }
    }

    /// The start handle.
    pub open spec fn start(self) -> ControlPoint {
        match self {
            Shape::Rect(r) => r.start_control,
            Shape::Line(l) => l.start_control,
            Shape::Circle(c) => c.start_control,
        }
    }

    /// The end handle.
    pub open spec fn end(self) -> ControlPoint {
        match self {
            Shape::Rect(r) => r.end_control,
            Shape::Line(l) => l.end_control,
            Shape::Circle(c) => c.end_control,
        }
    }

    /// This shape with `c` as its start handle and nothing else changed.
    pub open spec fn with_start(self, c: ControlPoint) -> Shape {
        match self {
            Shape::Rect(r) => Shape::Rect(RectComponent { start_control: c, ..r }),
            Shape::Line(l) => Shape::Line(LineComponent { start_control: c, ..l }),
            Shape::Circle(o) => Shape::Circle(CircleComponent { start_control: c, ..o }),
        }
    }

    /// This shape with `c` as its end handle and nothing else changed.
    pub open spec fn with_end(self, c: ControlPoint) -> Shape {
        match self {
            Shape::Rect(r) => Shape::Rect(RectComponent { end_control: c, ..r }),
            Shape::Line(l) => Shape::Line(LineComponent { end_control: c, ..l }),
            Shape::Circle(o) => Shape::Circle(CircleComponent { end_control: c, ..o }),
        }
    }

    /// This shape with its own selection flag set to `s` and nothing else
    /// changed.
    pub open spec fn with_flag(self, s: bool) -> Shape {
        match self {
            Shape::Rect(r) => Shape::Rect(RectComponent { selected: s, ..r }),
            Shape::Line(l) => Shape::Line(LineComponent { selected: s, ..l }),
            Shape::Circle(c) => Shape::Circle(CircleComponent { selected: s, ..c }),
        }
    }

    /// Whether the shape's handles can be picked and dragged. Those of a
    /// circle cannot.
    pub open spec fn has_live_handles(self) -> bool {
        !(self is Circle)
    }

    /// Whether a press at `(x, y)` counts as a hit on the shape: on one of
    /// its handles, or anywhere at all for a circle.
    pub open spec fn hit_by(self, x: int, y: int) -> bool {
        !self.has_live_handles() || self.start().covers(x, y) || self.end().covers(x, y)
    }

    /// The shape after a hit test at `(x, y)`: the first handle under the
    /// pointer, start before end, is marked; no other handle changes.
    pub open spec fn grabbed_at(self, x: int, y: int) -> Shape {
        if !self.has_live_handles() {
            self
        } else if self.start().covers(x, y) {
            self.with_start(self.start().grabbed())
        } else if self.end().covers(x, y) {
            self.with_end(self.end().grabbed())
        } else {
            self
        }
    }

    /// The shape after a drag to `(x, y)`: the marked handle, start before
    /// end, sits at `(x, y)`.
    pub open spec fn dragged_to(self, x: i32, y: i32) -> Shape {
        if !self.has_live_handles() {
            self
        } else if self.start().selected {
            self.with_start(self.start().moved_to(x, y))
        } else if self.end().selected {
            self.with_end(self.end().moved_to(x, y))
        } else {
            self
        }
    }

    /// The shape after its selection is set to `s`: deselecting releases
    /// both handles, selecting leaves them as they are.
    pub open spec fn with_selection(self, s: bool) -> Shape {
        if s {
            self.with_flag(true)
        } else {
            self.with_flag(false).with_start(self.start().released()).with_end(
                self.end().released(),
            )
        }
    }

    /// Whether the shape's flags agree: a shape that is not selected has
    /// no marked handle.
    pub open spec fn consistent(self) -> bool {
        !self.spec_selected() ==> !self.start().selected && !self.end().selected
    }

    /// Whether `other` is this shape but for its three selection flags.
    pub open spec fn same_but_selection(self, other: Shape) -> bool {
        other.with_flag(self.spec_selected()).with_start(
            ControlPoint { selected: self.start().selected, ..other.start() },
        ).with_end(ControlPoint { selected: self.end().selected, ..other.end() }) == self
    }

    /// How many of the shape's two handles are marked.
    pub open spec fn marked_handles(self) -> nat {
        (if self.start().selected {
            1nat
        } else {
            0nat
        }) + (if self.end().selected {
            1nat
        } else {
            0nat
        })
    }

    /// The steps that set the outline's colour and width and draw it.
    pub open spec fn outline(self) -> Seq<DrawOp> {
        seq![
            DrawOp::SetStrokeStyle(self.spec_style().line_color),
            DrawOp::SetLineWidth(self.spec_style().line_width),
        ] + match self {
            Shape::Rect(r) => seq![
                DrawOp::StrokeRect {
                    x: r.top_left().0 as i64,
                    y: r.top_left().1 as i64,
                    width: r.width,
                    height: r.height,
                },
            ],
            Shape::Line(l) => seq![
                DrawOp::BeginPath,
                DrawOp::MoveTo { x: l.start_control.point.x as i64, y: l.start_control.point.y as i64 },
                DrawOp::LineTo { x: l.end_control.point.x as i64, y: l.end_control.point.y as i64 },
                DrawOp::Stroke,
            ],
            Shape::Circle(c) => seq![
                DrawOp::BeginPath,
                DrawOp::Arc {
                    x: c.start_control.point.x as i64,
                    y: c.start_control.point.y as i64,
                    radius: c.radius,
                },
                DrawOp::Stroke,
            ],
        }
    }

    /// The steps that draw the title, at its anchor moved by the offset of
    /// its kind of shape.
    pub open spec fn caption(self) -> Seq<DrawOp> {
        match self {
            Shape::Rect(r) => title_display(
                r.style,
                r.title,
                r.title_anchor().0 - TITLE_OFFSET,
                r.title_anchor().1 + TITLE_OFFSET,
            ),
            Shape::Line(l) => title_display(
                l.style,
                l.title,
                l.title_anchor().0 + LINE_TITLE_OFFSET,
                l.title_anchor().1 + LINE_TITLE_OFFSET,
            ),
            Shape::Circle(c) => title_display(
                c.style,
                c.title,
                c.title_anchor().0 - TITLE_OFFSET,
                c.title_anchor().1 + TITLE_OFFSET,
            ),
        }
    }

    /// The steps that draw the shape: its outline, its start handle, its
    /// end handle, its title.
    pub open spec fn display(self) -> Seq<DrawOp> {
        self.outline() + self.start().display(self.spec_style()) + self.end().display(
            self.spec_style(),
        ) + self.caption()
    }
}

/// Deselecting a shape releases both of its handles, whatever they were
/// before, and changes nothing but the three flags.
pub proof fn lemma_deselect_cascades(shape: Shape)
    ensures
        !shape.with_selection(false).spec_selected(),
        !shape.with_selection(false).start().selected,
        !shape.with_selection(false).end().selected,
        shape.with_selection(false).consistent(),
        shape.with_selection(false).same_but_selection(shape),
{
}

/// Selecting a shape sets its own flag and leaves everything else,
/// its handles' marks included, as it was.
pub proof fn lemma_select_keeps_handles(shape: Shape)
    ensures
        shape.with_selection(true).spec_selected(),
        shape.with_selection(true).start() == shape.start(),
        shape.with_selection(true).end() == shape.end(),
        shape.with_selection(true).consistent(),
        shape.with_selection(true).same_but_selection(shape),
{
}

/// Dragging a rectangle or a line whose start handle is marked puts
/// that handle exactly at the pointer and leaves the end handle, and all
/// else, as it was.
pub proof fn lemma_drag_snaps_start(shape: Shape, x: i32, y: i32)
    requires
        shape.has_live_handles(),
        shape.start().selected,
    ensures
        shape.dragged_to(x, y).start().point == (Point { x, y }),
        shape.dragged_to(x, y).end() == shape.end(),
        shape.dragged_to(x, y) == shape.with_start(shape.start().moved_to(x, y)),
{
}

/// Dragging a rectangle or a line whose end handle alone is marked puts
/// that handle exactly at the pointer and leaves the start handle, and
/// all else, as it was.
pub proof fn lemma_drag_snaps_end(shape: Shape, x: i32, y: i32)
    requires
        shape.has_live_handles(),
        !shape.start().selected,
        shape.end().selected,
    ensures
        shape.dragged_to(x, y).end().point == (Point { x, y }),
        shape.dragged_to(x, y).start() == shape.start(),
        shape.dragged_to(x, y) == shape.with_end(shape.end().moved_to(x, y)),
{
}

/// A drag moves nothing where no handle is marked, and never moves a
/// circle.
pub proof fn lemma_drag_without_grip(shape: Shape, x: i32, y: i32)
    requires
        !shape.has_live_handles() || (!shape.start().selected && !shape.end().selected),
    ensures
        shape.dragged_to(x, y) == shape,
{
}

/// A hit test marks at most the one handle that it reports, and only on
/// a hit; it moves nothing and does not touch the shape's own flag.
pub proof fn lemma_hit_marks_one_handle(shape: Shape, x: int, y: int)
    ensures
        !shape.hit_by(x, y) ==> shape.grabbed_at(x, y) == shape,
        shape.grabbed_at(x, y).same_but_selection(shape),
        shape.grabbed_at(x, y).spec_selected() == shape.spec_selected(),
        shape.marked_handles() == 0 ==> shape.grabbed_at(x, y).marked_handles() == (if shape.hit_by(
            x,
            y,
        ) && shape.has_live_handles() {
            1nat
        } else {
            0nat
        }),
{
}

impl Component for Shape {
    open spec fn shape(&self) -> Shape {
        *self
    }

    fn id(&self) -> (id: u32) {
        match self {
            Shape::Rect(r) => r.id(),
            Shape::Line(l) => l.id(),
            Shape::Circle(c) => c.id(),
        }
    }

    fn type_id(&self) -> (kind: u32) {
        match self {
            Shape::Rect(r) => r.type_id(),
            Shape::Line(l) => l.type_id(),
            Shape::Circle(c) => c.type_id(),
        }
    }

    fn style(&self) -> (style: ComponentStyle) {
        match self {
            Shape::Rect(r) => r.style(),
            Shape::Line(l) => l.style(),
            Shape::Circle(c) => c.style(),
        }
    }

    fn update_mouse(&mut self, x: i32, y: i32) {
        match self {
            Shape::Rect(r) => r.update_mouse(x, y),
            Shape::Line(l) => l.update_mouse(x, y),
            Shape::Circle(c) => c.update_mouse(x, y),
        }
    }

    fn paint(&self) -> (ops: Vec<DrawOp>) {
        match self {
            Shape::Rect(r) => r.paint(),
            Shape::Line(l) => l.paint(),
            Shape::Circle(c) => c.paint(),
        }
    }

    fn try_select(&mut self, x: i32, y: i32) -> (hit: bool) {
        match self {
            Shape::Rect(r) => r.try_select(x, y),
            Shape::Line(l) => l.try_select(x, y),
            Shape::Circle(c) => c.try_select(x, y),
        }
    }

    fn selected(&self) -> (s: bool) {
        match self {
            Shape::Rect(r) => r.selected(),
            Shape::Line(l) => l.selected(),
            Shape::Circle(c) => c.selected(),
        }
    }

    fn set_select(&mut self, s: bool) {
        match self {
            Shape::Rect(r) => r.set_select(s),
            Shape::Line(l) => l.set_select(s),
            Shape::Circle(c) => c.set_select(s),
        }
    }
}

} // verus!
