//! The core of a small diagram editor: shapes with two draggable handles,
//! a registry of them, pointer-driven selection and dragging, and the list
//! of drawing steps that paints a frame.
//!
//! The host owns the drawing surfaces and the event sources. It hands
//! pointer events to a [`FyCanvas`], and performs the steps that
//! [`FyCanvas::paint`] lists whenever it redraws.

use vstd::prelude::*;

pub mod component;
pub mod draw;
pub mod registry;
pub mod render;
pub mod shape;

use crate::component::{
    CircleComponent, ComponentStyle, ControlPoint, LineComponent, Point, RectComponent,
};
use crate::draw::DrawOp;
use crate::registry::Registry;
use crate::render::{dragged, frame, pressed, released, first_hit, FyRender};
use crate::shape::Shape;

verus! {

/// The side of a handle's hit box in the sample shapes.
pub const SAMPLE_CONTROL_WIDTH: u32 = 8;

/// The width of a sample rectangle.
pub const SAMPLE_RECT_WIDTH: u32 = 200;

/// The height of a sample rectangle.
pub const SAMPLE_RECT_HEIGHT: u32 = 100;

/// Whether `style` is the one that the sample shapes are drawn in.
pub open spec fn is_sample_style(style: ComponentStyle) -> bool {
    &&& style.font@ == "16px serif"@
    &&& style.line_width == 2
    &&& style.line_color@ == "blue"@
    &&& style.line_focus_color@ == "red"@
    &&& style.control_line_width == 2
    &&& style.control_width == SAMPLE_CONTROL_WIDTH
    &&& style.control_line_color@ == "blue"@
    &&& style.control_fill_color@ == "red"@
}

/// Whether `c` is a handle of a sample shape at `(x, y)`.
pub open spec fn is_sample_control(c: ControlPoint, x: int, y: int) -> bool {
    c.point.x == x && c.point.y == y && c.width == SAMPLE_CONTROL_WIDTH && !c.selected
}

fn sample_style() -> (style: ComponentStyle)
    ensures
        is_sample_style(style),
{
    ComponentStyle {
        font: "16px serif".to_string(),
        line_width: 2,
        line_color: "blue".to_string(),
        line_focus_color: "red".to_string(),
        control_line_width: 2,
        control_width: SAMPLE_CONTROL_WIDTH,
        control_line_color: "blue".to_string(),
        control_fill_color: "red".to_string(),
    }
}

/// A sample rectangle, 200 by 100, with its start handle at `(x, y)` and
/// its end handle at the opposite corner.
pub fn test_create_rect_component(id: u32, x: i32, y: i32) -> (shape: Shape)
    requires
        x + SAMPLE_RECT_WIDTH <= i32::MAX,
        y + SAMPLE_RECT_HEIGHT <= i32::MAX,
    ensures
        shape matches Shape::Rect(r) && {
            &&& r.id == id
            &&& is_sample_style(r.style)
            &&& r.width == SAMPLE_RECT_WIDTH
            &&& r.height == SAMPLE_RECT_HEIGHT
            &&& r.title@ == "抓拍区域"@
            &&& is_sample_control(r.start_control, x as int, y as int)
            &&& is_sample_control(r.end_control, x + SAMPLE_RECT_WIDTH, y + SAMPLE_RECT_HEIGHT)
            &&& !r.selected
        },
{
    let width = SAMPLE_RECT_WIDTH;
    let height = SAMPLE_RECT_HEIGHT;
    let control_width = SAMPLE_CONTROL_WIDTH;
    Shape::Rect(
        RectComponent {
            id,
            style: sample_style(),
            width,
            height,
            start_control: ControlPoint { point: Point { x, y }, width: control_width, selected: false },
            end_control: ControlPoint {
                point: Point { x: x + width as i32, y: y + height as i32 },
                width: control_width,
                selected: false,
            },
            selected: false,
            title: "抓拍区域".to_string(),
        },
    )
}

/// A sample line from `(x1, y1)` to `(x2, y2)`.
pub fn test_create_line_component(id: u32, x1: i32, y1: i32, x2: i32, y2: i32) -> (shape: Shape)
    ensures
        shape matches Shape::Line(l) && {
            &&& l.id == id
            &&& is_sample_style(l.style)
            &&& l.title@ == "边界线"@
            &&& is_sample_control(l.start_control, x1 as int, y1 as int)
            &&& is_sample_control(l.end_control, x2 as int, y2 as int)
            &&& !l.selected
        },
{
    let control_width = SAMPLE_CONTROL_WIDTH;
    Shape::Line(
        LineComponent {
            id,
            style: sample_style(),
            title: "边界线".to_string(),
            start_control: ControlPoint {
                point: Point { x: x1, y: y1 },
                width: control_width,
                selected: false,
            },
            end_control: ControlPoint {
                point: Point { x: x2, y: y2 },
                width: control_width,
                selected: false,
            },
            selected: false,
        },
    )
}

/// A sample circle around `(x, y)`, with its end handle on the circle,
/// straight to the right of the centre.
pub fn test_create_circle_component(id: u32, x: i32, y: i32, radius: u32) -> (shape: Shape)
    requires
        x + radius <= i32::MAX,
    ensures
        shape matches Shape::Circle(c) && {
            &&& c.id == id
            &&& is_sample_style(c.style)
            &&& c.title@ == "圆形"@
            &&& is_sample_control(c.start_control, x as int, y as int)
            &&& is_sample_control(c.end_control, x + radius, y as int)
            &&& c.radius == radius
            &&& !c.selected
        },
{
    let control_width = SAMPLE_CONTROL_WIDTH;
    let end_x: i64 = x as i64 + radius as i64;
    Shape::Circle(
        CircleComponent {
            id,
            style: sample_style(),
            title: "圆形".to_string(),
            start_control: ControlPoint { point: Point { x, y }, width: control_width, selected: false },
            end_control: ControlPoint {
                point: Point { x: end_x as i32, y },
                width: control_width,
                selected: false,
            },
            radius,
            selected: false,
        },
    )
}

/// The side of the canvas that a background image reaches from edge to
/// edge once it is scaled, in proportion, to the largest size that fits.
#[derive(Debug, Copy, Clone, PartialEq, Eq)]
pub enum FitAxis {
    /// The image spans the canvas's width; the scale is the canvas's
    /// width over the image's.
    Width,
    /// The image spans the canvas's height; the scale is the canvas's
    /// height over the image's.
    Height,
}

/// Whether the image is wider for its height than the canvas is. The two
/// proportions are compared exactly, as cross products, so that a height
/// of zero needs no case of its own.
pub open spec fn wider_than_canvas(
    c_width: int,
    c_height: int,
    img_width: int,
    img_height: int,
) -> bool {
    img_width * c_height > c_width * img_height
}

proof fn lemma_product_fits(a: u32, b: u32)
    ensures
        0 <= a * b <= u64::MAX,
{
    assert(0 <= a * b <= 0xffff_ffff * 0xffff_ffff) by (nonlinear_arith)
        requires
            0 <= a <= 0xffff_ffff,
            0 <= b <= 0xffff_ffff,
    ;
}

/// Which side of a canvas of `c_width` by `c_height` an image of
/// `img_width` by `img_height` is fitted to: the width where the image is
/// the wider of the two in proportion, the height otherwise.
pub fn fit_axis(c_width: u32, c_height: u32, img_width: u32, img_height: u32) -> (axis: FitAxis)
    ensures
        axis == (if wider_than_canvas(
            c_width as int,
            c_height as int,
            img_width as int,
            img_height as int,
        ) {
            FitAxis::Width
        } else {
            FitAxis::Height
        }),
{
    proof {
        lemma_product_fits(img_width, c_height);
        lemma_product_fits(c_width, img_height);
    }
    let image: u64 = img_width as u64 * c_height as u64;
    let canvas: u64 = c_width as u64 * img_height as u64;
    if image > canvas {
        FitAxis::Width
    } else {
        FitAxis::Height
    }
}

/// An editor: the shapes of a diagram and what the pointer is doing with
/// them, for a canvas of a given size.
pub struct FyCanvas {
    pub height: u32,
    pub width: u32,
    pub render: FyRender,
    pub childs: Registry,
}

impl FyCanvas {
    /// An idle editor for a canvas of the given size, holding the two
    /// sample shapes: a rectangle under id 1 and a line under id 4.
    pub fn new(width: u32, height: u32) -> (canvas: Self)
        ensures
            canvas.width == width,
            canvas.height == height,
            canvas.render == (FyRender { width, height, select_id: None, mouse_pressed: false }),
            canvas.childs@.len() == 2,
            canvas.childs@[0] matches Shape::Rect(r) && {
                &&& r.id == 1
                &&& is_sample_style(r.style)
                &&& r.width == SAMPLE_RECT_WIDTH
                &&& r.height == SAMPLE_RECT_HEIGHT
                &&& r.title@ == "抓拍区域"@
                &&& is_sample_control(r.start_control, 100, 100)
                &&& is_sample_control(r.end_control, 300, 200)
                &&& !r.selected
            },
            canvas.childs@[1] matches Shape::Line(l) && {
                &&& l.id == 4
                &&& is_sample_style(l.style)
                &&& l.title@ == "边界线"@
                &&& is_sample_control(l.start_control, 210, 130)
                &&& is_sample_control(l.end_control, 110, 240)
                &&& !l.selected
            },
    {
        let mut childs = Registry::new();
        let component = test_create_rect_component(1, 100, 100);
        childs.insert(component);
        let component = test_create_line_component(4, 210, 130, 110, 240);
        proof {
            crate::registry::lemma_first_index(childs@, |s: Shape| s.spec_id() == 4u32);
        }
        childs.insert(component);
        FyCanvas { height, width, render: FyRender::new(width, height), childs }
    }

    /// The pointer went down at `(x, y)`, in pixels from the canvas's
    /// top-left corner. Returns whether the canvas is to be repainted,
    /// which it always is.
    pub fn on_pointer_down(&mut self, x: i32, y: i32) -> (repaint: bool)
        ensures
            repaint,
            final(self).childs@ == pressed(old(self).childs@, x as int, y as int),
            final(self).render.select_id == match first_hit(old(self).childs@, x as int, y as int) {
                Some(k) => Some(old(self).childs@[k].spec_id()),
                None => None,
            },
            final(self).render.mouse_pressed == first_hit(
                old(self).childs@,
                x as int,
                y as int,
            ).is_some(),
            final(self).render.width == old(self).render.width,
            final(self).render.height == old(self).render.height,
            final(self).width == old(self).width,
            final(self).height == old(self).height,
    {
        self.render.mouse_down(&mut self.childs, x, y);
        true
    }

    /// The pointer moved to `(x, y)`. Only a move with the primary button
    /// held counts: it drags what is held, and the canvas is to be
    /// repainted. Any other move changes nothing and asks for nothing.
    pub fn on_pointer_move(&mut self, x: i32, y: i32, primary_button_held: bool) -> (repaint: bool)
        ensures
            repaint == primary_button_held,
            final(self).childs@ == (if primary_button_held {
                dragged(old(self).childs@, old(self).render.drag_target(), x, y)
            } else {
                old(self).childs@
            }),
            final(self).render == old(self).render,
            final(self).width == old(self).width,
            final(self).height == old(self).height,
    {
        if primary_button_held {
            self.render.mouse_move(&mut self.childs, x, y);
            true
        } else {
            false
        }
    }

    /// The pointer was let go at `(x, y)`. Returns whether the canvas is
    /// to be repainted, which it always is.
    pub fn on_pointer_up(&mut self, x: i32, y: i32) -> (repaint: bool)
        ensures
            repaint,
            final(self).childs@ == released(old(self).childs@),
            final(self).render.select_id is None,
            !final(self).render.mouse_pressed,
            final(self).render.width == old(self).render.width,
            final(self).render.height == old(self).render.height,
            final(self).width == old(self).width,
            final(self).height == old(self).height,
    {
        self.render.mouse_up(&mut self.childs, x, y);
        true
    }

    /// The steps that draw a frame from the shapes as they are at the
    /// time of the call.
    pub fn paint(&self) -> (ops: Vec<DrawOp>)
        ensures
            ops@ == frame(self.render.width, self.render.height, self.childs@),
    {
        self.render.paint(&self.childs)
    }
}

} // verus!
