//! Selection and dragging driven by the pointer, and the frame that shows
//! the result.

use vstd::prelude::*;
use crate::component::Component;
use crate::draw::DrawOp;
use crate::registry::{
    first_index, lemma_first_index, lemma_first_index_found, lemma_first_index_missing,
    position_of, Registry,
};
use crate::shape::Shape;

verus! {

/// The position of the first shape that a press at `(x, y)` hits.
pub open spec fn first_hit(shapes: Seq<Shape>, x: int, y: int) -> Option<int> {
    first_index(shapes, |s: Shape| s.hit_by(x, y))
}

/// A shape as a press at `(x, y)` that hits it leaves it: selected, with
/// the handle under the pointer marked and the other one released.
pub open spec fn picked(shape: Shape, x: int, y: int) -> Shape {
    shape.with_selection(false).grabbed_at(x, y).with_selection(true)
}

/// The shapes after a press at `(x, y)`: the first one hit is picked, and
/// every other one is deselected.
pub open spec fn pressed(shapes: Seq<Shape>, x: int, y: int) -> Seq<Shape> {
    Seq::new(
        shapes.len(),
        |i: int|
            if first_hit(shapes, x, y) == Some(i) {
                picked(shapes[i], x, y)
            } else {
                shapes[i].with_selection(false)
            },
    )
}

/// The shapes after the pointer is let go: every one is deselected.
pub open spec fn released(shapes: Seq<Shape>) -> Seq<Shape> {
    Seq::new(shapes.len(), |i: int| shapes[i].with_selection(false))
}

/// The shapes after the pointer moves to `(x, y)` while `target` is being
/// dragged: the shape with that id has its marked handle there. Without a
/// target, or with one that is not held, nothing changes.
pub open spec fn dragged(shapes: Seq<Shape>, target: Option<u32>, x: i32, y: i32) -> Seq<Shape> {
    match target {
        Some(id) => match position_of(shapes, id) {
            Some(k) => shapes.update(k, shapes[k].dragged_to(x, y)),
            None => shapes,
        },
        None => shapes,
    }
}

/// The shapes after one press after another, at each of `presses` in
/// turn.
pub open spec fn pressed_in_turn(shapes: Seq<Shape>, presses: Seq<(int, int)>) -> Seq<Shape>
    decreases presses.len(),
{
    if presses.len() == 0 {
        shapes
    } else {
        pressed(pressed_in_turn(shapes, presses.drop_last()), presses.last().0, presses.last().1)
    }
}

/// How many of `shapes` are selected.
pub open spec fn selected_count(shapes: Seq<Shape>) -> nat
    decreases shapes.len(),
{
    if shapes.len() == 0 {
        0
    } else {
        selected_count(shapes.drop_last()) + (if shapes.last().spec_selected() {
            1nat
        } else {
            0nat
        })
    }
}

/// How many handles are marked, over all of `shapes`.
pub open spec fn marked_count(shapes: Seq<Shape>) -> nat
    decreases shapes.len(),
{
    if shapes.len() == 0 {
        0
    } else {
        marked_count(shapes.drop_last()) + shapes.last().marked_handles()
    }
}

/// Where every selected shape and every marked handle is at position
/// `k`, if anywhere, the counts are those of that one shape.
proof fn lemma_counts_of_one(shapes: Seq<Shape>, k: int)
    requires
        forall|i: int|
            0 <= i < shapes.len() && i != k ==> !(#[trigger] shapes[i]).spec_selected()
                && shapes[i].marked_handles() == 0,
    ensures
        selected_count(shapes) == (if 0 <= k < shapes.len() && shapes[k].spec_selected() {
            1nat
        } else {
            0nat
        }),
        marked_count(shapes) == (if 0 <= k < shapes.len() {
            shapes[k].marked_handles()
        } else {
            0nat
        }),
    decreases shapes.len(),
{
    if shapes.len() > 0 {
        let rest = shapes.drop_last();
        assert forall|i: int| 0 <= i < rest.len() && i != k implies !(#[trigger] rest[i]).spec_selected()
            && rest[i].marked_handles() == 0 by {
            assert(rest[i] == shapes[i]);
        }
        lemma_counts_of_one(rest, k);
        if 0 <= k < rest.len() {
            assert(rest[k] == shapes[k]);
        }
    }
}

/// After a press, at most one shape is selected and at most one handle
/// is marked, whatever was selected or marked before. Every shape is
/// where it was, under its id, and its flags agree.
pub proof fn lemma_press_selects_at_most_one(shapes: Seq<Shape>, x: int, y: int)
    ensures
        selected_count(pressed(shapes, x, y)) <= 1,
        marked_count(pressed(shapes, x, y)) <= 1,
        selected_count(pressed(shapes, x, y)) == 1 <==> first_hit(shapes, x, y).is_some(),
        pressed(shapes, x, y).len() == shapes.len(),
        forall|i: int|
            0 <= i < shapes.len() ==> {
                &&& (#[trigger] pressed(shapes, x, y)[i]).same_but_selection(shapes[i])
                &&& pressed(shapes, x, y)[i].consistent()
                &&& pressed(shapes, x, y)[i].spec_selected() == (first_hit(shapes, x, y) == Some(i))
            },
{
    let after = pressed(shapes, x, y);
    lemma_first_index(shapes, |s: Shape| s.hit_by(x, y));
    let k = match first_hit(shapes, x, y) {
        Some(k) => k,
        None => -1,
    };
    lemma_counts_of_one(after, k);
}

/// After any run of presses, at most one shape is selected and at most
/// one handle is marked. Of an empty run this holds only where it held of
/// the shapes to begin with.
pub proof fn lemma_presses_select_at_most_one(shapes: Seq<Shape>, presses: Seq<(int, int)>)
    requires
        presses.len() > 0 || (selected_count(shapes) <= 1 && marked_count(shapes) <= 1),
    ensures
        selected_count(pressed_in_turn(shapes, presses)) <= 1,
        marked_count(pressed_in_turn(shapes, presses)) <= 1,
        pressed_in_turn(shapes, presses).len() == shapes.len(),
    decreases presses.len(),
{
    if presses.len() > 0 {
        let earlier = pressed_in_turn(shapes, presses.drop_last());
        if presses.len() > 1 {
            lemma_presses_select_at_most_one(shapes, presses.drop_last());
        }
        lemma_press_selects_at_most_one(earlier, presses.last().0, presses.last().1);
        lemma_presses_keep_length(shapes, presses.drop_last());
    }
}

/// Presses neither add nor remove a shape.
proof fn lemma_presses_keep_length(shapes: Seq<Shape>, presses: Seq<(int, int)>)
    ensures
        pressed_in_turn(shapes, presses).len() == shapes.len(),
    decreases presses.len(),
{
    if presses.len() > 0 {
        lemma_presses_keep_length(shapes, presses.drop_last());
    }
}

/// After the pointer is let go, no shape is selected and no handle is
/// marked, however many shapes there are and whatever was selected
/// before. Every shape is where it was, under its id.
pub proof fn lemma_release_clears_all(shapes: Seq<Shape>)
    ensures
        released(shapes).len() == shapes.len(),
        forall|i: int|
            0 <= i < shapes.len() ==> {
                &&& !(#[trigger] released(shapes)[i]).spec_selected()
                &&& !released(shapes)[i].start().selected
                &&& !released(shapes)[i].end().selected
                &&& released(shapes)[i].same_but_selection(shapes[i])
            },
        selected_count(released(shapes)) == 0,
        marked_count(released(shapes)) == 0,
{
    lemma_counts_of_one(released(shapes), -1);
}

/// A drag changes at most the shape that is held, and of that shape
/// nothing but where its marked handle is.
pub proof fn lemma_drag_moves_one_handle(shapes: Seq<Shape>, target: Option<u32>, x: i32, y: i32)
    ensures
        dragged(shapes, target, x, y).len() == shapes.len(),
        forall|i: int|
            0 <= i < shapes.len() ==> {
                let before = #[trigger] shapes[i];
                let after = dragged(shapes, target, x, y)[i];
                if target.is_some() && position_of(shapes, target.unwrap()) == Some(i) {
                    &&& before.spec_id() == target.unwrap()
                    &&& after == before.dragged_to(x, y)
                } else {
                    after == before
                }
            },
        selected_count(dragged(shapes, target, x, y)) == selected_count(shapes),
        marked_count(dragged(shapes, target, x, y)) == marked_count(shapes),
{
    let after = dragged(shapes, target, x, y);
    if let Some(id) = target {
        lemma_first_index(shapes, |s: Shape| s.spec_id() == id);
    }
    lemma_same_flags_same_counts(shapes, after);
}

/// Shapes that agree, place by place, in their selection flags give the
/// same counts.
proof fn lemma_same_flags_same_counts(a: Seq<Shape>, b: Seq<Shape>)
    requires
        a.len() == b.len(),
        forall|i: int|
            0 <= i < a.len() ==> (#[trigger] a[i]).spec_selected() == b[i].spec_selected()
                && a[i].marked_handles() == b[i].marked_handles(),
    ensures
        selected_count(a) == selected_count(b),
        marked_count(a) == marked_count(b),
    decreases a.len(),
{
    if a.len() > 0 {
        let ra = a.drop_last();
        let rb = b.drop_last();
        assert forall|i: int| 0 <= i < ra.len() implies (#[trigger] ra[i]).spec_selected()
            == rb[i].spec_selected() && ra[i].marked_handles() == rb[i].marked_handles() by {
            assert(ra[i] == a[i]);
            assert(rb[i] == b[i]);
        }
        lemma_same_flags_same_counts(ra, rb);
        assert(a.last() == a[a.len() - 1]);
    }
}

/// The steps that draw all of `shapes`, first to last.
pub open spec fn display_all(shapes: Seq<Shape>) -> Seq<DrawOp>
    decreases shapes.len(),
{
    if shapes.len() == 0 {
        Seq::empty()
    } else {
        display_all(shapes.drop_last()) + shapes.last().display()
    }
}

/// The steps that draw a frame on a surface of the given size: erase it,
/// copy the cached background onto it, and draw the shapes on top.
pub open spec fn frame(width: u32, height: u32, shapes: Seq<Shape>) -> Seq<DrawOp> {
    seq![
        DrawOp::ClearRect { x: 0, y: 0, width, height },
        DrawOp::DrawCache { x: 0, y: 0 },
    ] + display_all(shapes)
}

/// The size of the drawing surface, and what the pointer holds: nothing
/// while idle, the shape with id `select_id` while dragging.
#[derive(Debug, PartialEq, Eq)]
pub struct FyRender {
    pub width: u32,
    pub height: u32,
    pub select_id: Option<u32>,
    pub mouse_pressed: bool,
}

impl FyRender {
    /// The id of the shape that a move of the pointer drags, if any.
    pub open spec fn drag_target(self) -> Option<u32> {
        if self.mouse_pressed {
            self.select_id
        } else {
            None
        }
    }

    /// An idle renderer for a surface of the given size.
    pub fn new(width: u32, height: u32) -> (render: Self)
        ensures
            render == (FyRender { width, height, select_id: None, mouse_pressed: false }),
    {
        Self { width, height, select_id: None, mouse_pressed: false }
    }

    /// The steps that draw a frame from the shapes as they are now.
    pub fn paint(&self, childs: &Registry) -> (ops: Vec<DrawOp>)
        ensures
            ops@ == frame(self.width, self.height, childs@),
    {
        let mut ops: Vec<DrawOp> = Vec::new();
        ops.push(DrawOp::ClearRect { x: 0, y: 0, width: self.width, height: self.height });
        ops.push(DrawOp::DrawCache { x: 0, y: 0 });
        let ghost head = ops@;
        let n = childs.len();
        let mut i: usize = 0;
        while i < n
            invariant
                i <= n,
                n == childs@.len(),
                ops@ == head + display_all(childs@.take(i as int)),
            decreases n - i,
        {
            if let Some(shape) = childs.shape_at(i) {
                let mut shape_ops = shape.paint();
                ops.append(&mut shape_ops);
            }
            proof {
                let upto = childs@.take(i + 1);
                assert(upto.drop_last() == childs@.take(i as int));
                assert(upto.last() == childs@[i as int]);
            }
            i += 1;
        }
        proof {
            assert(childs@.take(n as int) == childs@);
        }
        ops
    }

    /// The pointer went down at `(x, y)`. Whatever was held is let go;
    /// then the first shape that the press hits is picked and held, and
    /// every other shape is deselected.
    pub fn mouse_down(&mut self, childs: &mut Registry, x: i32, y: i32)
        ensures
            final(childs)@ == pressed(old(childs)@, x as int, y as int),
            final(self).select_id == match first_hit(old(childs)@, x as int, y as int) {
                Some(k) => Some(old(childs)@[k].spec_id()),
                None => None,
            },
            final(self).mouse_pressed == first_hit(old(childs)@, x as int, y as int).is_some(),
            final(self).width == old(self).width,
            final(self).height == old(self).height,
            selected_count(final(childs)@) <= 1,
            marked_count(final(childs)@) <= 1,
    {
        self.mouse_pressed = false;
        self.select_id = None;

        let ghost before = childs@;
        let ghost hit_here = |s: Shape| s.hit_by(x as int, y as int);
        let ghost mut taken: Option<int> = None;
        let n = childs.len();
        let mut i: usize = 0;
        while i < n
            invariant
                i <= n,
                n == before.len(),
                childs@.len() == n,
                hit_here == (|s: Shape| s.hit_by(x as int, y as int)),
                self.width == old(self).width,
                self.height == old(self).height,
                self.mouse_pressed == self.select_id.is_some(),
                self.select_id.is_some() == taken.is_some(),
                match taken {
                    Some(k) => {
                        &&& k < i
                        &&& crate::registry::is_first(before, hit_here, k)
                        &&& self.select_id == Some(before[k].spec_id())
                    },
                    None => forall|j: int| 0 <= j < i ==> !hit_here(#[trigger] before[j]),
                },
                forall|j: int|
                    0 <= j < i ==> #[trigger] childs@[j] == (if taken == Some(j) {
                        picked(before[j], x as int, y as int)
                    } else {
                        before[j].with_selection(false)
                    }),
                forall|j: int| i <= j < n ==> #[trigger] childs@[j] == before[j],
            decreases n - i,
        {
            childs.set_select_at(i, false);
            if self.select_id.is_none() && childs.try_select_at(i, x, y) {
                if let Some(shape) = childs.shape_at(i) {
                    self.select_id = Some(shape.id());
                }
                self.mouse_pressed = true;
                childs.set_select_at(i, true);
                proof {
                    taken = Some(i as int);
                }
            }
            i += 1;
        }
        proof {
            match taken {
                Some(k) => lemma_first_index_found(before, hit_here, k),
                None => lemma_first_index_missing(before, hit_here),
            }
            assert(childs@ =~= pressed(before, x as int, y as int));
            lemma_press_selects_at_most_one(before, x as int, y as int);
        }
    }

    /// The pointer moved to `(x, y)` with its button held. The shape that
    /// is held has its marked handle put there; if none is held, or the
    /// one that was is gone, nothing happens.
    pub fn mouse_move(&mut self, childs: &mut Registry, x: i32, y: i32)
        ensures
            *final(self) == *old(self),
            final(childs)@ == dragged(old(childs)@, old(self).drag_target(), x, y),
    {
        if self.mouse_pressed {
            if let Some(id) = self.select_id {
                if let Some(k) = childs.position(id) {
                    childs.update_mouse_at(k, x, y);
                }
            }
        }
    }

    /// The pointer was let go. Nothing is held any more and every shape
    /// is deselected, whichever one was dragged.
    pub fn mouse_up(&mut self, childs: &mut Registry, x: i32, y: i32)
        ensures
            final(childs)@ == released(old(childs)@),
            final(self).select_id is None,
            !final(self).mouse_pressed,
            final(self).width == old(self).width,
            final(self).height == old(self).height,
            selected_count(final(childs)@) == 0,
            marked_count(final(childs)@) == 0,
    {
        self.mouse_pressed = false;
        self.select_id = None;

        let ghost before = childs@;
        let n = childs.len();
        let mut i: usize = 0;
        while i < n
            invariant
                i <= n,
                n == before.len(),
                childs@.len() == n,
                forall|j: int| 0 <= j < i ==> #[trigger] childs@[j] == before[j].with_selection(false),
                forall|j: int| i <= j < n ==> #[trigger] childs@[j] == before[j],
            decreases n - i,
        {
            childs.set_select_at(i, false);
            i += 1;
        }
        proof {
            assert(childs@ =~= released(before));
            lemma_release_clears_all(before);
        }
    }
}

} // verus!
