//! The shapes of a diagram, each under its own id, in the order in which
//! they were added.

use vstd::prelude::*;
use crate::component::Component;
use crate::shape::Shape;

verus! {

/// Whether no two of `shapes` have the same id.
pub open spec fn distinct_ids(shapes: Seq<Shape>) -> bool {
    forall|i: int, j: int|
        0 <= i < j < shapes.len() ==> (#[trigger] shapes[i]).spec_id() != (#[trigger] shapes[j]).spec_id()
}

/// Whether `k` is the position of the first of `shapes` that is `wanted`.
pub open spec fn is_first(shapes: Seq<Shape>, wanted: spec_fn(Shape) -> bool, k: int) -> bool {
    &&& 0 <= k < shapes.len()
    &&& wanted(shapes[k])
    &&& forall|j: int| 0 <= j < k ==> !wanted(#[trigger] shapes[j])
}

/// The position of the first of `shapes` that is `wanted`, if there is one.
pub open spec fn first_index(shapes: Seq<Shape>, wanted: spec_fn(Shape) -> bool) -> Option<int> {
    if exists|k: int| is_first(shapes, wanted, k) {
        Some(choose|k: int| is_first(shapes, wanted, k))
    } else {
        None
    }
}

/// The first wanted shape is where `first_index` says, and nowhere else.
pub proof fn lemma_first_index_found(shapes: Seq<Shape>, wanted: spec_fn(Shape) -> bool, k: int)
    requires
        is_first(shapes, wanted, k),
    ensures
        first_index(shapes, wanted) == Some(k),
{
    let chosen = choose|k: int| is_first(shapes, wanted, k);
    assert(is_first(shapes, wanted, chosen));
    if chosen < k {
        assert(!wanted(shapes[chosen]));
    }
    if k < chosen {
        assert(!wanted(shapes[k]));
    }
}

/// Where no shape is wanted, `first_index` finds none.
pub proof fn lemma_first_index_missing(shapes: Seq<Shape>, wanted: spec_fn(Shape) -> bool)
    requires
        forall|j: int| 0 <= j < shapes.len() ==> !wanted(#[trigger] shapes[j]),
    ensures
        first_index(shapes, wanted) is None,
{
}

/// A wanted shape at `j` means that there is a first one, at `j` or before.
proof fn lemma_first_exists(shapes: Seq<Shape>, wanted: spec_fn(Shape) -> bool, j: int)
    requires
        0 <= j < shapes.len(),
        wanted(shapes[j]),
    ensures
        exists|k: int| is_first(shapes, wanted, k),
    decreases j,
{
    if exists|i: int| 0 <= i < j && wanted(#[trigger] shapes[i]) {
        let i = choose|i: int| 0 <= i < j && wanted(#[trigger] shapes[i]);
        lemma_first_exists(shapes, wanted, i);
    } else {
        assert(is_first(shapes, wanted, j));
    }
}

/// What `first_index` finds is the first wanted shape, and it finds none
/// only where no shape is wanted.
pub proof fn lemma_first_index(shapes: Seq<Shape>, wanted: spec_fn(Shape) -> bool)
    ensures
        match first_index(shapes, wanted) {
            Some(k) => is_first(shapes, wanted, k),
            None => forall|j: int| 0 <= j < shapes.len() ==> !wanted(#[trigger] shapes[j]),
        },
{
    if first_index(shapes, wanted) is None {
        assert forall|j: int| 0 <= j < shapes.len() implies !wanted(#[trigger] shapes[j]) by {
            if wanted(shapes[j]) {
                lemma_first_exists(shapes, wanted, j);
            }
        }
    }
}

/// The position of the shape with the given id, if there is one.
pub open spec fn position_of(shapes: Seq<Shape>, id: u32) -> Option<int> {
    first_index(shapes, |s: Shape| s.spec_id() == id)
}

/// The shapes of a diagram. No two have the same id, and a shape keeps
/// its place for as long as it is held.
#[derive(Debug)]
pub struct Registry {
    shapes: Vec<Shape>,
}

impl View for Registry {
    type V = Seq<Shape>;

    closed spec fn view(&self) -> Seq<Shape> {
        self.shapes@
    }
}

impl Registry {
    /// What holds of every registry: its ids are distinct.
    #[verifier::type_invariant]
    pub open spec fn wf(self) -> bool {
        distinct_ids(self@)
    }

    /// A registry that holds nothing.
    pub fn new() -> (registry: Self)
        ensures
            registry@ == Seq::<Shape>::empty(),
    {
        Registry { shapes: Vec::new() }
    }

    /// How many shapes are held.
    pub fn len(&self) -> (n: usize)
        ensures
            n == self@.len(),
            self.wf(),
    {
        proof {
            use_type_invariant(&*self);
        }
        self.shapes.len()
    }

    /// Where the shape with the given id is held.
    pub fn position(&self, id: u32) -> (found: Option<usize>)
        ensures
            match found {
                Some(k) => position_of(self@, id) == Some(k as int),
                None => position_of(self@, id) is None,
            },
    {
        let ghost wanted = |s: Shape| s.spec_id() == id;
        let n = self.shapes.len();
        let mut i: usize = 0;
        while i < n
            invariant
                i <= n,
                n == self.shapes@.len(),
                forall|j: int| 0 <= j < i ==> !wanted(#[trigger] self.shapes@[j]),
                wanted == (|s: Shape| s.spec_id() == id),
            decreases n - i,
        {
            if self.shapes[i].id() == id {
                proof {
                    lemma_first_index_found(self@, wanted, i as int);
                }
                return Some(i);
            }
            i += 1;
        }
        proof {
            lemma_first_index_missing(self@, wanted);
        }
        None
    }

    /// The shape with the given id.
    pub fn get(&self, id: u32) -> (found: Option<&Shape>)
        ensures
            match position_of(self@, id) {
                Some(k) => found == Some(&self@[k]),
                None => found is None,
            },
    {
        match self.position(id) {
            Some(k) => Some(&self.shapes[k]),
            None => None,
        }
    }

    /// The shape at `index`, counting from the one that was added first.
    pub fn shape_at(&self, index: usize) -> (found: Option<&Shape>)
        ensures
            found == (if index < self@.len() {
                Some(&self@[index as int])
            } else {
                None
            }),
    {
        if index < self.shapes.len() {
            Some(&self.shapes[index])
        } else {
            None
        }
    }

    /// Puts `shape` under its id. Where a shape with that id is held
    /// already, the new one takes its place and the old one is handed
    /// back; otherwise the new one goes last.
    pub fn insert(&mut self, shape: Shape) -> (replaced: Option<Shape>)
        ensures
            match position_of(old(self)@, shape.spec_id()) {
                Some(k) => final(self)@ == old(self)@.update(k, shape) && replaced == Some(
                    old(self)@[k],
                ),
                None => final(self)@ == old(self)@.push(shape) && replaced is None,
            },
    {
        proof {
            use_type_invariant(&*self);
        }
        let found = self.position(shape.id());
        proof {
            lemma_first_index(self@, |s: Shape| s.spec_id() == shape.spec_id());
        }
        let mut shapes: Vec<Shape> = Vec::new();
        std::mem::swap(&mut shapes, &mut self.shapes);
        let replaced = match found {
            Some(k) => {
                shapes.push(shape);
                Some(shapes.swap_remove(k))
            },
            None => {
                shapes.push(shape);
                None
            },
        };
        self.shapes = shapes;
        replaced
    }

    /// Selects or deselects the shape at `index`.
    pub fn set_select_at(&mut self, index: usize, s: bool)
        requires
            index < old(self)@.len(),
        ensures
            final(self)@ == old(self)@.update(
                index as int,
                old(self)@[index as int].with_selection(s),
            ),
    {
        proof {
            use_type_invariant(&*self);
        }
        let mut shapes: Vec<Shape> = Vec::new();
        std::mem::swap(&mut shapes, &mut self.shapes);
        shapes[index].set_select(s);
        self.shapes = shapes;
    }

    /// Hit-tests the shape at `index` against the pointer at `(x, y)`.
    pub fn try_select_at(&mut self, index: usize, x: i32, y: i32) -> (hit: bool)
        requires
            index < old(self)@.len(),
        ensures
            hit == old(self)@[index as int].hit_by(x as int, y as int),
            final(self)@ == old(self)@.update(
                index as int,
                old(self)@[index as int].grabbed_at(x as int, y as int),
            ),
    {
        proof {
            use_type_invariant(&*self);
        }
        let mut shapes: Vec<Shape> = Vec::new();
        std::mem::swap(&mut shapes, &mut self.shapes);
        let hit = shapes[index].try_select(x, y);
        self.shapes = shapes;
        hit
    }

    /// Drags the marked handle of the shape at `index` to `(x, y)`.
    pub fn update_mouse_at(&mut self, index: usize, x: i32, y: i32)
        requires
            index < old(self)@.len(),
        ensures
            final(self)@ == old(self)@.update(index as int, old(self)@[index as int].dragged_to(x, y)),
    {
        proof {
            use_type_invariant(&*self);
        }
        let mut shapes: Vec<Shape> = Vec::new();
        std::mem::swap(&mut shapes, &mut self.shapes);
        shapes[index].update_mouse(x, y);
        self.shapes = shapes;
    }
}

} // verus!
