//! The grid: the rectangles of a run of depths, as line segments.
use vstd::prelude::*;
use crate::perspective::{Perspective, PerspectiveView, Position, PositionView};
use crate::ratio::{Exact, Ratio};

verus! {

/// The number of rectangles that make the grid where nothing else is asked
/// for.
pub const DEFAULT_LEVELS: u16 = 10;

/// A point on the screen.
#[derive(Clone, Copy, Debug)]
pub struct Point {
    pub x: Exact,
    pub y: Exact,
}

/// A line segment on the screen.
#[derive(Clone, Copy, Debug)]
pub struct Segment {
    pub start: Point,
    pub end: Point,
}

impl View for Point {
    type V = (real, real);

    open spec fn view(&self) -> (real, real) {
        (self.x@, self.y@)
    }
}

impl View for Segment {
    type V = ((real, real), (real, real));

    open spec fn view(&self) -> ((real, real), (real, real)) {
        (self.start@, self.end@)
    }
}

impl Segment {
    /// Every coordinate of the segment has a positive denominator.
    pub open spec fn wf(self) -> bool {
        &&& self.start.x.den > 0
        &&& self.start.y.den > 0
        &&& self.end.x.den > 0
        &&& self.end.y.den > 0
    }
}

impl PositionView {
    /// The four sides of the rectangle: the top edge, the right edge, the
    /// bottom edge and the left edge. The horizontal ones run from left to
    /// right, the vertical ones from top to bottom.
    pub open spec fn outline(self) -> Seq<((real, real), (real, real))> {
        seq![
            ((self.left, self.top), (self.right, self.top)),
            ((self.right, self.top), (self.right, self.bottom)),
            ((self.left, self.bottom), (self.right, self.bottom)),
            ((self.left, self.top), (self.left, self.bottom)),
        ]
    }
}

impl PerspectiveView {
    /// The grid of `levels` rectangles: the outlines of the rectangles at
    /// the depths 0, 1, 2 and so on, one after the other.
    pub open spec fn grid(self, levels: nat) -> Seq<((real, real), (real, real))> {
        Seq::new(4 * levels, |i: int| self.project((i / 4) as real).outline()[i % 4])
    }
}

impl Position {
    /// The four sides of the rectangle, as `PositionView::outline` orders
    /// and directs them.
    pub fn outline(&self) -> (sides: [Segment; 4])
        ensures
            sides@.map_values(|s: Segment| s@) == self@.outline(),
            self.wf() ==> forall|i: int| 0 <= i < 4 ==> (#[trigger] sides@[i]).wf(),
    {
        let top_left = Point { x: self.left, y: self.top };
        let top_right = Point { x: self.right, y: self.top };
        let bottom_left = Point { x: self.left, y: self.bottom };
        let bottom_right = Point { x: self.right, y: self.bottom };
        let sides = [
            Segment { start: top_left, end: top_right },
            Segment { start: top_right, end: bottom_right },
            Segment { start: bottom_left, end: bottom_right },
            Segment { start: top_left, end: bottom_left },
        ];
        assert(sides@.map_values(|s: Segment| s@) =~= self@.outline());
        sides
    }
}

impl Perspective {
    /// The line segments of the grid of `levels` rectangles, in the order in
    /// which they are to be drawn. The zoom factor must not be zero.
    pub fn lines(&self, levels: u16) -> (mesh: Vec<Segment>)
        requires
            self@.scale != 0real,
        ensures
            mesh@.map_values(|s: Segment| s@) == self@.grid(levels as nat),
            forall|i: int| 0 <= i < mesh@.len() ==> (#[trigger] mesh@[i]).wf(),
    {
        let mut mesh: Vec<Segment> = Vec::new();
        let mut depth: u16 = 0;
        while depth < levels
            invariant
                self@.scale != 0real,
                depth <= levels,
                mesh@.map_values(|s: Segment| s@) == self@.grid(depth as nat),
                forall|i: int| 0 <= i < mesh@.len() ==> (#[trigger] mesh@[i]).wf(),
            decreases levels - depth,
        {
            let position = self.dimensions_at_depth(Ratio::whole(depth as i32));
            let sides = position.outline();
            let ghost before = mesh@;
            mesh.push(sides[0]);
            mesh.push(sides[1]);
            mesh.push(sides[2]);
            mesh.push(sides[3]);
            proof {
                let drawn = mesh@.map_values(|s: Segment| s@);
                let grid = self@.grid((depth + 1) as nat);
                assert(before.len() == before.map_values(|s: Segment| s@).len() == 4 * depth);
                assert(drawn.len() == grid.len());
                assert forall|i: int| 0 <= i < drawn.len() implies drawn[i] == grid[i] by {
                    if i < 4 * depth {
                        assert(drawn[i] == before.map_values(|s: Segment| s@)[i]);
                        assert(self@.grid(depth as nat)[i] == grid[i]);
                    } else {
                        assert(i / 4 == depth && i % 4 == i - 4 * depth);
                        assert(drawn[i] == sides@.map_values(|s: Segment| s@)[i - 4 * depth]);
                    }
                }
                assert(drawn =~= grid);
                assert forall|i: int| 0 <= i < mesh@.len() implies (#[trigger] mesh@[i]).wf() by {
                    if i < 4 * depth {
                        assert(mesh@[i] == before[i]);
                    } else {
                        assert(mesh@[i] == sides@[i - 4 * depth]);
                    }
                }
            }
            depth += 1;
        }
        mesh
    }
}

} // verus!
