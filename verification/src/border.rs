//! The walls that keep a boid in.

use vstd::prelude::*;
use crate::scalar::Scalar;

verus! {

/// One of the three axes of space.
#[derive(Clone, Copy, Debug, PartialEq, Eq, Structural)]
pub enum Axis {
    X,
    Y,
    Z,
}

/// The way a wall pushes along its axis.
#[derive(Clone, Copy, Debug, PartialEq, Eq, Structural)]
pub enum Push {
    /// Towards greater coordinates.
    Positive,
    /// Towards lesser coordinates.
    Negative,
}

/// One of the six sides on which a border can have a wall.
#[derive(Clone, Copy, Debug, PartialEq, Eq, Structural)]
pub enum BorderFace {
    Left,
    Right,
    Top,
    Bottom,
    Front,
    Back,
}

impl BorderFace {
    /// The axis that the wall stands across.
    pub open spec fn spec_axis(&self) -> Axis {
        match self {
            BorderFace::Left | BorderFace::Right => Axis::X,
            BorderFace::Top | BorderFace::Bottom => Axis::Y,
            BorderFace::Front | BorderFace::Back => Axis::Z,
        }
    }

    /// The way the wall pushes: the left, bottom and front walls towards
    /// greater coordinates, the right, top and back walls towards lesser.
    pub open spec fn spec_push(&self) -> Push {
        match self {
            BorderFace::Left | BorderFace::Bottom | BorderFace::Front => Push::Positive,
            BorderFace::Right | BorderFace::Top | BorderFace::Back => Push::Negative,
        }
    }

    /// Whether a boid at `coordinate` on the wall's axis is inside the
    /// wall's margin, which ends at `edge`: on the wall's side of the edge,
    /// and not on the edge itself.
    pub open spec fn spec_entered(&self, coordinate: Scalar, edge: Scalar) -> bool {
        match self.spec_push() {
            Push::Positive => coordinate.spec_lt(edge),
            Push::Negative => coordinate.spec_gt(edge),
        }
    }

    /// The axis that the wall stands across.
    pub fn axis(&self) -> (result: Axis)
        ensures
            result == self.spec_axis(),
    {
        match self {
            BorderFace::Left | BorderFace::Right => Axis::X,
            BorderFace::Top | BorderFace::Bottom => Axis::Y,
            BorderFace::Front | BorderFace::Back => Axis::Z,
        }
    }

    /// The way the wall pushes.
    pub fn push(&self) -> (result: Push)
        ensures
            result == self.spec_push(),
    {
        match self {
            BorderFace::Left | BorderFace::Bottom | BorderFace::Front => Push::Positive,
            BorderFace::Right | BorderFace::Top | BorderFace::Back => Push::Negative,
        }
    }

    /// Whether a boid at `coordinate` on the wall's axis is inside the
    /// wall's margin, which ends at `edge`.
    pub fn entered(&self, coordinate: Scalar, edge: Scalar) -> (result: bool)
        ensures
            result == self.spec_entered(coordinate, edge),
    {
        match self.push() {
            Push::Positive => coordinate.lt(edge),
            Push::Negative => coordinate.gt(edge),
        }
    }
}

/// A boid on the very edge of a margin is not inside it, so that the wall
/// does not push it; nor is one whose place is not a number.
pub proof fn lemma_the_edge_is_outside_the_margin(face: BorderFace, coordinate: Scalar, edge: Scalar)
    ensures
        !face.spec_entered(edge, edge),
        coordinate.rank() == edge.rank() ==> !face.spec_entered(coordinate, edge),
        coordinate.spec_is_nan() || edge.spec_is_nan() ==> !face.spec_entered(coordinate, edge),
{
}

/// The two walls across one axis push against each other.
pub proof fn lemma_opposite_walls_push_against_each_other(first: BorderFace, second: BorderFace)
    requires
        first != second,
        first.spec_axis() == second.spec_axis(),
    ensures
        first.spec_push() != second.spec_push(),
{
}

/// A wall of a border: the side it is on, where it stands on its axis, and
/// how far in front of it a boid starts to turn.
#[derive(Clone, Copy, Debug)]
pub struct Wall {
    pub face: BorderFace,
    pub point: Scalar,
    pub margin: Scalar,
}

/// The border that a boid should stay within.
///
/// Each side is optional, to allow for any border you want. The pair of a
/// side is (point, margin): the point on the axis where the wall stands, and
/// the distance from it at which the boid starts to turn. With a smaller
/// margin, raise the `border` weight of the boid.
#[derive(Clone, Copy, Debug)]
pub struct BoidBorder {
    pub top: Option<(Scalar, Scalar)>,
    pub bottom: Option<(Scalar, Scalar)>,
    pub left: Option<(Scalar, Scalar)>,
    pub right: Option<(Scalar, Scalar)>,
    pub front: Option<(Scalar, Scalar)>,
    pub back: Option<(Scalar, Scalar)>,
}

/// The wall on the given side, where the side has one.
pub open spec fn wall_of(face: BorderFace, side: Option<(Scalar, Scalar)>) -> Option<Wall> {
    match side {
        Some((point, margin)) => Some(Wall { face, point, margin }),
        None => None,
    }
}

/// The wall, if there is one, as a sequence of one or none.
pub open spec fn listed(wall: Option<Wall>) -> Seq<Wall> {
    match wall {
        Some(wall) => seq![wall],
        None => Seq::empty(),
    }
}

impl BoidBorder {
    /// The border with no wall at all.
    pub open spec fn spec_open() -> BoidBorder {
        BoidBorder { top: None, bottom: None, left: None, right: None, front: None, back: None }
    }

    /// The wall on the given side, where the border has one.
    pub open spec fn spec_wall(&self, face: BorderFace) -> Option<Wall> {
        match face {
            BorderFace::Left => wall_of(face, self.left),
            BorderFace::Right => wall_of(face, self.right),
            BorderFace::Top => wall_of(face, self.top),
            BorderFace::Bottom => wall_of(face, self.bottom),
            BorderFace::Front => wall_of(face, self.front),
            BorderFace::Back => wall_of(face, self.back),
        }
    }

    /// The walls of the border in the order in which their pushes are added
    /// up: left, right, top, bottom, front, back.
    pub open spec fn spec_walls(&self) -> Seq<Wall> {
        listed(self.spec_wall(BorderFace::Left)) + listed(self.spec_wall(BorderFace::Right))
            + listed(self.spec_wall(BorderFace::Top)) + listed(self.spec_wall(BorderFace::Bottom))
            + listed(self.spec_wall(BorderFace::Front)) + listed(self.spec_wall(BorderFace::Back))
    }

    /// The wall on the given side, where the border has one.
    pub fn wall(&self, face: BorderFace) -> (result: Option<Wall>)
        ensures
            result == self.spec_wall(face),
    {
        let side = match face {
            BorderFace::Left => self.left,
            BorderFace::Right => self.right,
            BorderFace::Top => self.top,
            BorderFace::Bottom => self.bottom,
            BorderFace::Front => self.front,
            BorderFace::Back => self.back,
        };
        match side {
            Some((point, margin)) => Some(Wall { face, point, margin }),
            None => None,
        }
    }

    /// The walls of the border, in the order in which their pushes are
    /// added up. A side without a wall is left out.
    pub fn walls(&self) -> (result: Vec<Wall>)
        ensures
            result@ == self.spec_walls(),
    {
        let mut result: Vec<Wall> = Vec::new();
        self.list(&mut result, BorderFace::Left);
        self.list(&mut result, BorderFace::Right);
        self.list(&mut result, BorderFace::Top);
        self.list(&mut result, BorderFace::Bottom);
        self.list(&mut result, BorderFace::Front);
        self.list(&mut result, BorderFace::Back);
        result
    }

    fn list(&self, walls: &mut Vec<Wall>, face: BorderFace)
        ensures
            final(walls)@ == old(walls)@ + listed(self.spec_wall(face)),
    {
        match self.wall(face) {
            Some(wall) => {
                walls.push(wall);
            },
            None => {},
        }
    }
}

/// The walls of a border are its sides that have one, each once: a side
/// without a wall pushes nobody.
pub proof fn lemma_walls_are_the_sides_that_have_one(border: BoidBorder, face: BorderFace)
    ensures
        border.spec_walls().len() <= 6,
        border.spec_wall(face) matches Some(wall) ==> border.spec_walls().contains(wall),
        border.spec_wall(face) is None ==> forall|k: int|
            0 <= k < border.spec_walls().len() ==> (#[trigger] border.spec_walls()[k]).face != face,
        forall|k: int, l: int|
            0 <= k < l < border.spec_walls().len() ==> (#[trigger] border.spec_walls()[k]).face != (
            #[trigger] border.spec_walls()[l]).face,
{
    let left = listed(border.spec_wall(BorderFace::Left));
    let right = listed(border.spec_wall(BorderFace::Right));
    let top = listed(border.spec_wall(BorderFace::Top));
    let bottom = listed(border.spec_wall(BorderFace::Bottom));
    let front = listed(border.spec_wall(BorderFace::Front));
    let back = listed(border.spec_wall(BorderFace::Back));
    let walls = border.spec_walls();
    assert(walls == left + right + top + bottom + front + back);
    let at_right = left.len() as int;
    let at_top = at_right + right.len();
    let at_bottom = at_top + top.len();
    let at_front = at_bottom + bottom.len();
    let at_back = at_front + front.len();
    assert forall|k: int| 0 <= k < walls.len() implies {
        let found = #[trigger] walls[k];
        &&& border.spec_wall(found.face) == Some(found)
        &&& k == match found.face {
            BorderFace::Left => 0,
            BorderFace::Right => at_right,
            BorderFace::Top => at_top,
            BorderFace::Bottom => at_bottom,
            BorderFace::Front => at_front,
            BorderFace::Back => at_back,
        }
    } by {
        if k < at_right {
            assert(walls[k] == left[k]);
        } else if k < at_top {
            assert(walls[k] == right[k - at_right]);
        } else if k < at_bottom {
            assert(walls[k] == top[k - at_top]);
        } else if k < at_front {
            assert(walls[k] == bottom[k - at_bottom]);
        } else if k < at_back {
            assert(walls[k] == front[k - at_front]);
        } else {
            assert(walls[k] == back[k - at_back]);
        }
    }
    if border.spec_wall(face) is Some {
        let wall = border.spec_wall(face).unwrap();
        let at = match face {
            BorderFace::Left => 0,
            BorderFace::Right => at_right,
            BorderFace::Top => at_top,
            BorderFace::Bottom => at_bottom,
            BorderFace::Front => at_front,
            BorderFace::Back => at_back,
        };
        assert(0 <= at < walls.len());
        assert(border.spec_wall(walls[at].face) == Some(walls[at]));
        assert(walls[at].face == face) by {
            match face {
                BorderFace::Left => assert(walls[at] == left[0]),
                BorderFace::Right => assert(walls[at] == right[0]),
                BorderFace::Top => assert(walls[at] == top[0]),
                BorderFace::Bottom => assert(walls[at] == bottom[0]),
                BorderFace::Front => assert(walls[at] == front[0]),
                BorderFace::Back => assert(walls[at] == back[0]),
            }
        }
        assert(walls[at] == wall);
    }
}

impl Default for BoidBorder {
    /// The border with no wall at all.
    fn default() -> (result: BoidBorder)
        ensures
            result == BoidBorder::spec_open(),
    {
        BoidBorder { top: None, bottom: None, left: None, right: None, front: None, back: None }
    }
}

} // verus!
