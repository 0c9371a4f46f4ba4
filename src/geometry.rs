use vstd::prelude::*;

verus! {

/// A cell of the grid, or a cell of the sprite sheet: column `x`, row `y`.
#[derive(Debug, Clone, Copy, PartialEq, Eq, Structural, Default)]
pub struct Vec2 {
    pub x: usize,
    pub y: usize,
}

/// A step between cells.
#[derive(Debug, Clone, Copy, PartialEq, Eq, Structural)]
pub struct IVec2 {
    pub x: isize,
    pub y: isize,
}

pub fn vec2(x: usize, y: usize) -> (v: Vec2)
    ensures
        v == (Vec2 { x, y }),
{
    Vec2 { x, y }
}

pub fn ivec2(x: isize, y: isize) -> (v: IVec2)
    ensures
        v == (IVec2 { x, y }),
{
    IVec2 { x, y }
}

/// A coordinate moved by a step, if the result is still a `usize`.
pub open spec fn shifted(c: usize, d: isize) -> Option<usize> {
    let r = c + d;
    if 0 <= r <= usize::MAX {
        Some(r as usize)
    } else {
        None
    }
}

fn shift_coordinate(c: usize, d: isize) -> (r: Option<usize>)
    ensures
        r == shifted(c, d),
{
    if d >= 0 {
        c.checked_add(d as usize)
    } else {
        let back: usize = ((-(d + 1)) as usize) + 1;
        if back <= c {
            Some(c - back)
        } else {
            None
        }
    }
}

impl Vec2 {
    pub open spec fn spec_checked_add(self, step: IVec2) -> Option<Vec2> {
        match (shifted(self.x, step.x), shifted(self.y, step.y)) {
            (Some(x), Some(y)) => Some(Vec2 { x, y }),
            _ => None,
        }
    }

    /// The cell one step away, or `None` where a coordinate would leave the
    /// range of `usize` (off the top or the left of any grid).
    #[verifier::when_used_as_spec(spec_checked_add)]
    pub fn checked_add(self, step: IVec2) -> (r: Option<Vec2>)
        ensures
            r == self.spec_checked_add(step),
    {
        let x = shift_coordinate(self.x, step.x);
        let y = shift_coordinate(self.y, step.y);
        match (x, y) {
            (Some(x), Some(y)) => Some(Vec2 { x, y }),
            _ => None,
        }
    }
}

/// The four directions the player can face and move in.
#[derive(Debug, Clone, Copy, PartialEq, Eq, Structural, Hash)]
pub enum Direction {
    Up,
    Down,
    Left,
    Right,
}

impl Direction {
    /// The step one cell in this direction; rows grow downwards.
    pub open spec fn step(self) -> IVec2 {
        match self {
            Direction::Up => IVec2 { x: 0, y: -1isize },
            Direction::Down => IVec2 { x: 0, y: 1 },
            Direction::Left => IVec2 { x: -1isize, y: 0 },
            Direction::Right => IVec2 { x: 1, y: 0 },
        }
    }
}

impl From<Direction> for IVec2 {
    fn from(value: Direction) -> (v: IVec2)
        ensures
            v == value.step(),
    {
        match value {
            Direction::Up => ivec2(0, -1),
            Direction::Down => ivec2(0, 1),
            Direction::Left => ivec2(-1, 0),
            Direction::Right => ivec2(1, 0),
        }
    }
}

impl vstd::std_specs::convert::FromSpecImpl<Direction> for IVec2 {
    open spec fn obeys_from_spec() -> bool {
        true
    }

    open spec fn from_spec(value: Direction) -> IVec2 {
        value.step()
    }
}

/// A set of directions, such as the arrows held down in one frame.
#[derive(Debug, Clone, Copy, PartialEq, Eq, Structural, Default)]
pub struct DirectionSet {
    pub up: bool,
    pub down: bool,
    pub left: bool,
    pub right: bool,
}

impl DirectionSet {
    pub open spec fn has(self, d: Direction) -> bool {
        match d {
            Direction::Up => self.up,
            Direction::Down => self.down,
            Direction::Left => self.left,
            Direction::Right => self.right,
        }
    }

    /// How many directions the set holds.
    pub open spec fn size(self) -> nat {
        (if self.up { 1nat } else { 0 }) + (if self.down { 1nat } else { 0 }) + (if self.left {
            1nat
        } else {
            0
        }) + (if self.right { 1nat } else { 0 })
    }

    /// The directions of `self` that `other` does not hold.
    pub open spec fn minus(self, other: DirectionSet) -> DirectionSet {
        DirectionSet {
            up: self.up && !other.up,
            down: self.down && !other.down,
            left: self.left && !other.left,
            right: self.right && !other.right,
        }
    }

    /// The first direction of the set in the order up, down, left, right.
    pub open spec fn first(self) -> Option<Direction> {
        if self.up {
            Some(Direction::Up)
        } else if self.down {
            Some(Direction::Down)
        } else if self.left {
            Some(Direction::Left)
        } else if self.right {
            Some(Direction::Right)
        } else {
            None
        }
    }

    pub open spec fn empty_set() -> DirectionSet {
        DirectionSet { up: false, down: false, left: false, right: false }
    }

    pub fn empty() -> (s: DirectionSet)
        ensures
            s == DirectionSet::empty_set(),
            forall|d: Direction| !s.has(d),
            s.size() == 0,
    {
        DirectionSet { up: false, down: false, left: false, right: false }
    }

    pub fn len(&self) -> (n: usize)
        ensures
            n == self.size(),
    {
        let mut n: usize = 0;
        if self.up {
            n = n + 1;
        }
        if self.down {
            n = n + 1;
        }
        if self.left {
            n = n + 1;
        }
        if self.right {
            n = n + 1;
        }
        n
    }

    pub fn difference(&self, other: &DirectionSet) -> (s: DirectionSet)
        ensures
            s == self.minus(*other),
    {
        DirectionSet {
            up: self.up && !other.up,
            down: self.down && !other.down,
            left: self.left && !other.left,
            right: self.right && !other.right,
        }
    }

    pub fn first_direction(&self) -> (d: Option<Direction>)
        ensures
            d == self.first(),
    {
        if self.up {
            Some(Direction::Up)
        } else if self.down {
            Some(Direction::Down)
        } else if self.left {
            Some(Direction::Left)
        } else if self.right {
            Some(Direction::Right)
        } else {
            None
        }
    }
}

} // verus!
