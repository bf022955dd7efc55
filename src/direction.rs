use vstd::prelude::*;

verus! {

/// One of the four lattice directions a particle can move in.
#[derive(Clone, Copy, Debug, PartialEq, Eq, Structural)]
pub enum Direction {
    Down,
    Right,
    Left,
    Up,
}

/// The direction pointing the other way along the same axis.
pub open spec fn opposite_of(d: Direction) -> Direction {
    match d {
        Direction::Up => Direction::Down,
        Direction::Left => Direction::Right,
        Direction::Right => Direction::Left,
        Direction::Down => Direction::Up,
    }
}

/// Quarter turn: Up, Left, Down, Right, and back to Up.
pub open spec fn perpendicular_of(d: Direction) -> Direction {
    match d {
        Direction::Up => Direction::Left,
        Direction::Left => Direction::Down,
        Direction::Right => Direction::Up,
        Direction::Down => Direction::Right,
    }
}

/// Where a cell stores its particle flag for `d`.
pub open spec fn slot(d: Direction) -> int {
    match d {
        Direction::Down => 0,
        Direction::Right => 1,
        Direction::Left => 2,
        Direction::Up => 3,
    }
}

/// Position of the neighbor lying in direction `d` within the canonical
/// neighbor order Up, Left, Right, Down.
pub open spec fn neighbor_index(d: Direction) -> int {
    match d {
        Direction::Up => 0,
        Direction::Left => 1,
        Direction::Right => 2,
        Direction::Down => 3,
    }
}

/// The directions in canonical neighbor order.
pub open spec fn canonical_directions() -> Seq<Direction> {
    seq![Direction::Up, Direction::Left, Direction::Right, Direction::Down]
}

impl Direction {
    pub fn opposite(&self) -> (r: Direction)
        ensures
            r == opposite_of(*self),
    {
        match *self {
            Direction::Up => Direction::Down,
            Direction::Left => Direction::Right,
            Direction::Right => Direction::Left,
            Direction::Down => Direction::Up,
        }
    }

    pub fn perpendicular(&self) -> (r: Direction)
        ensures
            r == perpendicular_of(*self),
    {
        match *self {
            Direction::Up => Direction::Left,
            Direction::Left => Direction::Down,
            Direction::Right => Direction::Up,
            Direction::Down => Direction::Right,
        }
    }

    /// Storage slot of this direction inside a cell.
    pub fn slot(&self) -> (r: usize)
        ensures
            r as int == slot(*self),
            r < 4,
    {
        match *self {
            Direction::Down => 0,
            Direction::Right => 1,
            Direction::Left => 2,
            Direction::Up => 3,
        }
    }
}

} // verus!
