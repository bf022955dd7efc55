use vstd::prelude::*;

use crate::automaton::{flag_of, CellType, Stage, HPP};
use crate::direction::Direction;

verus! {

/// A fluid cell at `(x, y)` holding the particles `particles`, about to collide.
pub open spec fn seeded_at(c: HPP, particles: [bool; 4], x: i32, y: int) -> bool {
    &&& forall|d: Direction| #[trigger] c.occupied(d) == flag_of(particles, d)
    &&& c.phase() == Stage::Collision
    &&& c.kind() == CellType::Water
    &&& c.position() == (x, y as i32)
}

/// A column of `rows` fluid cells at horizontal position `x`, one per row from
/// 0 upward, each seeded with `particles`. Placed on the grid's first and last
/// column it keeps a steady inflow entering and lets the flow leave.
pub fn seeded_column(particles: [bool; 4], x: i32, rows: i32) -> (r: Vec<HPP>)
    ensures
        r@.len() == (if rows > 0 { rows as int } else { 0 }),
        forall|y: int| 0 <= y < r@.len() ==> seeded_at(#[trigger] r@[y], particles, x, y),
{
    let mut r: Vec<HPP> = Vec::new();
    let mut y: i32 = 0;
    while y < rows
        invariant
            0 <= y,
            rows > 0 ==> y <= rows,
            rows <= 0 ==> y == 0,
            r@.len() == y as int,
            forall|i: int| 0 <= i < r@.len() ==> seeded_at(#[trigger] r@[i], particles, x, i),
        decreases rows - y,
    {
        r.push(HPP::new(particles, (x, y), CellType::Water));
        y = y + 1;
    }
    r
}

} // verus!
