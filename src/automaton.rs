use vstd::prelude::*;

use crate::direction::{
    canonical_directions, neighbor_index, opposite_of, perpendicular_of, slot, Direction,
};

verus! {

/// The half-step a cell is about to take.
#[derive(Clone, Copy, Debug, PartialEq, Eq, Structural)]
pub enum Stage {
    Collision,
    Transport,
}

impl Default for Stage {
    fn default() -> (r: Stage)
        ensures
            r == Stage::Collision,
    {
        Stage::Collision
    }
}

/// The stage that follows `s`: the two half-steps strictly alternate.
pub open spec fn next_stage(s: Stage) -> Stage {
    match s {
        Stage::Collision => Stage::Transport,
        Stage::Transport => Stage::Collision,
    }
}

/// Fluid (`Water`) sites carry particles; obstacle (`Wall`) sites reflect them.
#[derive(Clone, Copy, Debug, PartialEq, Eq, Structural)]
pub enum CellType {
    Water,
    Wall,
}

impl Default for CellType {
    fn default() -> (r: CellType)
        ensures
            r == CellType::Water,
    {
        CellType::Water
    }
}

/// One site of the HPP lattice gas: a particle flag per direction, the site's
/// kind, the half-step it takes next and its fixed position on the grid.
#[derive(Clone, Copy, Debug)]
pub struct HPP {
    particles: [bool; 4],
    stage: Stage,
    coord: (i32, i32),
    _type: CellType,
}

impl HPP {
    /// Whether a particle moving in direction `d` sits on this site.
    pub closed spec fn occupied(&self, d: Direction) -> bool {
        self.particles@[slot(d)]
    }

    /// The half-step the site takes next.
    pub closed spec fn phase(&self) -> Stage {
        self.stage
    }

    /// Fluid or obstacle, fixed when the site is made.
    pub closed spec fn kind(&self) -> CellType {
        self._type
    }

    /// Where the site stands on the grid; the rules never read it.
    pub closed spec fn position(&self) -> (i32, i32) {
        self.coord
    }
}

/// The particle flags of `particles`, read through the cell layout.
pub open spec fn flag_of(particles: [bool; 4], d: Direction) -> bool {
    particles@[slot(d)]
}

impl HPP {
    pub fn new(particles: [bool; 4], coord: (i32, i32), _type: CellType) -> (r: HPP)
        ensures
            forall|d: Direction| #[trigger] r.occupied(d) == flag_of(particles, d),
            r.phase() == Stage::Collision,
            r.position() == coord,
            r.kind() == _type,
    {
        HPP { stage: Stage::Collision, particles, coord, _type }
    }

    /// An empty fluid site at `coord`, ready for its collision half-step.
    pub fn with_coord(coord: (i32, i32)) -> (r: HPP)
        ensures
            forall|d: Direction| !#[trigger] r.occupied(d),
            r.phase() == Stage::Collision,
            r.position() == coord,
            r.kind() == CellType::Water,
    {
        HPP { stage: Stage::Collision, particles: [false, false, false, false], coord, _type: CellType::Water }
    }

    pub fn coord(&self) -> (r: &(i32, i32))
        ensures
            *r == self.position(),
    {
        &self.coord
    }

    pub fn set_coord(&mut self, coord: (i32, i32))
        ensures
            final(self).position() == coord,
            final(self).phase() == old(self).phase(),
            final(self).kind() == old(self).kind(),
            forall|d: Direction| #[trigger] final(self).occupied(d) == old(self).occupied(d),
    {
        self.coord = coord;
    }

    pub fn cell_type(&self) -> (r: CellType)
        ensures
            r == self.kind(),
    {
        self._type
    }

    pub fn stage(&self) -> (r: Stage)
        ensures
            r == self.phase(),
    {
        self.stage
    }

    pub fn particle(&self, direction: &Direction) -> (r: bool)
        ensures
            r == self.occupied(*direction),
    {
        let index = direction.slot();
        self.particles[index]
    }

    pub fn set_particle(&mut self, direction: &Direction, exists: bool)
        ensures
            final(self).occupied(*direction) == exists,
            forall|d: Direction| d != *direction ==> #[trigger] final(self).occupied(d) == old(self).occupied(d),
            final(self).phase() == old(self).phase(),
            final(self).kind() == old(self).kind(),
            final(self).position() == old(self).position(),
    {
        let index = direction.slot();
        self.particles[index] = exists;
    }

    /// The four directions in the order in which neighbors are handed to the
    /// rules: Up, Left, Right, Down.
    pub fn directions(&self) -> (r: [Direction; 4])
        ensures
            r@ == canonical_directions(),
    {
        let r = [Direction::Up, Direction::Left, Direction::Right, Direction::Down];
        assert(r@ =~= canonical_directions());
        r
    }
}

/// The neighbors of a site in canonical order Up, Left, Right, Down; `None`
/// marks the edge of the domain.
pub type Neighbors<'a> = [Option<&'a HPP>; 4];

/// The neighbor lying in direction `d`, if any.
pub open spec fn neighbor_in<'a>(nb: Neighbors<'a>, d: Direction) -> Option<&'a HPP> {
    nb@[neighbor_index(d)]
}

/// Flow passes on toward `d`: a fluid neighbor lies there. An obstacle or the
/// edge of the domain reflects it instead.
pub open spec fn opens_toward(nb: Neighbors, d: Direction) -> bool {
    match neighbor_in(nb, d) {
        Some(n) => n.kind() == CellType::Water,
        None => false,
    }
}

/// The axis of `d` holds a head-on pair: particles at `d` and its opposite,
/// and none on the perpendicular axis.
pub open spec fn head_on(c: HPP, d: Direction) -> bool {
    &&& c.occupied(d)
    &&& c.occupied(opposite_of(d))
    &&& !c.occupied(perpendicular_of(d))
    &&& !c.occupied(perpendicular_of(opposite_of(d)))
}

/// Whether a particle moves in direction `x` once `c` has taken its collision
/// half-step: it was turned there by a head-on pair on the other axis, it
/// moved that way already toward a fluid neighbor, or it rebounded from an
/// obstacle or edge lying the other way.
pub open spec fn collided(c: HPP, nb: Neighbors, x: Direction) -> bool {
    ||| head_on(c, perpendicular_of(x))
    ||| !head_on(c, x) && (opens_toward(nb, x) && c.occupied(x) || !opens_toward(
        nb,
        opposite_of(x),
    ) && c.occupied(opposite_of(x)))
}

/// Whether a particle moves in direction `x` once `c` has taken its transport
/// half-step: it streamed in from the neighbor behind it, or, at the edge of
/// the domain, it stayed on the site.
pub open spec fn transported(c: HPP, nb: Neighbors, x: Direction) -> bool {
    ||| neighbor_in(nb, opposite_of(x)) matches Some(n) && n.occupied(x)
    ||| neighbor_in(nb, x) is None && c.occupied(x)
}

/// Occupancy after one half-step of `c`, whichever stage it is at.
pub open spec fn stepped(c: HPP, nb: Neighbors, x: Direction) -> bool {
    match c.phase() {
        Stage::Collision => collided(c, nb, x),
        Stage::Transport => transported(c, nb, x),
    }
}

/// What handling direction `d` during the collision half-step adds at `x`.
spec fn collision_part(c: HPP, nb: Neighbors, d: Direction, x: Direction) -> bool {
    if head_on(c, d) {
        x == perpendicular_of(d) || x == perpendicular_of(opposite_of(d))
    } else if opens_toward(nb, d) {
        x == d && c.occupied(d)
    } else {
        x == opposite_of(d) && c.occupied(d)
    }
}

/// Occupancy at `x` after the first `i` directions of the collision half-step.
spec fn collided_upto(c: HPP, nb: Neighbors, i: int, x: Direction) -> bool
    decreases i,
{
    if i <= 0 {
        false
    } else {
        collided_upto(c, nb, i - 1, x) || collision_part(c, nb, canonical_directions()[i - 1], x)
    }
}

/// What handling direction `d` during the transport half-step adds at `x`.
spec fn transport_part(c: HPP, nb: Neighbors, d: Direction, x: Direction) -> bool {
    match neighbor_in(nb, d) {
        Some(n) => x == opposite_of(d) && n.occupied(opposite_of(d)),
        None => x == d && c.occupied(d),
    }
}

/// Occupancy at `x` after the first `i` directions of the transport half-step.
spec fn transported_upto(c: HPP, nb: Neighbors, i: int, x: Direction) -> bool
    decreases i,
{
    if i <= 0 {
        false
    } else {
        transported_upto(c, nb, i - 1, x) || transport_part(
            c,
            nb,
            canonical_directions()[i - 1],
            x,
        )
    }
}

proof fn lemma_canonical_order()
    ensures
        forall|i: int|
            0 <= i < 4 ==> neighbor_index(#[trigger] canonical_directions()[i]) == i,
{
    assert(neighbor_index(canonical_directions()[0]) == 0);
    assert(neighbor_index(canonical_directions()[1]) == 1);
    assert(neighbor_index(canonical_directions()[2]) == 2);
    assert(neighbor_index(canonical_directions()[3]) == 3);
}

/// Whether the neighbor `n` lets flow pass on.
fn is_open(n: Option<&HPP>) -> (r: bool)
    ensures
        r == (n matches Some(c) && c.kind() == CellType::Water),
{
    match n {
        Some(c) => c._type == CellType::Water,
        None => false,
    }
}

impl HPP {
    fn has_head_on(&self, d: &Direction) -> (r: bool)
        ensures
            r == head_on(*self, *d),
    {
        let op = d.opposite();
        self.particle(d) && self.particle(&op) && !self.particle(&d.perpendicular())
            && !self.particle(&op.perpendicular())
    }

    /// The collision half-step: head-on pairs turn a quarter, every other
    /// particle keeps its direction toward a fluid neighbor and rebounds from
    /// an obstacle or the edge of the domain.
    pub fn collision(&self, neighbors: Neighbors) -> (r: HPP)
        ensures
            forall|x: Direction| #[trigger] r.occupied(x) == collided(*self, neighbors, x),
            r.phase() == Stage::Transport,
            r.kind() == self.kind(),
            r.position() == self.position(),
    {
        let mut new = HPP {
            particles: [false, false, false, false],
            stage: Stage::Transport,
            coord: self.coord,
            _type: self._type,
        };
        let dirs = self.directions();
        proof {
            lemma_canonical_order();
        }
        let mut i: usize = 0;
        while i < 4
            invariant
                i <= 4,
                dirs@ == canonical_directions(),
                forall|x: Direction| #[trigger]
                    new.occupied(x) == collided_upto(*self, neighbors, i as int, x),
                new.phase() == Stage::Transport,
                new.kind() == self.kind(),
                new.position() == self.position(),
            decreases 4 - i,
        {
            let d = dirs[i];
            let op = d.opposite();
            if self.has_head_on(&d) {
                new.set_particle(&d.perpendicular(), true);
                new.set_particle(&op.perpendicular(), true);
            } else if is_open(neighbors[i]) {
                let exists = new.particle(&d) || self.particle(&d);
                new.set_particle(&d, exists);
            } else if self.particle(&d) {
                new.set_particle(&op, true);
            }
            i = i + 1;
        }
        proof {
            assert forall|x: Direction| #[trigger]
                new.occupied(x) == collided(*self, neighbors, x) by {
                reveal_with_fuel(collided_upto, 5);
            }
        }
        new
    }

    /// The transport half-step: each particle moves one site along its
    /// direction; at the edge of the domain it stays where it is.
    pub fn transport(&self, neighbors: Neighbors) -> (r: HPP)
        ensures
            forall|x: Direction| #[trigger] r.occupied(x) == transported(*self, neighbors, x),
            r.phase() == Stage::Collision,
            r.kind() == self.kind(),
            r.position() == self.position(),
    {
        let mut new = HPP {
            particles: [false, false, false, false],
            stage: Stage::Collision,
            coord: self.coord,
            _type: self._type,
        };
        let dirs = self.directions();
        proof {
            lemma_canonical_order();
        }
        let mut i: usize = 0;
        while i < 4
            invariant
                i <= 4,
                dirs@ == canonical_directions(),
                forall|x: Direction| #[trigger]
                    new.occupied(x) == transported_upto(*self, neighbors, i as int, x),
                new.phase() == Stage::Collision,
                new.kind() == self.kind(),
                new.position() == self.position(),
            decreases 4 - i,
        {
            let d = dirs[i];
            match neighbors[i] {
                Some(n) => {
                    let op = d.opposite();
                    if n.particle(&op) {
                        new.set_particle(&op, true);
                    }
                },
                None => {
                    if self.particle(&d) {
                        new.set_particle(&d, true);
                    }
                },
            }
            i = i + 1;
        }
        proof {
            assert forall|x: Direction| #[trigger]
                new.occupied(x) == transported(*self, neighbors, x) by {
                reveal_with_fuel(transported_upto, 5);
            }
        }
        new
    }

    /// One half-step of the site: the collision rule at the collision stage,
    /// the transport rule at the transport stage. Obstacles run the same
    /// rules on their own (normally empty) occupancy.
    pub fn step(&self, neighbors: Neighbors) -> (r: HPP)
        ensures
            forall|x: Direction| #[trigger] r.occupied(x) == stepped(*self, neighbors, x),
            r.phase() == next_stage(self.phase()),
            r.kind() == self.kind(),
            r.position() == self.position(),
    {
        match self.stage {
            Stage::Collision => self.collision(neighbors),
            Stage::Transport => self.transport(neighbors),
        }
    }
}

impl Default for HPP {
    fn default() -> (r: HPP)
        ensures
            forall|d: Direction| !#[trigger] r.occupied(d),
            r.phase() == Stage::Collision,
            r.position() == (0i32, 0i32),
            r.kind() == CellType::Water,
    {
        HPP::with_coord((0, 0))
    }
}

} // verus!
