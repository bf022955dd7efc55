use vstd::prelude::*;

use crate::automaton::{
    collided, head_on, neighbor_in, next_stage, opens_toward, transported, Neighbors, Stage,
    HPP,
};
use crate::direction::{opposite_of, perpendicular_of, Direction};

verus! {

/// Number of directions for which `f` holds.
pub open spec fn count_of(f: spec_fn(Direction) -> bool) -> int {
    (if f(Direction::Up) { 1int } else { 0 }) + (if f(Direction::Left) { 1int } else { 0 }) + (if f(
        Direction::Right,
    ) {
        1int
    } else {
        0
    }) + (if f(Direction::Down) { 1int } else { 0 })
}

/// Number of particles on the site.
pub open spec fn particle_count(c: HPP) -> int {
    count_of(|d: Direction| c.occupied(d))
}

/// Number of particles left on the site by its collision half-step.
pub open spec fn collided_count(c: HPP, nb: Neighbors) -> int {
    count_of(|d: Direction| collided(c, nb, d))
}

/// Number of particles on the site after its transport half-step.
pub open spec fn transported_count(c: HPP, nb: Neighbors) -> int {
    count_of(|d: Direction| transported(c, nb, d))
}

/// Number of neighbors holding a particle that moves toward the site.
pub open spec fn inflow_count(nb: Neighbors) -> int {
    count_of(|d: Direction| faces_site(nb, opposite_of(d)))
}

/// The neighbor lying in direction `d` holds a particle moving back toward
/// the site.
pub open spec fn faces_site(nb: Neighbors, d: Direction) -> bool {
    neighbor_in(nb, d) matches Some(n) && n.occupied(opposite_of(d))
}

/// The stage reached after `n` half-steps from stage `s`.
pub open spec fn stage_after(s: Stage, n: nat) -> Stage
    decreases n,
{
    if n == 0 {
        s
    } else {
        next_stage(stage_after(s, (n - 1) as nat))
    }
}

/// Opposite is an involution without fixed points; perpendicular is a quarter
/// turn whose square is the opposite, so four turns come back to the start.
pub proof fn lemma_direction_algebra(d: Direction)
    ensures
        opposite_of(opposite_of(d)) == d,
        opposite_of(d) != d,
        perpendicular_of(perpendicular_of(d)) == opposite_of(d),
        perpendicular_of(d) != d,
        perpendicular_of(perpendicular_of(perpendicular_of(perpendicular_of(d)))) == d,
        perpendicular_of(opposite_of(d)) == opposite_of(perpendicular_of(d)),
{
}

/// Every half-step changes the stage.
pub proof fn lemma_step_changes_stage(s: Stage)
    ensures
        next_stage(s) != s,
        next_stage(next_stage(s)) == s,
{
}

/// Stepping repeatedly from the collision stage alternates collision and
/// transport, with no stage skipped or repeated.
pub proof fn lemma_stage_alternation(n: nat)
    ensures
        stage_after(Stage::Collision, n) == (if n % 2 == 0 {
            Stage::Collision
        } else {
            Stage::Transport
        }),
    decreases n,
{
    if n > 0 {
        lemma_stage_alternation((n - 1) as nat);
    }
}

/// Without a head-on pair and with fluid on all four sides, the collision
/// half-step leaves every particle where it is, so no particle is made or
/// lost.
pub proof fn lemma_collision_conserves(c: HPP, nb: Neighbors)
    requires
        forall|d: Direction| !#[trigger] head_on(c, d),
        forall|d: Direction| #[trigger] opens_toward(nb, d),
    ensures
        forall|x: Direction| #[trigger] collided(c, nb, x) == c.occupied(x),
        collided_count(c, nb) == particle_count(c),
{
    assert forall|x: Direction| #[trigger] collided(c, nb, x) == c.occupied(x) by {
        assert(!head_on(c, x));
        assert(!head_on(c, perpendicular_of(x)));
        assert(opens_toward(nb, x));
        assert(opens_toward(nb, opposite_of(x)));
    }
    assert(collided(c, nb, Direction::Up) == c.occupied(Direction::Up));
    assert(collided(c, nb, Direction::Left) == c.occupied(Direction::Left));
    assert(collided(c, nb, Direction::Right) == c.occupied(Direction::Right));
    assert(collided(c, nb, Direction::Down) == c.occupied(Direction::Down));
}

/// With a neighbor on every side, the transport half-step sends every
/// particle of the site away and takes in exactly those moving toward it, one
/// per neighbor that holds one.
pub proof fn lemma_transport_streams(c: HPP, nb: Neighbors)
    requires
        forall|d: Direction| #[trigger] neighbor_in(nb, d) is Some,
    ensures
        forall|x: Direction| #[trigger]
            transported(c, nb, x) == faces_site(nb, opposite_of(x)),
        transported_count(c, nb) == inflow_count(nb),
{
    assert forall|x: Direction| #[trigger]
        transported(c, nb, x) == faces_site(nb, opposite_of(x)) by {
        assert(neighbor_in(nb, x) is Some);
        assert(neighbor_in(nb, opposite_of(x)) is Some);
    }
    assert(transported(c, nb, Direction::Up) == faces_site(nb, Direction::Down));
    assert(transported(c, nb, Direction::Left) == faces_site(nb, Direction::Right));
    assert(transported(c, nb, Direction::Right) == faces_site(nb, Direction::Left));
    assert(transported(c, nb, Direction::Down) == faces_site(nb, Direction::Up));
}

/// A lone particle moving toward an obstacle or the edge of the domain leaves
/// the collision half-step moving the opposite way, and it is still the only
/// particle on the site.
pub proof fn lemma_reflection(c: HPP, nb: Neighbors, d: Direction)
    requires
        forall|x: Direction| #[trigger] c.occupied(x) == (x == d),
        !opens_toward(nb, d),
    ensures
        forall|x: Direction| #[trigger] collided(c, nb, x) == (x == opposite_of(d)),
        collided_count(c, nb) == 1,
        particle_count(c) == 1,
{
    assert forall|x: Direction| #[trigger] collided(c, nb, x) == (x == opposite_of(d)) by {
        assert(c.occupied(x) == (x == d));
        assert(c.occupied(opposite_of(x)) == (opposite_of(x) == d));
        assert(c.occupied(perpendicular_of(x)) == (perpendicular_of(x) == d));
        assert(c.occupied(opposite_of(perpendicular_of(x))) == (opposite_of(perpendicular_of(x))
            == d));
        assert(c.occupied(perpendicular_of(opposite_of(x))) == (perpendicular_of(opposite_of(x))
            == d));
        assert(c.occupied(perpendicular_of(perpendicular_of(x))) == (perpendicular_of(
            perpendicular_of(x),
        ) == d));
    }
    assert(collided(c, nb, Direction::Up) == (Direction::Up == opposite_of(d)));
    assert(collided(c, nb, Direction::Left) == (Direction::Left == opposite_of(d)));
    assert(collided(c, nb, Direction::Right) == (Direction::Right == opposite_of(d)));
    assert(collided(c, nb, Direction::Down) == (Direction::Down == opposite_of(d)));
    assert(c.occupied(Direction::Up) == (Direction::Up == d));
    assert(c.occupied(Direction::Left) == (Direction::Left == d));
    assert(c.occupied(Direction::Right) == (Direction::Right == d));
    assert(c.occupied(Direction::Down) == (Direction::Down == d));
}

/// Particles meeting head-on along the vertical axis, with the horizontal
/// axis empty and fluid all around, leave moving left and right.
pub proof fn lemma_head_on_turns(c: HPP, nb: Neighbors)
    requires
        c.occupied(Direction::Up),
        c.occupied(Direction::Down),
        !c.occupied(Direction::Left),
        !c.occupied(Direction::Right),
        forall|d: Direction| #[trigger] opens_toward(nb, d),
    ensures
        forall|x: Direction| #[trigger]
            collided(c, nb, x) == (x == Direction::Left || x == Direction::Right),
{
    assert(head_on(c, Direction::Up));
    assert(head_on(c, Direction::Down));
    assert(!head_on(c, Direction::Left));
    assert(!head_on(c, Direction::Right));
}

/// A lone upward particle with fluid all around passes straight through the
/// collision half-step. In the transport half-step it leaves the site, since
/// no neighbor sends a particle back, and reaches the site above: that site
/// holds an upward particle whenever the site below it is the collided one.
pub proof fn lemma_pass_through(
    c: HPP,
    nb: Neighbors,
    mid: HPP,
    nb_mid: Neighbors,
    above: HPP,
    nb_above: Neighbors,
)
    requires
        forall|x: Direction| #[trigger] c.occupied(x) == (x == Direction::Up),
        forall|d: Direction| #[trigger] opens_toward(nb, d),
        forall|x: Direction| #[trigger] mid.occupied(x) == collided(c, nb, x),
        forall|d: Direction| #[trigger] neighbor_in(nb_mid, d) is Some,
        forall|d: Direction| !#[trigger] faces_site(nb_mid, d),
        neighbor_in(nb_above, Direction::Down) == Some(&mid),
    ensures
        forall|x: Direction| #[trigger] collided(c, nb, x) == (x == Direction::Up),
        forall|x: Direction| !#[trigger] transported(mid, nb_mid, x),
        transported(above, nb_above, Direction::Up),
{
    assert forall|d: Direction| !#[trigger] head_on(c, d) by {
        assert(c.occupied(d) == (d == Direction::Up));
        assert(c.occupied(opposite_of(d)) == (opposite_of(d) == Direction::Up));
    }
    lemma_collision_conserves(c, nb);
    lemma_transport_streams(mid, nb_mid);
    assert forall|x: Direction| !#[trigger] transported(mid, nb_mid, x) by {
        assert(!faces_site(nb_mid, opposite_of(x)));
    }
    assert(mid.occupied(Direction::Up));
}

} // verus!
