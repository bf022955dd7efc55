use hpp::layout::seeded_column;
use hpp::{CellType, Direction, Stage, HPP};

const ALL: [Direction; 4] = [Direction::Up, Direction::Left, Direction::Right, Direction::Down];

fn occupancy(c: &HPP) -> [bool; 4] {
    [
        c.particle(&Direction::Up),
        c.particle(&Direction::Left),
        c.particle(&Direction::Right),
        c.particle(&Direction::Down),
    ]
}

fn count(c: &HPP) -> usize {
    occupancy(c).iter().filter(|b| **b).count()
}

fn water(particles: [bool; 4], coord: (i32, i32)) -> HPP {
    HPP::new(particles, coord, CellType::Water)
}

fn empty_water(coord: (i32, i32)) -> HPP {
    HPP::with_coord(coord)
}

#[test]
fn direction_algebra_holds_for_every_direction() {
    for d in ALL.iter() {
        assert_eq!(d.opposite().opposite(), *d);
        assert_eq!(d.perpendicular().perpendicular(), d.opposite());
        assert_ne!(d.opposite(), *d);
        assert_ne!(d.perpendicular(), *d);
    }
}

#[test]
fn direction_tables() {
    assert_eq!(Direction::Up.opposite(), Direction::Down);
    assert_eq!(Direction::Left.opposite(), Direction::Right);
    assert_eq!(Direction::Up.perpendicular(), Direction::Left);
    assert_eq!(Direction::Left.perpendicular(), Direction::Down);
    assert_eq!(Direction::Down.perpendicular(), Direction::Right);
    assert_eq!(Direction::Right.perpendicular(), Direction::Up);
}

#[test]
fn geometry_is_referentially_transparent() {
    for d in ALL.iter() {
        assert_eq!(d.opposite(), d.opposite());
        assert_eq!(d.perpendicular(), d.perpendicular());
    }
}

#[test]
fn directions_in_canonical_order() {
    let c = empty_water((0, 0));
    assert_eq!(c.directions(), [Direction::Up, Direction::Left, Direction::Right, Direction::Down]);
}

#[test]
fn new_stores_particles_by_layout() {
    // Layout of the flags: Down, Right, Left, Up.
    let c = water([true, true, false, true], (2, 5));
    assert!(c.particle(&Direction::Down));
    assert!(c.particle(&Direction::Right));
    assert!(!c.particle(&Direction::Left));
    assert!(c.particle(&Direction::Up));
    assert_eq!(*c.coord(), (2, 5));
    assert_eq!(c.cell_type(), CellType::Water);
    assert_eq!(c.stage(), Stage::Collision);
}

#[test]
fn with_coord_and_default_are_empty_fluid() {
    let c = HPP::with_coord((7, -3));
    assert_eq!(count(&c), 0);
    assert_eq!(*c.coord(), (7, -3));
    assert_eq!(c.cell_type(), CellType::Water);
    assert_eq!(c.stage(), Stage::Collision);
    let d = HPP::default();
    assert_eq!(count(&d), 0);
    assert_eq!(*d.coord(), (0, 0));
    assert_eq!(Stage::default(), Stage::Collision);
    assert_eq!(CellType::default(), CellType::Water);
}

#[test]
fn set_coord_and_set_particle() {
    let mut c = HPP::with_coord((1, 1));
    c.set_coord((4, 9));
    assert_eq!(*c.coord(), (4, 9));
    c.set_particle(&Direction::Left, true);
    assert_eq!(occupancy(&c), [false, true, false, false]);
    c.set_particle(&Direction::Left, false);
    assert_eq!(count(&c), 0);
}

#[test]
fn conservation_without_head_on_and_fluid_neighbors() {
    let n = empty_water((0, 0));
    // Up, Left and Right occupied: no head-on pair.
    let c = water([false, true, true, true], (1, 1));
    let after = c.collision([Some(&n), Some(&n), Some(&n), Some(&n)]);
    assert_eq!(occupancy(&after), occupancy(&c));
    assert_eq!(count(&after), count(&c));
    assert_eq!(after.stage(), Stage::Transport);
    // Transport with empty neighbors on all sides: every particle leaves.
    let moved = after.transport([Some(&n), Some(&n), Some(&n), Some(&n)]);
    assert_eq!(count(&moved), 0);
}

#[test]
fn transport_takes_in_what_moves_toward_the_site() {
    let up = water([true, false, false, false], (0, 0)); // moving Down
    let left = water([false, true, false, false], (0, 0)); // moving Right
    let right = empty_water((0, 0));
    let down = water([false, false, false, true], (0, 0)); // moving Up
    let c = water([true, true, true, true], (1, 1));
    let mut mid = c.collision([Some(&right), Some(&right), Some(&right), Some(&right)]);
    mid.set_coord((1, 1));
    let after = mid.transport([Some(&up), Some(&left), Some(&right), Some(&down)]);
    assert_eq!(occupancy(&after), [true, false, true, true]);
    assert_eq!(count(&after), 3);
}

#[test]
fn reflection_from_obstacle() {
    let n = empty_water((0, 0));
    let wall = HPP::new([false; 4], (1, 0), CellType::Wall);
    let c = water([false, false, false, true], (1, 1)); // moving Up
    let after = c.collision([Some(&wall), Some(&n), Some(&n), Some(&n)]);
    assert_eq!(occupancy(&after), [false, false, false, true]);
    assert!(after.particle(&Direction::Down));
    assert_eq!(count(&after), 1);
}

#[test]
fn reflection_from_domain_edge() {
    let n = empty_water((0, 0));
    let c = water([false, false, true, false], (0, 4)); // moving Left
    let after = c.collision([Some(&n), None, Some(&n), Some(&n)]);
    assert_eq!(occupancy(&after), [false, false, true, false]);
    assert!(after.particle(&Direction::Right));
    assert_eq!(count(&after), 1);
}

#[test]
fn head_on_pair_turns_a_quarter() {
    let n = empty_water((0, 0));
    let c = water([true, false, false, true], (3, 3)); // Up and Down
    let after = c.collision([Some(&n), Some(&n), Some(&n), Some(&n)]);
    assert_eq!(occupancy(&after), [false, true, true, false]);
}

#[test]
fn horizontal_head_on_pair_turns_vertical() {
    let wall = HPP::new([false; 4], (0, 0), CellType::Wall);
    let c = water([false, true, true, false], (3, 3)); // Left and Right
    let after = c.collision([None, Some(&wall), None, Some(&wall)]);
    assert_eq!(occupancy(&after), [true, false, false, true]);
}

#[test]
fn three_particles_are_not_head_on() {
    let wall = HPP::new([false; 4], (0, 0), CellType::Wall);
    let n = empty_water((0, 0));
    // Up, Down and Left; obstacle above, fluid elsewhere: the upward particle
    // rebounds into the downward slot, which is taken already.
    let c = water([true, false, true, true], (3, 3));
    let after = c.collision([Some(&wall), Some(&n), Some(&n), Some(&n)]);
    assert_eq!(occupancy(&after), [false, true, false, true]);
}

#[test]
fn phase_alternates() {
    let n = empty_water((0, 0));
    let mut c = water([false, false, false, true], (1, 1));
    let mut expected = Stage::Collision;
    for _ in 0..6 {
        assert_eq!(c.stage(), expected);
        c = c.step([Some(&n), Some(&n), Some(&n), Some(&n)]);
        expected = if expected == Stage::Collision { Stage::Transport } else { Stage::Collision };
    }
    assert_eq!(c.stage(), Stage::Collision);
}

#[test]
fn stepping_twice_differs() {
    let n = empty_water((0, 0));
    let c = water([false, false, false, true], (1, 1));
    let nb = [Some(&n), Some(&n), Some(&n), Some(&n)];
    let once = c.step(nb);
    let twice = once.step(nb);
    assert_eq!(occupancy(&once), [true, false, false, false]);
    assert_eq!(occupancy(&twice), [false, false, false, false]);
    assert_ne!(once.stage(), twice.stage());
}

#[test]
fn step_keeps_kind_and_position() {
    let n = empty_water((0, 0));
    let c = HPP::new([false; 4], (8, 2), CellType::Wall);
    let after = c.step([Some(&n), None, Some(&n), Some(&n)]);
    assert_eq!(after.cell_type(), CellType::Wall);
    assert_eq!(*after.coord(), (8, 2));
    assert_eq!(after.stage(), Stage::Transport);
    assert_eq!(count(&after), 0);
}

#[test]
fn obstacle_runs_the_same_rule() {
    let n = empty_water((0, 0));
    let c = HPP::new([false, false, false, true], (5, 5), CellType::Wall);
    let after = c.step([Some(&n), Some(&n), Some(&n), Some(&n)]);
    assert_eq!(occupancy(&after), [true, false, false, false]);
}

#[test]
fn transport_at_edge_keeps_outward_particle() {
    let n = empty_water((0, 0));
    let c = water([false, false, true, false], (0, 0)); // moving Left
    let mut mid = c.collision([Some(&n), Some(&n), Some(&n), Some(&n)]);
    assert!(mid.particle(&Direction::Left));
    mid.set_coord((0, 0));
    let after = mid.transport([Some(&n), None, Some(&n), Some(&n)]);
    assert_eq!(occupancy(&after), [false, true, false, false]);
}

#[test]
fn end_to_end_pass_through() {
    let n = empty_water((0, 0));
    let c = water([false, false, false, true], (5, 5)); // Up only
    let nb = [Some(&n), Some(&n), Some(&n), Some(&n)];
    let mid = c.step(nb);
    assert_eq!(occupancy(&mid), [true, false, false, false]);
    // The site above has collided to an empty state as well.
    let above = empty_water((5, 4)).step(nb);
    let after = mid.step(nb);
    assert_eq!(count(&after), 0);
    let above_after = above.step([Some(&n), Some(&n), Some(&n), Some(&mid)]);
    assert_eq!(occupancy(&above_after), [true, false, false, false]);
    assert_eq!(above_after.stage(), Stage::Collision);
}

#[test]
fn column_seeds_every_row() {
    let cells = seeded_column([true, true, false, true], 0, 3);
    assert_eq!(cells.len(), 3);
    for (y, c) in cells.iter().enumerate() {
        assert_eq!(*c.coord(), (0, y as i32));
        assert_eq!(occupancy(c), [true, false, true, true]);
        assert_eq!(c.cell_type(), CellType::Water);
        assert_eq!(c.stage(), Stage::Collision);
    }
    assert!(seeded_column([false; 4], 69, 0).is_empty());
    assert!(seeded_column([false; 4], 69, -2).is_empty());
}
