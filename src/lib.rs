//! The per-site rules of the HPP lattice gas: particles of unit mass and
//! speed move along the four lattice directions, collide on a site and
//! stream to the neighboring site, in two alternating half-steps.
//!
//! The rules are pure: a site's next state depends on its own state and on
//! its four neighbors (in the order Up, Left, Right, Down) alone, so a grid
//! may evaluate every site of a generation independently.
pub mod automaton;
pub mod direction;
pub mod laws;
pub mod layout;

pub use automaton::{CellType, Neighbors, Stage, HPP};
pub use direction::Direction;
