//! A generalized multi-state cellular automaton on a toroidal 2D or 3D lattice.
//!
//! Cells are `Alive`, `Dying(level)` or `Dead`; a configurable rule set decides
//! survival and birth from the number of alive neighbors, and every generation
//! is computed from the committed snapshot of the previous one.
pub mod helpers;
pub mod lattice;
pub mod laws;
pub mod neighborhood;
pub mod rules;
pub mod simulation;
pub mod tick;
pub mod topology;

pub use helpers::{add_ivec3, c32, CVec3, IVec3, C32_EXTENT, PLOT_SIZE};
pub use lattice::{CellArray, CellState};
pub use neighborhood::{ConfigError, Neighborhood, MAX_NEIGHBORS};
pub use rules::{Rule, Rules};
pub use simulation::{color_slot, Settings, SimulationState};
pub use tick::next_cell_state;
pub use topology::{fold, fold_offset};
