//! Declarative grid layout: a builder that collects size hints, and a grid
//! handle that hands out one concrete-sized cell per declared hint.

mod grid;
pub mod laws;

pub use grid::{cell_size_of, empty_cells_of, CellSize, Grid, GridBuilder, GridDirection};
