//! The integer side of a one-dimensional Gaussian kernel density estimate.
//!
//! An estimate turns a sample of reals into a grid of positions and a density
//! at each position. Before any real arithmetic happens, three things are
//! settled on counts alone: whether the sample may be used at all, by what the
//! sum of squared deviations is divided, and into how many intervals the grid
//! splits its window. Those rules live here, each with a proved contract; the
//! arithmetic on reals is left to the caller.

pub mod kde;

pub use kde::{check_sample, degrees_of_freedom, grid_intervals, KdeError};
