//! Quick line plots: a session collects charts, each a sequence of points
//! with a color, and hands them over in one piece to whatever draws them.
use vstd::prelude::*;

pub mod color;
pub mod plotter;
pub mod laws;

pub use color::Color;
pub use plotter::{Chart, ChartData, ChartModel, Plotter};
