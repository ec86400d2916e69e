//! A chart rendering library: bar and horizontal-bar charts drawn as
//! scalable-vector-graphics markup from numeric series data.
//!
//! All coordinates and data values are fixed-point numbers held as a signed
//! count of tenths (the value 12.5 is stored as 125), so that every emitted
//! number is exact and rendering is deterministic.

pub mod axis;
pub mod bar_chart;
pub mod canvas;
pub mod color;
pub mod common;
pub mod component;
pub mod path;
pub mod decimal;
pub mod horizontal_bar_chart;
pub mod svg;
pub mod theme;
